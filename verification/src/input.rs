use crate::address::action_set_path;
use crate::address::child_path;
use crate::address::root_path;
use crate::address::NodeAddress;
use crate::error::XrError;
use crate::instance::StardustInstance;
use crate::registry::HandleRegistry;
use crate::rpc::encode_text_pair;
use crate::rpc::encode_text_pair_u32;
use crate::rpc::flex_bytes;
use crate::rpc::text_pair;
use crate::rpc::text_pair_and_number;
use crate::rpc::message;
use crate::rpc::send_signal;
use crate::rpc::Signal;
use crate::runtime::Runtime;
use crate::util::bytes_of;
use crate::util::read_text;
use crate::util::text_of;
use vstd::prelude::*;

verus! {

/// The arguments for creating an action set, as they come over the interface: each string
/// as the bytes in front of its terminator, or `None` for a null pointer.
pub struct ActionSetCreateInfo {
    pub action_set_name: Option<Vec<u8>>,
    pub localized_action_set_name: Option<Vec<u8>>,
    pub priority: u32,
}

/// The arguments for creating an action, as they come over the interface.
pub struct ActionCreateInfo {
    pub action_name: Option<Vec<u8>>,
    pub localized_action_name: Option<Vec<u8>>,
}

/// An action set: the instance it was created under, and its node's address.
pub struct StardustActionSet {
    instance: u64,
    node_path: NodeAddress,
}

/// An action: the action set it was created under, and its node's address.
pub struct StardustAction {
    action_set: u64,
    node_path: NodeAddress,
}

/// What the signal for a new action set carries: the set's name, its localized name and its
/// priority, serialized as one tuple.
pub open spec fn action_set_payload(
    name: Seq<char>,
    localized_name: Seq<char>,
    priority: u32,
) -> Option<Seq<u8>> {
    flex_bytes(text_pair_and_number(name, localized_name, priority))
}

/// What the signal for a new action carries: the action's name and its localized name,
/// serialized as one tuple.
pub open spec fn action_payload(name: Seq<char>, localized_name: Seq<char>) -> Option<Seq<u8>> {
    flex_bytes(text_pair(name, localized_name))
}

/// Why an action set cannot be prepared, if it cannot: the instance is not live, a name
/// cannot be read, or the names and the priority cannot be serialized.
pub open spec fn action_set_refusal(
    instances: Map<u64, StardustInstance>,
    instance: u64,
    create_info: &ActionSetCreateInfo,
) -> Option<XrError> {
    let name = text_of(bytes_of(create_info.action_set_name));
    let localized_name = text_of(bytes_of(create_info.localized_action_set_name));
    if !instances.contains_key(instance) {
        Some(XrError::HandleInvalid)
    } else if name is None || localized_name is None {
        Some(XrError::ValidationFailure)
    } else if action_set_payload(name->0, localized_name->0, create_info.priority) is None {
        Some(XrError::RuntimeFailure)
    } else {
        None
    }
}

/// Why an action cannot be prepared, if it cannot: the action set or its instance is not
/// live, a name cannot be read, or the names cannot be serialized.
pub open spec fn action_refusal(
    instances: Map<u64, StardustInstance>,
    action_sets: Map<u64, StardustActionSet>,
    action_set: u64,
    create_info: &ActionCreateInfo,
) -> Option<XrError> {
    let name = text_of(bytes_of(create_info.action_name));
    let localized_name = text_of(bytes_of(create_info.localized_action_name));
    if !action_sets.contains_key(action_set) {
        Some(XrError::HandleInvalid)
    } else if !instances.contains_key(action_sets[action_set].owner()) {
        Some(XrError::HandleInvalid)
    } else if name is None || localized_name is None {
        Some(XrError::ValidationFailure)
    } else if action_payload(name->0, localized_name->0) is None {
        Some(XrError::RuntimeFailure)
    } else {
        None
    }
}

/// Whether an action set and a signal are what creating a set from `create_info` makes:
/// the set lies under `instance` at the address of its name, and the signal asks the
/// server's root to create it and carries the two names and the priority.
pub open spec fn action_set_made(
    set: StardustActionSet,
    signal: Signal,
    instance: u64,
    create_info: &ActionSetCreateInfo,
) -> bool {
    let name = text_of(bytes_of(create_info.action_set_name))->0;
    let localized_name = text_of(bytes_of(create_info.localized_action_set_name))->0;
    &&& set.owner() == instance
    &&& set@ == action_set_path(name)
    &&& signal@ == message(
        root_path(),
        "create_action_set"@,
        action_set_payload(name, localized_name, create_info.priority)->0,
    )
}

/// Whether an action and a signal are what creating an action from `create_info` makes
/// under the action set `action_set`, whose node is at `set_path`: the action's address is
/// the set's address, a slash and the action's name, and the signal asks the set's node
/// to create it and carries the two names.
pub open spec fn action_made(
    action: StardustAction,
    signal: Signal,
    action_set: u64,
    set_path: Seq<char>,
    create_info: &ActionCreateInfo,
) -> bool {
    let name = text_of(bytes_of(create_info.action_name))->0;
    let localized_name = text_of(bytes_of(create_info.localized_action_name))->0;
    &&& action.owner() == action_set
    &&& action@ == child_path(set_path, name)
    &&& signal@ == message(set_path, "create_action"@, action_payload(name, localized_name)->0)
}

impl StardustActionSet {
    /// The handle of the instance that the action set was created under.
    pub closed spec fn owner(&self) -> u64 {
        self.instance
    }

    /// The address of the action set's node.
    pub closed spec fn view(&self) -> Seq<char> {
        self.node_path@
    }

    /// Makes an action set under a live instance, and with it the signal that asks the
    /// server's root to create it: the signal carries the set's name, its localized name
    /// and its priority. The set's address is `/openxr/action_set/` and its name. Whether
    /// another set of the same name exists is not looked at: the server decides on that.
    pub fn new(
        instances: &HandleRegistry<StardustInstance>,
        instance: u64,
        create_info: &ActionSetCreateInfo,
    ) -> (made: Result<(StardustActionSet, Signal), XrError>)
        ensures
            match action_set_refusal(instances@, instance, create_info) {
                Some(refusal) => made matches Err(e) && e == refusal,
                None => made matches Ok((set, signal)) && action_set_made(
                    set,
                    signal,
                    instance,
                    create_info,
                ),
            },
    {
        if !instances.contains(instance) {
            return Err(XrError::HandleInvalid);
        }
        let name = match read_text(&create_info.action_set_name) {
            Ok(s) => s,
            Err(e) => {
                return Err(e);
            },
        };
        let localized_name = match read_text(&create_info.localized_action_set_name) {
            Ok(s) => s,
            Err(e) => {
                return Err(e);
            },
        };
        let payload = encode_text_pair_u32(name, localized_name, create_info.priority);
        let root = NodeAddress::root();
        match send_signal(root.as_str(), "create_action_set", payload) {
            Ok(signal) => Ok(
                (StardustActionSet { instance, node_path: NodeAddress::action_set(name) }, signal),
            ),
            Err(e) => Err(e),
        }
    }

    /// The handle of the instance that the action set was created under.
    pub fn instance_handle(&self) -> (handle: u64)
        ensures
            handle == self.owner(),
    {
        self.instance
    }

    /// The instance that the action set was created under, looked up among the live
    /// instances. Where the instance has been destroyed, the answer is `HandleInvalid`.
    pub fn instance<'a>(&self, instances: &'a mut HandleRegistry<StardustInstance>) -> (found:
        Result<&'a mut StardustInstance, XrError>)
        ensures
            final(instances).issued() == old(instances).issued(),
            match found {
                Ok(object) => {
                    &&& old(instances)@.contains_key(self.owner())
                    &&& *object == old(instances)@[self.owner()]
                    &&& final(instances)@ == old(instances)@.insert(self.owner(), *final(object))
                },
                Err(e) => {
                    &&& e == XrError::HandleInvalid
                    &&& !old(instances)@.contains_key(self.owner())
                    &&& final(instances)@ == old(instances)@
                },
            },
    {
        instances.resolve_mut(self.instance)
    }

    /// The address of the action set's node.
    pub fn node_path(&self) -> (path: &str)
        ensures
            path@ == self@,
    {
        self.node_path.as_str()
    }
}

impl StardustAction {
    /// The handle of the action set that the action was created under.
    pub closed spec fn owner(&self) -> u64 {
        self.action_set
    }

    /// The address of the action's node.
    pub closed spec fn view(&self) -> Seq<char> {
        self.node_path@
    }

    /// Makes an action under a live action set of a live instance, and with it the signal
    /// that asks the set's node to create it: the signal carries the action's name and its
    /// localized name. The action's address is the set's address, a slash and the action's
    /// name.
    pub fn new(
        instances: &HandleRegistry<StardustInstance>,
        action_sets: &HandleRegistry<StardustActionSet>,
        action_set: u64,
        create_info: &ActionCreateInfo,
    ) -> (made: Result<(StardustAction, Signal), XrError>)
        ensures
            match action_refusal(instances@, action_sets@, action_set, create_info) {
                Some(refusal) => made matches Err(e) && e == refusal,
                None => made matches Ok((action, signal)) && action_made(
                    action,
                    signal,
                    action_set,
                    action_sets@[action_set]@,
                    create_info,
                ),
            },
    {
        let set = match action_sets.resolve(action_set) {
            Ok(set) => set,
            Err(e) => {
                return Err(e);
            },
        };
        if !instances.contains(set.instance) {
            return Err(XrError::HandleInvalid);
        }
        let name = match read_text(&create_info.action_name) {
            Ok(s) => s,
            Err(e) => {
                return Err(e);
            },
        };
        let localized_name = match read_text(&create_info.localized_action_name) {
            Ok(s) => s,
            Err(e) => {
                return Err(e);
            },
        };
        let payload = encode_text_pair(name, localized_name);
        match send_signal(set.node_path.as_str(), "create_action", payload) {
            Ok(signal) => Ok(
                (StardustAction { action_set, node_path: set.node_path.child(name) }, signal),
            ),
            Err(e) => Err(e),
        }
    }

    /// The handle of the action set that the action was created under.
    pub fn action_set_handle(&self) -> (handle: u64)
        ensures
            handle == self.owner(),
    {
        self.action_set
    }

    /// The action set that the action was created under, looked up among the live action
    /// sets. Where the set has been destroyed, the answer is `HandleInvalid`.
    pub fn action_set<'a>(&self, action_sets: &'a mut HandleRegistry<StardustActionSet>) -> (found:
        Result<&'a mut StardustActionSet, XrError>)
        ensures
            final(action_sets).issued() == old(action_sets).issued(),
            match found {
                Ok(object) => {
                    &&& old(action_sets)@.contains_key(self.owner())
                    &&& *object == old(action_sets)@[self.owner()]
                    &&& final(action_sets)@ == old(action_sets)@.insert(
                        self.owner(),
                        *final(object),
                    )
                },
                Err(e) => {
                    &&& e == XrError::HandleInvalid
                    &&& !old(action_sets)@.contains_key(self.owner())
                    &&& final(action_sets)@ == old(action_sets)@
                },
            },
    {
        action_sets.resolve_mut(self.action_set)
    }

    /// The address of the action's node.
    pub fn node_path(&self) -> (path: &str)
        ensures
            path@ == self@,
    {
        self.node_path.as_str()
    }
}

/// Prepares an action set under the instance `instance`: the set, and the signal that
/// announces it. The caller sends the signal and then registers the set in
/// `rt.action_sets`.
pub fn xrCreateActionSet(rt: &Runtime, instance: u64, create_info: &ActionSetCreateInfo) -> (made:
    Result<(StardustActionSet, Signal), XrError>)
    ensures
        match action_set_refusal(rt.instances@, instance, create_info) {
            Some(refusal) => made matches Err(e) && e == refusal,
            None => made matches Ok((set, signal)) && action_set_made(
                set,
                signal,
                instance,
                create_info,
            ),
        },
{
    StardustActionSet::new(&rt.instances, instance, create_info)
}

/// Destroys an action set: its handle names nothing from now on. Nothing is sent, and no
/// other object changes; the set's actions stay, and find their set gone when they look
/// for it. A handle that names no live action set is refused with `HandleInvalid`.
pub fn xrDestroyActionSet(rt: &mut Runtime, action_set: u64) -> (outcome: Result<(), XrError>)
    ensures
        final(rt).instances == old(rt).instances,
        final(rt).sessions == old(rt).sessions,
        final(rt).actions == old(rt).actions,
        final(rt).action_sets.issued() == old(rt).action_sets.issued(),
        match outcome {
            Ok(_) => {
                &&& old(rt).action_sets@.contains_key(action_set)
                &&& final(rt).action_sets@ == old(rt).action_sets@.remove(action_set)
            },
            Err(e) => {
                &&& e == XrError::HandleInvalid
                &&& !old(rt).action_sets@.contains_key(action_set)
                &&& final(rt).action_sets@ == old(rt).action_sets@
            },
        },
{
    match rt.action_sets.destroy(action_set) {
        Ok(_) => Ok(()),
        Err(e) => Err(e),
    }
}

/// Prepares an action under the action set `action_set`: the action, and the signal that
/// announces it. The caller sends the signal and then registers the action in
/// `rt.actions`.
pub fn xrCreateAction(rt: &Runtime, action_set: u64, create_info: &ActionCreateInfo) -> (made:
    Result<(StardustAction, Signal), XrError>)
    ensures
        match action_refusal(rt.instances@, rt.action_sets@, action_set, create_info) {
            Some(refusal) => made matches Err(e) && e == refusal,
            None => made matches Ok((action, signal)) && action_made(
                action,
                signal,
                action_set,
                rt.action_sets@[action_set]@,
                create_info,
            ),
        },
{
    StardustAction::new(&rt.instances, &rt.action_sets, action_set, create_info)
}

/// Destroys an action: its handle names nothing from now on. Nothing is sent, and no
/// other object changes. A handle that names no live action is refused with
/// `HandleInvalid`.
pub fn xrDestroyAction(rt: &mut Runtime, action: u64) -> (outcome: Result<(), XrError>)
    ensures
        final(rt).instances == old(rt).instances,
        final(rt).sessions == old(rt).sessions,
        final(rt).action_sets == old(rt).action_sets,
        final(rt).actions.issued() == old(rt).actions.issued(),
        match outcome {
            Ok(_) => {
                &&& old(rt).actions@.contains_key(action)
                &&& final(rt).actions@ == old(rt).actions@.remove(action)
            },
            Err(e) => {
                &&& e == XrError::HandleInvalid
                &&& !old(rt).actions@.contains_key(action)
                &&& final(rt).actions@ == old(rt).actions@
            },
        },
{
    match rt.actions.destroy(action) {
        Ok(_) => Ok(()),
        Err(e) => Err(e),
    }
}

/// Takes the bindings that an application suggests for an interaction profile. The
/// instance must be live (`HandleInvalid`); the bindings themselves are not looked at.
pub fn xrSuggestInteractionProfileBindings(rt: &Runtime, instance: u64) -> (outcome: Result<
    (),
    XrError,
>)
    ensures
        match outcome {
            Ok(_) => rt.instances@.contains_key(instance),
            Err(e) => e == XrError::HandleInvalid && !rt.instances@.contains_key(instance),
        },
{
    match rt.instances.resolve(instance) {
        Ok(_) => Ok(()),
        Err(e) => Err(e),
    }
}

} // verus!
