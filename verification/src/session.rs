use crate::address::child_path;
use crate::address::fresh_token;
use crate::address::is_token;
use crate::address::system_path;
use crate::address::NodeAddress;
use crate::error::XrError;
use crate::instance::StardustInstance;
use crate::registry::HandleRegistry;
use crate::rpc::encode_text;
use crate::rpc::flex_bytes;
use crate::rpc::Flex;
use crate::rpc::message;
use crate::rpc::send_signal;
use crate::rpc::Signal;
use crate::runtime::Runtime;
use crate::util::chain_has_graphics;
use crate::util::has_graphics_binding;
use vstd::prelude::*;

verus! {

/// A session: the instance it was created under, and its node's address.
pub struct StardustSession {
    instance: u64,
    node_path: NodeAddress,
}

/// What the signal for a new session carries: the last segment of the session's address,
/// serialized.
pub open spec fn token_payload(id: Seq<char>) -> Option<Seq<u8>> {
    flex_bytes(Flex::Text(id))
}

/// Why a session cannot be created, if it cannot: the instance is not live, or the caller
/// gave no graphics binding although the instance has not enabled headless operation.
pub open spec fn session_refusal(
    instances: Map<u64, StardustInstance>,
    instance: u64,
    chain: Seq<i32>,
) -> Option<XrError> {
    if !instances.contains_key(instance) {
        Some(XrError::HandleInvalid)
    } else if !chain_has_graphics(chain) && !instances[instance].extension_headless_enabled {
        Some(XrError::GraphicsRequirementsCallMissing)
    } else {
        None
    }
}

/// Whether a session and a signal are what creating a session with the token `id` makes:
/// the session lies under `instance` at the token's address below the system's node, and
/// the signal asks that node to create it and carries the token.
pub open spec fn session_made(
    session: StardustSession,
    signal: Signal,
    instance: u64,
    system: u64,
    id: Seq<char>,
) -> bool {
    &&& token_payload(id) is Some
    &&& session.owner() == instance
    &&& session@ == child_path(system_path(system), id)
    &&& signal@ == message(system_path(system), "create_session"@, token_payload(id)->0)
}

impl StardustSession {
    /// The handle of the instance that the session was created under.
    pub closed spec fn owner(&self) -> u64 {
        self.instance
    }

    /// The address of the session's node.
    pub closed spec fn view(&self) -> Seq<char> {
        self.node_path@
    }

    /// Makes a session under a live instance, with `id` as the last segment of its
    /// address, and with it the signal that asks the system's node to create it. `payload`
    /// is `id` as the serializer left it. An instance that is not live is refused with
    /// `HandleInvalid`; a payload that is missing, with `RuntimeFailure`.
    pub fn with_token(
        instances: &HandleRegistry<StardustInstance>,
        instance: u64,
        system: u64,
        id: &str,
        payload: Option<Vec<u8>>,
    ) -> (made: Result<(StardustSession, Signal), XrError>)
        ensures
            match made {
                Ok((session, signal)) => {
                    &&& instances@.contains_key(instance)
                    &&& payload is Some
                    &&& session.owner() == instance
                    &&& session@ == child_path(system_path(system), id@)
                    &&& signal@ == message(system_path(system), "create_session"@, payload->0@)
                },
                Err(e) => e == if instances@.contains_key(instance) {
                    XrError::RuntimeFailure
                } else {
                    XrError::HandleInvalid
                },
            },
            made is Ok <==> instances@.contains_key(instance) && payload is Some,
    {
        if !instances.contains(instance) {
            return Err(XrError::HandleInvalid);
        }
        let system_node = NodeAddress::system(system);
        match send_signal(system_node.as_str(), "create_session", payload) {
            Ok(signal) => Ok(
                (StardustSession { instance, node_path: system_node.child(id) }, signal),
            ),
            Err(e) => Err(e),
        }
    }

    /// Makes a session under a live instance, at a fresh address below the system's node,
    /// and with it the signal that asks that node to create it. The last segment of the
    /// address is a newly generated token, which is also what the signal carries. An
    /// instance that is not live is refused with `HandleInvalid`. Under a live instance
    /// the session is made unless the serializer refuses the token, and only then the
    /// answer is `RuntimeFailure`.
    pub fn new(instances: &HandleRegistry<StardustInstance>, instance: u64, system: u64) -> (made:
        Result<(StardustSession, Signal), XrError>)
        ensures
            match made {
                Ok((session, signal)) => {
                    &&& instances@.contains_key(instance)
                    &&& exists|id: Seq<char>|
                        is_token(id) && #[trigger] session_made(
                            session,
                            signal,
                            instance,
                            system,
                            id,
                        )
                },
                Err(e) => if instances@.contains_key(instance) {
                    &&& e == XrError::RuntimeFailure
                    &&& exists|id: Seq<char>| is_token(id) && #[trigger] token_payload(id) is None
                } else {
                    e == XrError::HandleInvalid
                },
            },
    {
        let id = fresh_token();
        let payload = encode_text(id.as_str());
        let made = StardustSession::with_token(instances, instance, system, id.as_str(), payload);
        assert(made matches Ok((session, signal)) ==> session_made(
            session,
            signal,
            instance,
            system,
            id@,
        ));
        assert(made is Err && instances@.contains_key(instance) ==> token_payload(id@) is None);
        made
    }

    /// The handle of the instance that the session was created under.
    pub fn instance_handle(&self) -> (handle: u64)
        ensures
            handle == self.owner(),
    {
        self.instance
    }

    /// The instance that the session was created under, looked up among the live
    /// instances. The session keeps the handle only: where the instance has been
    /// destroyed, the answer is `HandleInvalid`.
    pub fn instance<'a>(&self, instances: &'a mut HandleRegistry<StardustInstance>) -> (found:
        Result<&'a mut StardustInstance, XrError>)
        ensures
            final(instances).issued() == old(instances).issued(),
            match found {
                Ok(object) => {
                    &&& old(instances)@.contains_key(self.owner())
                    &&& *object == old(instances)@[self.owner()]
                    &&& final(instances)@ == old(instances)@.insert(self.owner(), *final(object))
                },
                Err(e) => {
                    &&& e == XrError::HandleInvalid
                    &&& !old(instances)@.contains_key(self.owner())
                    &&& final(instances)@ == old(instances)@
                },
            },
    {
        instances.resolve_mut(self.instance)
    }

    /// The address of the session's node.
    pub fn node_path(&self) -> (path: &str)
        ensures
            path@ == self@,
    {
        self.node_path.as_str()
    }
}

/// Prepares a session under the instance `oxr_instance` for the system `system_id`.
/// `chain` holds the structure types of what the caller chained to its request. The
/// instance must be live (`HandleInvalid`), and the chain must hold a graphics binding
/// unless the instance has enabled headless operation
/// (`GraphicsRequirementsCallMissing`); both are decided before anything is made for
/// sending. Where neither refuses, the session is made unless the serializer refuses its
/// token (`RuntimeFailure`). The answer is the session and the signal that announces it:
/// the caller sends the signal and then registers the session in `rt.sessions`.
pub fn xrCreateSession(rt: &Runtime, oxr_instance: u64, chain: &[i32], system_id: u64) -> (made:
    Result<(StardustSession, Signal), XrError>)
    ensures
        match session_refusal(rt.instances@, oxr_instance, chain@) {
            Some(refusal) => made matches Err(e) && e == refusal,
            None => match made {
                Ok((session, signal)) => exists|id: Seq<char>|
                    is_token(id) && #[trigger] session_made(
                        session,
                        signal,
                        oxr_instance,
                        system_id,
                        id,
                    ),
                Err(e) => {
                    &&& e == XrError::RuntimeFailure
                    &&& exists|id: Seq<char>| is_token(id) && #[trigger] token_payload(id) is None
                },
            },
        },
{
    let instance = match rt.instances.resolve(oxr_instance) {
        Ok(instance) => instance,
        Err(e) => {
            return Err(e);
        },
    };
    let contains_graphics = has_graphics_binding(chain);
    if !contains_graphics && !instance.extension_headless_enabled {
        return Err(XrError::GraphicsRequirementsCallMissing);
    }
    StardustSession::new(&rt.instances, oxr_instance, system_id)
}

/// Destroys a session: its handle names nothing from now on. Nothing is sent, and no other
/// object changes. A handle that names no live session is refused with `HandleInvalid`.
pub fn xrDestroySession(rt: &mut Runtime, session: u64) -> (outcome: Result<(), XrError>)
    ensures
        final(rt).instances == old(rt).instances,
        final(rt).action_sets == old(rt).action_sets,
        final(rt).actions == old(rt).actions,
        final(rt).sessions.issued() == old(rt).sessions.issued(),
        match outcome {
            Ok(_) => {
                &&& old(rt).sessions@.contains_key(session)
                &&& final(rt).sessions@ == old(rt).sessions@.remove(session)
            },
            Err(e) => {
                &&& e == XrError::HandleInvalid
                &&& !old(rt).sessions@.contains_key(session)
                &&& final(rt).sessions@ == old(rt).sessions@
            },
        },
{
    match rt.sessions.destroy(session) {
        Ok(_) => Ok(()),
        Err(e) => Err(e),
    }
}

} // verus!
