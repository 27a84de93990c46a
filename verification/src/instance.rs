use crate::address::root_path;
use crate::address::NodeAddress;
use crate::error::XrError;
use crate::paths::PathTable;
use crate::proc_addr::resolve_bound;
use crate::proc_addr::resolvable;
use crate::proc_addr::EntryPoint;
use crate::rpc::message;
use crate::rpc::MethodCall;
use crate::rpc::Signal;
use crate::rpc::METHOD_TIMEOUT_MILLIS;
use crate::runtime::Runtime;
use crate::text::same_text;
use crate::text::write_padded;
use crate::text::padded;
use crate::util::bytes_of;
use crate::util::read_text;
use crate::util::text_of;
use crate::version::pack_version;
use crate::version::version_number;
use vstd::prelude::*;
use vstd::string::StringSliceAdditionalSpecFns;

verus! {

/// The structure type of instance properties.
pub const TYPE_INSTANCE_PROPERTIES: i32 = 32;

/// What an application says of itself when it creates an instance.
pub struct ApplicationInfo {
    pub app_name: String,
    pub app_version: u32,
    pub engine_name: String,
    pub engine_version: u32,
    pub api_version: u64,
}

/// What the server is told when an instance is set up.
pub struct SetupInfo {
    pub app_info: ApplicationInfo,
    pub extension_names: Vec<String>,
}

/// The arguments of instance creation, as they come over the interface: each string as the
/// bytes in front of its terminator, or `None` for a null pointer.
pub struct InstanceCreateInfo {
    pub application_name: Option<Vec<u8>>,
    pub application_version: u32,
    pub engine_name: Option<Vec<u8>>,
    pub engine_version: u32,
    pub api_version: u64,
    pub enabled_extension_names: Vec<Option<Vec<u8>>>,
}

/// The properties of the runtime that an application can ask for. The name is a buffer of
/// C characters.
pub struct InstanceProperties {
    pub ty: i32,
    pub runtime_version: u64,
    pub runtime_name: Vec<i8>,
}

/// Whether the extension for headless operation is among the given names.
pub open spec fn names_headless(names: Seq<String>) -> bool {
    exists|i: int| 0 <= i < names.len() && (#[trigger] names[i])@ == "XR_MND_headless"@
}

/// Whether every string argument of an instance creation can be read.
pub open spec fn create_info_readable(info: &InstanceCreateInfo) -> bool {
    &&& text_of(bytes_of(info.application_name)) is Some
    &&& text_of(bytes_of(info.engine_name)) is Some
    &&& forall|i: int|
        0 <= i < info.enabled_extension_names@.len() ==> text_of(
            bytes_of(#[trigger] info.enabled_extension_names@[i]),
        ) is Some
}

/// Whether `setup` says what `info` says, with each string argument read as text.
pub open spec fn setup_matches(info: &InstanceCreateInfo, setup: &SetupInfo) -> bool {
    &&& text_of(bytes_of(info.application_name)) == Some(setup.app_info.app_name@)
    &&& text_of(bytes_of(info.engine_name)) == Some(setup.app_info.engine_name@)
    &&& setup.app_info.app_version == info.application_version
    &&& setup.app_info.engine_version == info.engine_version
    &&& setup.app_info.api_version == info.api_version
    &&& setup.extension_names@.len() == info.enabled_extension_names@.len()
    &&& forall|i: int|
        0 <= i < setup.extension_names@.len() ==> text_of(
            bytes_of(info.enabled_extension_names@[i]),
        ) == Some((#[trigger] setup.extension_names@[i])@)
}

/// Reads the arguments of an instance creation. Every string must be there and be UTF-8:
/// the application's name, the engine's name and each extension name. Where one is not,
/// the answer is `ValidationFailure`; otherwise it is what the server will be told.
pub fn xrCreateInstance(info: &InstanceCreateInfo) -> (setup: Result<SetupInfo, XrError>)
    ensures
        match setup {
            Ok(s) => setup_matches(info, &s),
            Err(e) => e == XrError::ValidationFailure && !create_info_readable(info),
        },
{
    let app_name = match read_text(&info.application_name) {
        Ok(s) => String::from_str(s),
        Err(e) => {
            return Err(e);
        },
    };
    let engine_name = match read_text(&info.engine_name) {
        Ok(s) => String::from_str(s),
        Err(e) => {
            return Err(e);
        },
    };
    let mut extension_names: Vec<String> = Vec::new();
    let n: usize = info.enabled_extension_names.len();
    let mut i: usize = 0;
    while i < n
        invariant
            i <= n,
            n == info.enabled_extension_names@.len(),
            extension_names@.len() == i,
            forall|j: int|
                0 <= j < i ==> text_of(bytes_of(info.enabled_extension_names@[j])) == Some(
                    (#[trigger] extension_names@[j])@,
                ),
        decreases n - i,
    {
        match read_text(&info.enabled_extension_names[i]) {
            Ok(s) => {
                extension_names.push(String::from_str(s));
            },
            Err(e) => {
                return Err(e);
            },
        }
        i += 1;
    }
    Ok(
        SetupInfo {
            app_info: ApplicationInfo {
                app_name,
                app_version: info.application_version,
                engine_name,
                engine_version: info.engine_version,
                api_version: info.api_version,
            },
            extension_names,
        },
    )
}

/// Whether the extension for headless operation is among the given names.
pub fn headless_enabled(names: &Vec<String>) -> (yes: bool)
    ensures
        yes == names_headless(names@),
{
    let n: usize = names.len();
    let mut i: usize = 0;
    while i < n
        invariant
            i <= n,
            n == names@.len(),
            forall|j: int| 0 <= j < i ==> (#[trigger] names@[j])@ != "XR_MND_headless"@,
        decreases n - i,
    {
        if same_text(names[i].as_str(), "XR_MND_headless") {
            return true;
        }
        i += 1;
    }
    false
}

/// The runtime's side of one instance. The connection to the server belongs to the caller;
/// what is kept here is what the runtime's rules read.
pub struct StardustInstance {
    pub extension_headless_enabled: bool,
    pub paths: PathTable,
}

impl StardustInstance {
    /// Makes an instance once the caller has tried to connect, together with the signal
    /// that sets the instance up at the server's root. `serialized` is the setup
    /// information as the serializer left it. Without a connection the answer is
    /// `RuntimeUnavailable`; with one, but without a payload, it is `RuntimeFailure`.
    pub fn new(info: &SetupInfo, connected: bool, serialized: Option<Vec<u8>>) -> (made: Result<
        (StardustInstance, Signal),
        XrError,
    >)
        ensures
            match made {
                Ok((instance, signal)) => connected && serialized is Some
                    && instance.extension_headless_enabled == names_headless(
                    info.extension_names@,
                ) && instance.paths@.dom() == Set::<u64>::empty() && signal@ == message(
                    root_path(),
                    "setup_instance"@,
                    serialized->0@,
                ),
                Err(e) => e == (if !connected {
                    XrError::RuntimeUnavailable
                } else {
                    XrError::RuntimeFailure
                }) && (!connected || serialized is None),
            },
    {
        if !connected {
            return Err(XrError::RuntimeUnavailable);
        }
        let instance = StardustInstance {
            extension_headless_enabled: headless_enabled(&info.extension_names),
            paths: PathTable::new(),
        };
        let root = NodeAddress::root();
        match instance.send_signal(root.as_str(), "setup_instance", serialized) {
            Ok(signal) => Ok((instance, signal)),
            Err(e) => Err(e),
        }
    }

    /// Finds the function that is exported under `name`, among all functions of the
    /// interface. A name that no function has is refused with `HandleInvalid`.
    pub fn get_proc_addr(&self, name: &str) -> (found: Result<EntryPoint, XrError>)
        ensures
            match found {
                Ok(e) => e.spec_name() == name@,
                Err(e) => e == XrError::HandleInvalid && !resolvable(true, name@),
            },
    {
        resolve_bound(name)
    }

    /// Addresses a signal of this instance. The payload comes as the serializer left it:
    /// where it failed (`None`), there is nothing to send, and the answer is
    /// `RuntimeFailure`. The caller sends the signal over the instance's connection, once,
    /// and maps a failed send to `RuntimeFailure` as well.
    pub fn send_signal(&self, node_path: &str, signal_name: &str, data: Option<Vec<u8>>) -> (signal:
        Result<Signal, XrError>)
        ensures
            match data {
                Some(bytes) => signal matches Ok(s) && s@ == message(
                    node_path@,
                    signal_name@,
                    bytes@,
                ),
                None => signal matches Err(XrError::RuntimeFailure),
            },
    {
        crate::rpc::send_signal(node_path, signal_name, data)
    }

    /// Addresses a method call of this instance, to be given up after the fixed deadline.
    /// The payload comes as the serializer left it: where it failed (`None`), there is
    /// nothing to send, and the answer is `RuntimeFailure`.
    pub fn execute_method(
        &self,
        node_path: &str,
        method_name: &str,
        send_data: Option<Vec<u8>>,
    ) -> (call: Result<MethodCall, XrError>)
        ensures
            match send_data {
                Some(bytes) => call matches Ok(c) && c@ == message(
                    node_path@,
                    method_name@,
                    bytes@,
                ) && c.timeout_millis == METHOD_TIMEOUT_MILLIS,
                None => call matches Err(XrError::RuntimeFailure),
            },
    {
        crate::rpc::execute_method(node_path, method_name, send_data)
    }
}

/// Destroys an instance: its handle names nothing from now on. No other instance
/// changes, and the sessions and action sets that were created under it stay: they find
/// their instance gone when they look for it. A handle that names no live instance is
/// refused with `HandleInvalid`.
pub fn xrDestroyInstance(rt: &mut Runtime, instance: u64) -> (outcome: Result<(), XrError>)
    ensures
        final(rt).sessions == old(rt).sessions,
        final(rt).action_sets == old(rt).action_sets,
        final(rt).actions == old(rt).actions,
        final(rt).instances.issued() == old(rt).instances.issued(),
        match outcome {
            Ok(_) => {
                &&& old(rt).instances@.contains_key(instance)
                &&& final(rt).instances@ == old(rt).instances@.remove(instance)
            },
            Err(e) => {
                &&& e == XrError::HandleInvalid
                &&& !old(rt).instances@.contains_key(instance)
                &&& final(rt).instances@ == old(rt).instances@
            },
        },
{
    match rt.instances.destroy(instance) {
        Ok(_) => Ok(()),
        Err(e) => Err(e),
    }
}

/// Fills in the properties of the runtime: its name, `Stardust XR`, at the start of the
/// name's buffer, cut off at the buffer's length and with zeros behind it up to the
/// buffer's end; and its version, packed from the three parts given. No instance is
/// looked up.
pub fn xrGetInstanceProperties(
    _instance: u64,
    instance_properties: &mut InstanceProperties,
    major: u16,
    minor: u16,
    patch: u32,
) -> (outcome: Result<(), XrError>)
    ensures
        outcome is Ok,
        final(instance_properties).ty == TYPE_INSTANCE_PROPERTIES,
        final(instance_properties).runtime_version == version_number(major, minor, patch),
        final(instance_properties).runtime_name@ == padded(
            "Stardust XR".spec_bytes(),
            old(instance_properties).runtime_name@.len(),
        ),
{
    instance_properties.ty = TYPE_INSTANCE_PROPERTIES;
    write_padded(instance_properties.runtime_name.as_mut_slice(), "Stardust XR".as_bytes());
    instance_properties.runtime_version = pack_version(major, minor, patch);
    Ok(())
}

} // verus!
