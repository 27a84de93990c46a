use crate::error::XrError;
use crate::proc_addr::resolvable;
use crate::proc_addr::resolve_unbound;
use crate::proc_addr::EntryPoint;
use crate::runtime::Runtime;
use crate::util::enumerate;
use crate::util::given;
use crate::util::str_from_const_char;
use crate::util::text_of;
use crate::version::current_api_version;
use crate::version::version_number;
use vstd::prelude::*;

verus! {

/// The tag of the structure in which a loader describes itself.
pub const LOADER_INFO: i32 = 1;

/// The tag of the structure in which a runtime answers a loader.
pub const RUNTIME_REQUEST: i32 = 3;

/// The version of both structures.
pub const STRUCT_VERSION: u32 = 1;

/// The version of the loader interface that the runtime speaks.
pub const RUNTIME_INTERFACE_VERSION: u32 = 1;

/// What a loader says of itself and of the versions it accepts.
pub struct NegotiateLoaderInfo {
    pub ty: i32,
    pub struct_version: u32,
    pub struct_size: usize,
    pub min_interface_version: u32,
    pub max_interface_version: u32,
    pub min_api_version: u64,
    pub max_api_version: u64,
}

/// What the runtime answers: the versions it speaks, and whether it has handed out its
/// function for looking up entry points.
pub struct NegotiateRuntimeRequest {
    pub ty: i32,
    pub struct_version: u32,
    pub struct_size: usize,
    pub runtime_interface_version: u32,
    pub runtime_api_version: u64,
    pub get_instance_proc_addr: bool,
}

/// The sizes in bytes that the two structures have on this machine.
pub struct StructSizes {
    pub loader_info: usize,
    pub runtime_request: usize,
}

/// Whether a loader and the runtime agree: both structures carry their tag, their version
/// and their size, and the version that the runtime implements lies in the range that the
/// loader accepts.
pub open spec fn negotiable(
    loader_info: &NegotiateLoaderInfo,
    runtime_request: &NegotiateRuntimeRequest,
    sizes: StructSizes,
    api_version: u64,
) -> bool {
    &&& loader_info.ty == LOADER_INFO
    &&& loader_info.struct_version == STRUCT_VERSION
    &&& loader_info.struct_size == sizes.loader_info
    &&& runtime_request.ty == RUNTIME_REQUEST
    &&& runtime_request.struct_version == STRUCT_VERSION
    &&& runtime_request.struct_size == sizes.runtime_request
    &&& loader_info.min_api_version <= api_version <= loader_info.max_api_version
}

/// The runtime's answer in a request that it accepts.
pub open spec fn answered(
    request: NegotiateRuntimeRequest,
    api_version: u64,
) -> NegotiateRuntimeRequest {
    NegotiateRuntimeRequest {
        runtime_interface_version: RUNTIME_INTERFACE_VERSION,
        runtime_api_version: api_version,
        get_instance_proc_addr: true,
        ..request
    }
}

/// The size of the loader's structure, from `core::mem::size_of` on
/// `openxr_sys::NegotiateLoaderInfo`. It depends on the machine.
#[verifier::external_body]
fn loader_info_size() -> (size: usize) {
    core::mem::size_of::<openxr_sys::NegotiateLoaderInfo>()
}

/// The size of the runtime's structure, from `core::mem::size_of` on
/// `openxr_sys::NegotiateRuntimeRequest`. It depends on the machine.
#[verifier::external_body]
fn runtime_request_size() -> (size: usize) {
    core::mem::size_of::<openxr_sys::NegotiateRuntimeRequest>()
}

/// Negotiates with a loader, for given structure sizes and a given version of the
/// interface. Where the two agree, the runtime's versions are written into the request and
/// the lookup function is handed out. Where they do not, the answer is
/// `InitializationFailed` and the request stays as it was.
pub fn negotiate(
    loader_info: &NegotiateLoaderInfo,
    runtime_request: &mut NegotiateRuntimeRequest,
    sizes: StructSizes,
    api_version: u64,
) -> (outcome: Result<(), XrError>)
    ensures
        outcome is Ok <==> negotiable(loader_info, old(runtime_request), sizes, api_version),
        match outcome {
            Ok(_) => *final(runtime_request) == answered(*old(runtime_request), api_version),
            Err(e) => {
                &&& e == XrError::InitializationFailed
                &&& *final(runtime_request) == *old(runtime_request)
            },
        },
{
    if loader_info.ty != LOADER_INFO || loader_info.struct_version != STRUCT_VERSION
        || loader_info.struct_size != sizes.loader_info {
        return Err(XrError::InitializationFailed);
    }
    if runtime_request.ty != RUNTIME_REQUEST || runtime_request.struct_version != STRUCT_VERSION
        || runtime_request.struct_size != sizes.runtime_request {
        return Err(XrError::InitializationFailed);
    }
    if api_version > loader_info.max_api_version || api_version < loader_info.min_api_version {
        return Err(XrError::InitializationFailed);
    }
    runtime_request.runtime_interface_version = RUNTIME_INTERFACE_VERSION;
    runtime_request.runtime_api_version = api_version;
    runtime_request.get_instance_proc_addr = true;
    Ok(())
}

/// Negotiates with a loader, with the structure sizes of this machine and the version of
/// the interface that the runtime implements. A structure with a wrong tag or version, and
/// a range of versions that leaves the runtime's out, fail with `InitializationFailed`
/// on every machine.
pub fn xrNegotiateLoaderRuntimeInterface(
    loader_info: &NegotiateLoaderInfo,
    runtime_request: &mut NegotiateRuntimeRequest,
) -> (outcome: Result<(), XrError>)
    ensures
        match outcome {
            Ok(_) => *final(runtime_request) == answered(
                *old(runtime_request),
                version_number(1, 1, 58),
            ) && exists|sizes: StructSizes| #[trigger]
                negotiable(loader_info, old(runtime_request), sizes, version_number(1, 1, 58)),
            Err(e) => {
                &&& e == XrError::InitializationFailed
                &&& *final(runtime_request) == *old(runtime_request)
            },
        },
        (forall|sizes: StructSizes| !#[trigger] negotiable(
            loader_info,
            old(runtime_request),
            sizes,
            version_number(1, 1, 58),
        )) ==> outcome is Err,
{
    let sizes = StructSizes {
        loader_info: loader_info_size(),
        runtime_request: runtime_request_size(),
    };
    negotiate(loader_info, runtime_request, sizes, current_api_version())
}

/// Finds the function that is exported under `name`. Without an instance only the
/// functions that need none can be found. With one, the instance must be live, and every
/// function of the interface can be found. A name that is not found, and an instance that
/// is not live, are refused with `HandleInvalid`.
pub fn get_instance_proc_addr(rt: &Runtime, instance: Option<u64>, name: &str) -> (found: Result<
    EntryPoint,
    XrError,
>)
    ensures
        match found {
            Ok(e) => e.spec_name() == name@ && match instance {
                Some(handle) => rt.instances@.contains_key(handle),
                None => e.spec_unbound(),
            },
            Err(e) => e == XrError::HandleInvalid && match instance {
                Some(handle) => !rt.instances@.contains_key(handle) || !resolvable(true, name@),
                None => !resolvable(false, name@),
            },
        },
{
    match instance {
        None => resolve_unbound(name),
        Some(handle) => match rt.instances.resolve(handle) {
            Ok(bound) => bound.get_proc_addr(name),
            Err(e) => Err(e),
        },
    }
}

/// Finds the function that is exported under `name`, as a loader asks for it. The name
/// comes as the bytes in front of its terminator, or `None` for a null pointer, and is read
/// first: a name that is missing or not UTF-8 is refused with `ValidationFailure`,
/// whatever the instance. The handle zero stands for no instance.
pub fn xrGetInstanceProcAddr(rt: &Runtime, instance: u64, name: Option<&[u8]>) -> (found: Result<
    EntryPoint,
    XrError,
>)
    ensures
        match text_of(given(name)) {
            None => found matches Err(XrError::ValidationFailure),
            Some(text) => match found {
                Ok(e) => e.spec_name() == text && (if instance == 0 {
                    e.spec_unbound()
                } else {
                    rt.instances@.contains_key(instance)
                }),
                Err(e) => e == XrError::HandleInvalid && (if instance == 0 {
                    !resolvable(false, text)
                } else {
                    !rt.instances@.contains_key(instance) || !resolvable(true, text)
                }),
            },
        },
{
    let text = match str_from_const_char(name) {
        Ok(text) => text,
        Err(e) => {
            return Err(e);
        },
    };
    let scope: Option<u64> = if instance == 0 {
        None
    } else {
        Some(instance)
    };
    get_instance_proc_addr(rt, scope, text)
}

/// Enumerates the API layers of the runtime, of which there are none: the count is
/// reported as zero, the call succeeds, and the buffer stays as it was.
pub fn xrEnumerateApiLayerProperties<I: Copy>(
    property_capacity_input: u32,
    property_count_output: &mut Option<u32>,
    properties: Option<&mut [I]>,
) -> (outcome: Result<(), XrError>)
    requires
        properties matches Some(buffer) ==> buffer@.len() >= property_capacity_input,
    ensures
        outcome is Ok,
        *final(property_count_output) == Some(0u32),
        properties matches Some(buffer) ==> final(buffer)@ == buffer@,
{
    let api_layers: Vec<I> = Vec::new();
    enumerate(
        property_capacity_input,
        property_count_output,
        properties,
        api_layers.as_slice(),
    )
}

} // verus!
