use crate::address::root_path;
use crate::address::system_path;
use crate::address::NodeAddress;
use crate::error::XrError;
use crate::rpc::encode_i32;
use crate::rpc::encode_u32;
use crate::rpc::execute_method;
use crate::rpc::number_in;
use crate::rpc::read_number;
use crate::rpc::flex_bytes;
use crate::rpc::Flex;
use crate::rpc::message;
use crate::rpc::method_outcome;
use crate::rpc::Answer;
use crate::rpc::MethodCall;
use crate::rpc::MethodEvent;
use crate::rpc::METHOD_TIMEOUT_MILLIS;
use crate::runtime::Runtime;
use crate::util::copy_str_to_buffer;
use crate::util::enumerate;
use crate::util::enumerate_buffer;
use crate::util::enumerate_outcome;
use crate::util::terminated_in;
use vstd::prelude::*;
use vstd::string::StringSliceAdditionalSpecFns;
use vstd::utf8::is_ascii_chars_encode_utf8;

verus! {

/// The structure type of system properties.
pub const TYPE_SYSTEM_PROPERTIES: i32 = 5;

/// The structure type of a view of a view configuration.
pub const TYPE_VIEW_CONFIGURATION_VIEW: i32 = 41;

/// The size of the buffer for a system's name.
pub const MAX_SYSTEM_NAME_SIZE: usize = 256;

/// The least number of composition layers that a runtime has to support, which is what
/// this one reports.
pub const MIN_COMPOSITION_LAYERS_SUPPORTED: u32 = 16;

/// The largest width and height of a swapchain image that the runtime reports.
pub const MAX_SWAPCHAIN_IMAGE_EXTENT: u32 = 16384;

/// What a system can render.
pub struct SystemGraphicsProperties {
    pub max_swapchain_image_height: u32,
    pub max_swapchain_image_width: u32,
    pub max_layer_count: u32,
}

/// What a system can track.
pub struct SystemTrackingProperties {
    pub orientation_tracking: bool,
    pub position_tracking: bool,
}

/// The properties of a system. The name is a buffer of `MAX_SYSTEM_NAME_SIZE` C characters.
pub struct SystemProperties {
    pub ty: i32,
    pub system_id: u64,
    pub vendor_id: u32,
    pub system_name: Vec<i8>,
    pub graphics_properties: SystemGraphicsProperties,
    pub tracking_properties: SystemTrackingProperties,
}

impl SystemProperties {
    /// The name's buffer has its size.
    pub open spec fn wf(&self) -> bool {
        self.system_name@.len() == MAX_SYSTEM_NAME_SIZE
    }

    /// Properties that say nothing yet: every number zero, and the name empty.
    pub fn new() -> (properties: SystemProperties)
        ensures
            properties.wf(),
    {
        let mut system_name: Vec<i8> = Vec::new();
        let mut i: usize = 0;
        while i < MAX_SYSTEM_NAME_SIZE
            invariant
                i <= MAX_SYSTEM_NAME_SIZE,
                system_name@.len() == i,
            decreases MAX_SYSTEM_NAME_SIZE - i,
        {
            system_name.push(0);
            i += 1;
        }
        SystemProperties {
            ty: 0,
            system_id: 0,
            vendor_id: 0,
            system_name,
            graphics_properties: SystemGraphicsProperties {
                max_swapchain_image_height: 0,
                max_swapchain_image_width: 0,
                max_layer_count: 0,
            },
            tracking_properties: SystemTrackingProperties {
                orientation_tracking: false,
                position_tracking: false,
            },
        }
    }
}

/// One view of a view configuration, as the server describes it.
#[derive(Clone, Copy, Debug, PartialEq, Eq, Structural)]
pub struct StardustView {
    pub recommended_image_rect_width: u32,
    pub max_image_rect_width: u32,
    pub recommended_image_rect_height: u32,
    pub max_image_rect_height: u32,
}

/// One view of a view configuration, as the interface describes it.
#[derive(Clone, Copy, Debug, PartialEq, Eq, Structural)]
pub struct ViewConfigurationView {
    pub ty: i32,
    pub recommended_image_rect_width: u32,
    pub max_image_rect_width: u32,
    pub recommended_image_rect_height: u32,
    pub max_image_rect_height: u32,
    pub recommended_swapchain_sample_count: u32,
    pub max_swapchain_sample_count: u32,
}

/// The interface's description of a view that the server describes: the same rectangle
/// sizes, and one sample for each pixel.
pub open spec fn view_of(view: StardustView) -> ViewConfigurationView {
    ViewConfigurationView {
        ty: TYPE_VIEW_CONFIGURATION_VIEW,
        recommended_image_rect_width: view.recommended_image_rect_width,
        max_image_rect_width: view.max_image_rect_width,
        recommended_image_rect_height: view.recommended_image_rect_height,
        max_image_rect_height: view.max_image_rect_height,
        recommended_swapchain_sample_count: 1,
        max_swapchain_sample_count: 1,
    }
}

/// The interface's descriptions of the views that the server describes, in order.
pub open spec fn views_of(views: Seq<StardustView>) -> Seq<ViewConfigurationView> {
    Seq::new(views.len(), |i: int| view_of(views[i]))
}

/// The number that a form factor is sent as: the same bits, unsigned.
pub open spec fn form_factor_number(form_factor: i32) -> u32 {
    if form_factor >= 0 {
        form_factor as u32
    } else {
        (form_factor + 0x1_0000_0000) as u32
    }
}

/// What the question for a system carries: the form factor's number, serialized.
pub open spec fn form_factor_payload(form_factor: i32) -> Option<Seq<u8>> {
    flex_bytes(Flex::Unsigned(form_factor_number(form_factor)))
}

/// What the question for views carries: the view configuration's type, serialized.
pub open spec fn view_type_payload(view_configuration_type: i32) -> Option<Seq<u8>> {
    flex_bytes(Flex::Signed(view_configuration_type))
}

fn form_factor_as_u32(form_factor: i32) -> (number: u32)
    ensures
        number == form_factor_number(form_factor),
{
    if form_factor >= 0 {
        form_factor as u32
    } else {
        ((form_factor as i64) + 0x1_0000_0000) as u32
    }
}

/// Prepares the question for a system of the given form factor: a method call to the
/// server's root, with the form factor as its payload. The instance must be live
/// (`HandleInvalid`); where the form factor cannot be serialized the answer is
/// `RuntimeFailure`. The caller makes the call and hands its end to `system_from_reply`.
pub fn xrGetSystem(rt: &Runtime, instance: u64, form_factor: i32) -> (call: Result<
    MethodCall,
    XrError,
>)
    ensures
        match call {
            Ok(c) => {
                &&& rt.instances@.contains_key(instance)
                &&& form_factor_payload(form_factor) is Some
                &&& c@ == message(
                    root_path(),
                    "get_system"@,
                    form_factor_payload(form_factor)->0,
                )
                &&& c.timeout_millis == METHOD_TIMEOUT_MILLIS
            },
            Err(e) => if !rt.instances@.contains_key(instance) {
                e == XrError::HandleInvalid
            } else {
                e == XrError::RuntimeFailure && form_factor_payload(form_factor)
                    is None
            },
        },
{
    let bound = match rt.instances.resolve(instance) {
        Ok(bound) => bound,
        Err(e) => {
            return Err(e);
        },
    };
    let payload = encode_u32(form_factor_as_u32(form_factor));
    let root = NodeAddress::root();
    bound.execute_method(root.as_str(), "get_system", payload)
}

/// The system that the server named, if it named one: a number that could not be read
/// means that the form factor is not supported.
pub fn system_id_of(decoded: Option<u32>) -> (system: Result<u64, XrError>)
    ensures
        match decoded {
            Some(number) => system matches Ok(id) && id == number,
            None => system matches Err(XrError::FormFactorUnsupported),
        },
{
    match decoded {
        Some(number) => Ok(number as u64),
        None => Err(XrError::FormFactorUnsupported),
    }
}

/// What the question for a system comes to, for each way in which the call can end.
pub open spec fn system_for(event: MethodEvent) -> Result<u64, XrError> {
    match event {
        MethodEvent::Reply(data) => match number_in(data@) {
            Some(number) => Ok(number as u64),
            None => Err(XrError::FormFactorUnsupported),
        },
        MethodEvent::Refused(_) => Err(XrError::FormFactorUnsupported),
        MethodEvent::TransportFailed => Err(XrError::RuntimeFailure),
        MethodEvent::TimedOut => Err(XrError::RuntimeFailure),
    }
}

/// Reads the end of the question for a system. A call that timed out or whose transport
/// failed is a `RuntimeFailure`. An error from the server, and a reply that holds no
/// number (its root is not a number stored in place, or the number does not fit), mean
/// that the form factor is not supported. Otherwise the reply's number is the system.
pub fn system_from_reply(event: MethodEvent) -> (system: Result<u64, XrError>)
    ensures
        system == system_for(event),
{
    match method_outcome(event) {
        Ok(Answer::Data(data)) => system_id_of(read_number(data.as_slice())),
        Ok(Answer::Error(_)) => Err(XrError::FormFactorUnsupported),
        Err(e) => Err(e),
    }
}

/// What the runtime says of every system.
pub open spec fn described(system_id: u64, before: SystemProperties) -> SystemProperties {
    SystemProperties {
        ty: TYPE_SYSTEM_PROPERTIES,
        system_id,
        vendor_id: before.vendor_id,
        system_name: before.system_name,
        graphics_properties: SystemGraphicsProperties {
            max_swapchain_image_height: MAX_SWAPCHAIN_IMAGE_EXTENT,
            max_swapchain_image_width: MAX_SWAPCHAIN_IMAGE_EXTENT,
            max_layer_count: MIN_COMPOSITION_LAYERS_SUPPORTED,
        },
        tracking_properties: SystemTrackingProperties {
            orientation_tracking: true,
            position_tracking: true,
        },
    }
}

/// Fills in the properties of a system: the same for every system, with the name
/// `Stardust Virtual Device` at the start of the name's buffer and a zero behind it. The
/// vendor's number and the rest of the name's buffer stay as they were.
pub fn xrGetSystemProperties(
    _instance: u64,
    system_id: u64,
    properties: &mut SystemProperties,
) -> (outcome: Result<(), XrError>)
    requires
        old(properties).wf(),
    ensures
        outcome is Ok,
        final(properties).wf(),
        final(properties).ty == TYPE_SYSTEM_PROPERTIES,
        final(properties).system_id == system_id,
        final(properties).vendor_id == old(properties).vendor_id,
        final(properties).system_name@ == terminated_in(
            "Stardust Virtual Device".spec_bytes(),
            old(properties).system_name@,
        ),
        final(properties).graphics_properties == described(
            system_id,
            *old(properties),
        ).graphics_properties,
        final(properties).tracking_properties == described(
            system_id,
            *old(properties),
        ).tracking_properties,
{
    proof {
        reveal_strlit("Stardust Virtual Device");
        is_ascii_chars_encode_utf8("Stardust Virtual Device"@);
    }
    properties.ty = TYPE_SYSTEM_PROPERTIES;
    properties.system_id = system_id;
    copy_str_to_buffer("Stardust Virtual Device", properties.system_name.as_mut_slice());
    properties.tracking_properties.orientation_tracking = true;
    properties.tracking_properties.position_tracking = true;
    properties.graphics_properties.max_layer_count = MIN_COMPOSITION_LAYERS_SUPPORTED;
    properties.graphics_properties.max_swapchain_image_width = MAX_SWAPCHAIN_IMAGE_EXTENT;
    properties.graphics_properties.max_swapchain_image_height = MAX_SWAPCHAIN_IMAGE_EXTENT;
    Ok(())
}

/// Prepares the question for the views of a view configuration: a method call to the
/// system's node, with the configuration's type as its payload. The instance must be live
/// (`HandleInvalid`); where the type cannot be serialized the answer is `RuntimeFailure`.
/// The caller makes the call, reads the views from the reply and hands them to
/// `enumerate_views`.
pub fn xrEnumerateViewConfigurationViews(
    rt: &Runtime,
    instance: u64,
    system_id: u64,
    view_configuration_type: i32,
) -> (call: Result<MethodCall, XrError>)
    ensures
        match call {
            Ok(c) => {
                &&& rt.instances@.contains_key(instance)
                &&& view_type_payload(view_configuration_type) is Some
                &&& c@ == message(
                    system_path(system_id),
                    "views"@,
                    view_type_payload(view_configuration_type)->0,
                )
                &&& c.timeout_millis == METHOD_TIMEOUT_MILLIS
            },
            Err(e) => if !rt.instances@.contains_key(instance) {
                e == XrError::HandleInvalid
            } else {
                e == XrError::RuntimeFailure && view_type_payload(view_configuration_type) is None
            },
        },
{
    let bound = match rt.instances.resolve(instance) {
        Ok(bound) => bound,
        Err(e) => {
            return Err(e);
        },
    };
    let payload = encode_i32(view_configuration_type);
    let node = NodeAddress::system(system_id);
    bound.execute_method(node.as_str(), "views", payload)
}

/// Describes the server's views as the interface does, in order.
pub fn convert_views(views: &Vec<StardustView>) -> (converted: Vec<ViewConfigurationView>)
    ensures
        converted@ == views_of(views@),
{
    let mut converted: Vec<ViewConfigurationView> = Vec::new();
    let n: usize = views.len();
    let mut i: usize = 0;
    while i < n
        invariant
            i <= n,
            n == views@.len(),
            converted@.len() == i,
            forall|j: int| 0 <= j < i ==> converted@[j] == view_of(views@[j]),
        decreases n - i,
    {
        let v = views[i];
        converted.push(
            ViewConfigurationView {
                ty: TYPE_VIEW_CONFIGURATION_VIEW,
                recommended_image_rect_width: v.recommended_image_rect_width,
                max_image_rect_width: v.max_image_rect_width,
                recommended_image_rect_height: v.recommended_image_rect_height,
                max_image_rect_height: v.max_image_rect_height,
                recommended_swapchain_sample_count: 1,
                max_swapchain_sample_count: 1,
            },
        );
        i += 1;
    }
    converted
}

/// The views that the server answered with, as the interface describes them. `views` is
/// `None` where the server answered with an error or its reply could not be read: the
/// answer is then `HandleInvalid`.
pub fn answered_views(views: Option<Vec<StardustView>>) -> (converted: Result<
    Vec<ViewConfigurationView>,
    XrError,
>)
    ensures
        match views {
            Some(v) => converted matches Ok(c) && c@ == views_of(v@),
            None => converted matches Err(XrError::HandleInvalid),
        },
{
    match views {
        Some(v) => Ok(convert_views(&v)),
        None => Err(XrError::HandleInvalid),
    }
}

/// Answers an enumeration of views from what the server replied. `views` is `None` where
/// the server answered with an error or its reply could not be read: the answer is then
/// `HandleInvalid`, and neither the count nor the buffer is touched. Otherwise the views
/// are enumerated as the interface describes them.
pub fn enumerate_views(
    views: Option<Vec<StardustView>>,
    view_capacity_input: u32,
    view_count_output: &mut Option<u32>,
    views_ptr: Option<&mut [ViewConfigurationView]>,
) -> (outcome: Result<(), XrError>)
    requires
        views matches Some(v) ==> v@.len() <= u32::MAX,
        views_ptr matches Some(buffer) ==> buffer@.len() >= view_capacity_input,
    ensures
        match views {
            Some(v) => *final(view_count_output) == Some(v@.len() as u32) && outcome
                == enumerate_outcome(view_capacity_input, views_ptr is Some, v@.len()) && (
            views_ptr matches Some(buffer) ==> final(buffer)@ == enumerate_buffer(
                view_capacity_input,
                views_of(v@),
                buffer@,
            )),
            None => outcome matches Err(XrError::HandleInvalid) && *final(view_count_output)
                == *old(view_count_output) && (views_ptr matches Some(buffer) ==> final(
                buffer)@ == buffer@),
        },
{
    match answered_views(views) {
        Ok(converted) => enumerate(
            view_capacity_input,
            view_count_output,
            views_ptr,
            converted.as_slice(),
        ),
        Err(e) => Err(e),
    }
}

} // verus!
