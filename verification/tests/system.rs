use stardust_openxr::error::XrError;
use stardust_openxr::instance::ApplicationInfo;
use stardust_openxr::instance::SetupInfo;
use stardust_openxr::instance::StardustInstance;
use stardust_openxr::rpc::is_number;
use stardust_openxr::rpc::read_number;
use stardust_openxr::rpc::register;
use stardust_openxr::rpc::MethodEvent;
use stardust_openxr::runtime::Runtime;
use stardust_openxr::system::answered_views;
use stardust_openxr::system::convert_views;
use stardust_openxr::system::enumerate_views;
use stardust_openxr::system::system_from_reply;
use stardust_openxr::system::system_id_of;
use stardust_openxr::system::xrEnumerateViewConfigurationViews;
use stardust_openxr::system::xrGetSystem;
use stardust_openxr::system::xrGetSystemProperties;
use stardust_openxr::system::StardustView;
use stardust_openxr::system::SystemProperties;
use stardust_openxr::system::ViewConfigurationView;
use stardust_openxr::system::MAX_SYSTEM_NAME_SIZE;
use stardust_openxr::system::MIN_COMPOSITION_LAYERS_SUPPORTED;
use stardust_openxr::system::TYPE_SYSTEM_PROPERTIES;
use stardust_openxr::system::TYPE_VIEW_CONFIGURATION_VIEW;

fn runtime_with_instance() -> (Runtime, u64) {
    let info = SetupInfo {
        app_info: ApplicationInfo {
            app_name: String::from("Foo"),
            app_version: 1,
            engine_name: String::from("Bar"),
            engine_version: 2,
            api_version: 3,
        },
        extension_names: Vec::new(),
    };
    let (instance, _signal) = StardustInstance::new(&info, true, Some(vec![0])).ok().unwrap();
    let mut rt = Runtime::new();
    let handle = register(&mut rt.instances, instance, true).unwrap();
    (rt, handle)
}

fn view(n: u32) -> StardustView {
    StardustView {
        recommended_image_rect_width: n,
        max_image_rect_width: n + 1,
        recommended_image_rect_height: n + 2,
        max_image_rect_height: n + 3,
    }
}

fn blank() -> ViewConfigurationView {
    ViewConfigurationView {
        ty: 0,
        recommended_image_rect_width: 0,
        max_image_rect_width: 0,
        recommended_image_rect_height: 0,
        max_image_rect_height: 0,
        recommended_swapchain_sample_count: 0,
        max_swapchain_sample_count: 0,
    }
}

#[test]
fn get_system_asks_the_root() {
    let (rt, instance) = runtime_with_instance();
    let call = xrGetSystem(&rt, instance, 1).ok().unwrap();
    assert_eq!(call.node_path, "/openxr");
    assert_eq!(call.name, "get_system");
    assert_eq!(call.timeout_millis, 1000);
    assert_eq!(call.payload, stardust_xr::schemas::flex::serialize(1u32).unwrap());
    let decoded: u32 = stardust_xr::schemas::flex::deserialize(&call.payload).unwrap();
    assert_eq!(decoded, 1);
}

#[test]
fn get_system_sends_the_bits_of_a_negative_form_factor() {
    let (rt, instance) = runtime_with_instance();
    let call = xrGetSystem(&rt, instance, -1).ok().unwrap();
    assert_eq!(call.payload, stardust_xr::schemas::flex::serialize(u32::MAX).unwrap());
    let call = xrGetSystem(&rt, instance, i32::MIN).ok().unwrap();
    assert_eq!(call.payload, stardust_xr::schemas::flex::serialize(0x8000_0000u32).unwrap());
}

#[test]
fn get_system_needs_a_live_instance() {
    let (rt, instance) = runtime_with_instance();
    assert_eq!(xrGetSystem(&rt, 0, 1).err(), Some(XrError::HandleInvalid));
    assert_eq!(xrGetSystem(&rt, instance + 1, 1).err(), Some(XrError::HandleInvalid));
}

#[test]
fn system_reply_is_decoded() {
    let payload = stardust_xr::schemas::flex::serialize(7u32).unwrap();
    assert_eq!(system_from_reply(MethodEvent::Reply(payload)), Ok(7));
    let payload = stardust_xr::schemas::flex::serialize(u32::MAX).unwrap();
    assert_eq!(system_from_reply(MethodEvent::Reply(payload)), Ok(u32::MAX as u64));
}

#[test]
fn unreadable_system_reply_means_unsupported_form_factor() {
    let payload = stardust_xr::schemas::flex::serialize("seven").unwrap();
    assert_eq!(
        system_from_reply(MethodEvent::Reply(payload)),
        Err(XrError::FormFactorUnsupported)
    );
    assert_eq!(
        system_from_reply(MethodEvent::Reply(Vec::new())),
        Err(XrError::FormFactorUnsupported)
    );
    assert_eq!(
        system_from_reply(MethodEvent::Refused(String::from("no"))),
        Err(XrError::FormFactorUnsupported)
    );
    assert_eq!(system_id_of(None), Err(XrError::FormFactorUnsupported));
    assert_eq!(system_id_of(Some(3)), Ok(3));
}

#[test]
fn system_call_without_answer_is_a_runtime_failure() {
    assert_eq!(system_from_reply(MethodEvent::TimedOut), Err(XrError::RuntimeFailure));
    assert_eq!(system_from_reply(MethodEvent::TransportFailed), Err(XrError::RuntimeFailure));
}

#[test]
fn instance_stays_usable_after_a_timeout() {
    let (rt, instance) = runtime_with_instance();
    let first = xrGetSystem(&rt, instance, 1).ok().unwrap();
    assert_eq!(system_from_reply(MethodEvent::TimedOut), Err(XrError::RuntimeFailure));
    let second = xrGetSystem(&rt, instance, 1).ok().unwrap();
    assert_eq!(first.payload, second.payload);
    assert_eq!(first.node_path, second.node_path);
    let payload = stardust_xr::schemas::flex::serialize(2u32).unwrap();
    assert_eq!(system_from_reply(MethodEvent::Reply(payload)), Ok(2));
}

#[test]
fn system_properties_are_fixed() {
    let mut properties = SystemProperties::new();
    assert_eq!(properties.system_name.len(), MAX_SYSTEM_NAME_SIZE);
    assert_eq!(properties.system_name.len(), openxr_sys::MAX_SYSTEM_NAME_SIZE);
    properties.vendor_id = 77;
    properties.system_name[30] = 5;
    assert_eq!(xrGetSystemProperties(9, 3, &mut properties), Ok(()));
    assert_eq!(properties.ty, TYPE_SYSTEM_PROPERTIES);
    assert_eq!(properties.ty, openxr_sys::StructureType::SYSTEM_PROPERTIES.into_raw());
    assert_eq!(properties.system_id, 3);
    assert_eq!(properties.vendor_id, 77);
    let name = b"Stardust Virtual Device";
    assert_eq!(name.len(), 23);
    for (i, b) in name.iter().enumerate() {
        assert_eq!(properties.system_name[i], *b as i8);
    }
    assert_eq!(properties.system_name[23], 0);
    assert_eq!(properties.system_name[30], 5);
    assert!(properties.tracking_properties.orientation_tracking);
    assert!(properties.tracking_properties.position_tracking);
    assert_eq!(properties.graphics_properties.max_layer_count, 16);
    assert_eq!(
        MIN_COMPOSITION_LAYERS_SUPPORTED as usize,
        openxr_sys::MIN_COMPOSITION_LAYERS_SUPPORTED
    );
    assert_eq!(properties.graphics_properties.max_swapchain_image_width, 1024 * 16);
    assert_eq!(properties.graphics_properties.max_swapchain_image_height, 1024 * 16);
}

#[test]
fn views_are_asked_of_the_system() {
    let (rt, instance) = runtime_with_instance();
    let call = xrEnumerateViewConfigurationViews(&rt, instance, 4, 2).ok().unwrap();
    assert_eq!(call.node_path, "/openxr/system4");
    assert_eq!(call.name, "views");
    assert_eq!(call.timeout_millis, 1000);
    assert_eq!(call.payload, stardust_xr::schemas::flex::serialize(2i32).unwrap());
    let call = xrEnumerateViewConfigurationViews(&rt, instance, 4, -2).ok().unwrap();
    assert_eq!(call.payload, stardust_xr::schemas::flex::serialize(-2i32).unwrap());
    let decoded: i32 = stardust_xr::schemas::flex::deserialize(&call.payload).unwrap();
    assert_eq!(decoded, -2);
    assert_eq!(
        xrEnumerateViewConfigurationViews(&rt, instance + 1, 4, 2).err(),
        Some(XrError::HandleInvalid)
    );
}

#[test]
fn views_are_converted_in_order() {
    let converted = convert_views(&vec![view(100), view(200)]);
    assert_eq!(converted.len(), 2);
    assert_eq!(
        converted[0],
        ViewConfigurationView {
            ty: 41,
            recommended_image_rect_width: 100,
            max_image_rect_width: 101,
            recommended_image_rect_height: 102,
            max_image_rect_height: 103,
            recommended_swapchain_sample_count: 1,
            max_swapchain_sample_count: 1,
        }
    );
    assert_eq!(converted[1].recommended_image_rect_width, 200);
    assert_eq!(converted[1].ty, TYPE_VIEW_CONFIGURATION_VIEW);
    assert_eq!(
        TYPE_VIEW_CONFIGURATION_VIEW,
        openxr_sys::StructureType::VIEW_CONFIGURATION_VIEW.into_raw()
    );
    assert!(convert_views(&Vec::new()).is_empty());
}

#[test]
fn views_are_enumerated_by_the_protocol() {
    let mut count = None;
    assert_eq!(enumerate_views(Some(vec![view(1), view(2)]), 0, &mut count, None), Ok(()));
    assert_eq!(count, Some(2));
    let mut buffer = [blank(); 1];
    assert_eq!(
        enumerate_views(Some(vec![view(1), view(2)]), 1, &mut count, Some(&mut buffer[..])),
        Err(XrError::SizeInsufficient)
    );
    assert_eq!(buffer, [blank()]);
    let mut buffer = [blank(); 3];
    assert_eq!(
        enumerate_views(Some(vec![view(1), view(2)]), 3, &mut count, Some(&mut buffer[..])),
        Ok(())
    );
    assert_eq!(count, Some(2));
    assert_eq!(&buffer[..2], &convert_views(&vec![view(1), view(2)])[..]);
    assert_eq!(buffer[2], blank());
}

#[test]
fn missing_views_are_an_invalid_handle() {
    let mut count = Some(5);
    let mut buffer = [blank(); 2];
    assert_eq!(
        enumerate_views(None, 2, &mut count, Some(&mut buffer[..])),
        Err(XrError::HandleInvalid)
    );
    assert_eq!(count, Some(5));
    assert_eq!(buffer, [blank(); 2]);
}

#[test]
fn reply_with_a_made_up_length_is_refused_without_reading_it() {
    let payload = vec![0xff, 0xff, 0xff, 0xff, 0xff, 0xff, 0xff, 0xff, 0x00, 0x01, 0x17, 0x01];
    assert!(!is_number(&payload));
    assert_eq!(read_number(&payload), None);
    assert_eq!(
        system_from_reply(MethodEvent::Reply(payload)),
        Err(XrError::FormFactorUnsupported)
    );
}

#[test]
fn only_numbers_stored_in_place_are_read() {
    for value in [0u32, 1, 255, 256, 65535, 65536, u32::MAX] {
        let payload = stardust_xr::schemas::flex::serialize(value).unwrap();
        assert!(is_number(&payload));
        assert_eq!(read_number(&payload), Some(value));
    }
    let signed = stardust_xr::schemas::flex::serialize(5i32).unwrap();
    assert!(is_number(&signed));
    assert_eq!(read_number(&signed), Some(5));
    let negative = stardust_xr::schemas::flex::serialize(-5i32).unwrap();
    assert!(is_number(&negative));
    assert_eq!(read_number(&negative), None);
    let too_large = stardust_xr::schemas::flex::serialize(u64::MAX).unwrap();
    assert!(is_number(&too_large));
    assert_eq!(read_number(&too_large), None);
    for payload in [
        stardust_xr::schemas::flex::serialize("7").unwrap(),
        stardust_xr::schemas::flex::serialize((1u32, 2u32)).unwrap(),
        stardust_xr::schemas::flex::serialize(true).unwrap(),
        stardust_xr::schemas::flex::serialize(()).unwrap(),
        Vec::new(),
        vec![7],
        vec![7, 8],
    ] {
        assert!(!is_number(&payload));
        assert_eq!(read_number(&payload), None);
    }
    assert!(is_number(&[9, 4, 1]));
    assert!(is_number(&[9, 11, 1]));
    assert!(!is_number(&[9, 3, 1]));
    assert!(!is_number(&[9, 12, 1]));
}

#[test]
fn answered_views_are_converted_or_refused() {
    assert_eq!(answered_views(None), Err(XrError::HandleInvalid));
    assert_eq!(answered_views(Some(Vec::new())), Ok(Vec::new()));
    assert_eq!(answered_views(Some(vec![view(3)])), Ok(convert_views(&vec![view(3)])));
}
