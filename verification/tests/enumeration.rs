use stardust_openxr::error::XrError;
use stardust_openxr::extensions::xrEnumerateInstanceExtensionProperties;
use stardust_openxr::loader::xrEnumerateApiLayerProperties;
use stardust_openxr::util::enumerate;

#[test]
fn query_with_zero_capacity_reports_count() {
    let items = [10u32, 20, 30];
    let mut count = None;
    let mut buffer = [7u32; 4];
    let outcome = enumerate(0, &mut count, Some(&mut buffer[..]), &items);
    assert_eq!(outcome, Ok(()));
    assert_eq!(count, Some(3));
    assert_eq!(buffer, [7, 7, 7, 7]);
}

#[test]
fn query_without_buffer_reports_count() {
    let items = [10u32, 20, 30];
    let mut count = Some(99);
    let outcome = enumerate::<u32>(5, &mut count, None, &items);
    assert_eq!(outcome, Ok(()));
    assert_eq!(count, Some(3));
}

#[test]
fn short_buffer_is_refused_and_untouched() {
    let items = [10u32, 20, 30];
    for capacity in 1..3u32 {
        let mut count = None;
        let mut buffer = [7u32; 2];
        let outcome =
            enumerate(capacity, &mut count, Some(&mut buffer[..capacity as usize]), &items);
        assert_eq!(outcome, Err(XrError::SizeInsufficient));
        assert_eq!(count, Some(3));
        assert_eq!(buffer, [7, 7]);
    }
}

#[test]
fn exact_capacity_copies_all_items() {
    let items = [10u32, 20, 30];
    let mut count = None;
    let mut buffer = [7u32; 3];
    let outcome = enumerate(3, &mut count, Some(&mut buffer[..]), &items);
    assert_eq!(outcome, Ok(()));
    assert_eq!(count, Some(3));
    assert_eq!(buffer, [10, 20, 30]);
}

#[test]
fn larger_capacity_leaves_the_tail_alone() {
    let items = [10u32, 20, 30];
    let mut count = None;
    let mut buffer = [7u32; 6];
    let outcome = enumerate(5, &mut count, Some(&mut buffer[..]), &items);
    assert_eq!(outcome, Ok(()));
    assert_eq!(count, Some(3));
    assert_eq!(buffer, [10, 20, 30, 7, 7, 7]);
}

#[test]
fn empty_list_with_capacity_five() {
    let items: [u64; 0] = [];
    let mut count = None;
    let mut buffer = [3u64; 5];
    let outcome = enumerate(5, &mut count, Some(&mut buffer[..]), &items);
    assert_eq!(outcome, Ok(()));
    assert_eq!(count, Some(0));
    assert_eq!(buffer, [3, 3, 3, 3, 3]);
}

#[test]
fn empty_list_with_zero_capacity() {
    let items: [u8; 0] = [];
    let mut count = None;
    let outcome = enumerate::<u8>(0, &mut count, None, &items);
    assert_eq!(outcome, Ok(()));
    assert_eq!(count, Some(0));
}

#[test]
fn enumerate_works_for_struct_items() {
    #[derive(Clone, Copy, Debug, PartialEq)]
    struct Pair(u8, i16);
    let items = [Pair(1, -1), Pair(2, -2)];
    let mut count = None;
    let mut buffer = [Pair(0, 0); 3];
    let outcome = enumerate(3, &mut count, Some(&mut buffer[..]), &items);
    assert_eq!(outcome, Ok(()));
    assert_eq!(count, Some(2));
    assert_eq!(buffer, [Pair(1, -1), Pair(2, -2), Pair(0, 0)]);
}

#[test]
fn extension_list_is_empty() {
    let mut count = None;
    let mut buffer = [openxr_sys::ExtensionProperties::out(std::ptr::null_mut()); 0];
    let outcome = xrEnumerateInstanceExtensionProperties(
        None,
        0,
        &mut count,
        Some(&mut buffer[..]),
    );
    assert_eq!(outcome, Ok(()));
    assert_eq!(count, Some(0));
}

#[test]
fn extension_list_with_capacity_five_leaves_buffer() {
    let mut count = None;
    let mut buffer = [42u32; 5];
    let outcome = xrEnumerateInstanceExtensionProperties(
        Some(&b"layer"[..]),
        5,
        &mut count,
        Some(&mut buffer[..]),
    );
    assert_eq!(outcome, Ok(()));
    assert_eq!(count, Some(0));
    assert_eq!(buffer, [42; 5]);
}

#[test]
fn api_layer_list_is_empty() {
    let mut count = Some(9);
    let mut buffer = [42u32; 2];
    let outcome = xrEnumerateApiLayerProperties(2, &mut count, Some(&mut buffer[..]));
    assert_eq!(outcome, Ok(()));
    assert_eq!(count, Some(0));
    assert_eq!(buffer, [42; 2]);
    let mut count = None;
    assert_eq!(xrEnumerateApiLayerProperties::<u32>(0, &mut count, None), Ok(()));
    assert_eq!(count, Some(0));
}
