use stardust_openxr::error::XrError;
use stardust_openxr::instance::StardustInstance;
use stardust_openxr::instance::SetupInfo;
use stardust_openxr::instance::ApplicationInfo;
use stardust_openxr::paths::xrPathToString;
use stardust_openxr::paths::xrStringToPath;
use stardust_openxr::paths::PathTable;
use stardust_openxr::rpc::register;
use stardust_openxr::runtime::Runtime;

fn runtime_with_instance() -> (Runtime, u64) {
    let info = SetupInfo {
        app_info: ApplicationInfo {
            app_name: String::from("Foo"),
            app_version: 1,
            engine_name: String::from("Bar"),
            engine_version: 2,
            api_version: 3,
        },
        extension_names: Vec::new(),
    };
    let (instance, _signal) = StardustInstance::new(&info, true, Some(vec![0])).ok().unwrap();
    let mut rt = Runtime::new();
    let handle = register(&mut rt.instances, instance, true).unwrap();
    (rt, handle)
}

#[test]
fn table_starts_empty() {
    let table = PathTable::new();
    assert_eq!(table.len(), 0);
    assert_eq!(table.path(0), Err(XrError::HandleInvalid));
    assert_eq!(table.path(1), Err(XrError::HandleInvalid));
    assert_eq!(table.path(0x1_0000_0001), Err(XrError::HandleInvalid));
}

#[test]
fn inserted_paths_are_found_again() {
    let mut table = PathTable::new();
    let hand = table.insert("/user/hand/left").unwrap();
    let head = table.insert("/user/head").unwrap();
    assert!(hand != 0);
    assert!(head != 0);
    assert!(hand != head);
    assert_eq!(table.len(), 2);
    assert_eq!(table.path(hand), Ok("/user/hand/left"));
    assert_eq!(table.path(head), Ok("/user/head"));
}

#[test]
fn same_string_gets_a_new_number() {
    let mut table = PathTable::new();
    let a = table.insert("/user/head").unwrap();
    let b = table.insert("/user/head").unwrap();
    assert!(a != b);
    assert_eq!(table.path(a), Ok("/user/head"));
    assert_eq!(table.path(b), Ok("/user/head"));
}

#[test]
fn numbers_without_the_mark_stand_for_nothing() {
    let mut table = PathTable::new();
    let key = table.insert("/user/head").unwrap();
    assert!(key & 0x1_0000_0000 != 0);
    assert_eq!(table.path(key & !0x1_0000_0000), Err(XrError::HandleInvalid));
    assert_eq!(table.path(key + 1), Err(XrError::HandleInvalid));
    assert_eq!(table.path(key + (2 << 32)), Err(XrError::HandleInvalid));
}

#[test]
fn string_to_path_needs_a_live_instance() {
    let (mut rt, instance) = runtime_with_instance();
    assert_eq!(xrStringToPath(&mut rt, 0, Some(&b"/a"[..])), Err(XrError::HandleInvalid));
    assert_eq!(
        xrStringToPath(&mut rt, instance + 1, Some(&b"/a"[..])),
        Err(XrError::HandleInvalid)
    );
}

#[test]
fn string_to_path_needs_a_readable_string() {
    let (mut rt, instance) = runtime_with_instance();
    assert_eq!(xrStringToPath(&mut rt, instance, None), Err(XrError::ValidationFailure));
    assert_eq!(
        xrStringToPath(&mut rt, instance, Some(&[0xff][..])),
        Err(XrError::ValidationFailure)
    );
}

#[test]
fn path_round_trip_through_enumeration() {
    let (mut rt, instance) = runtime_with_instance();
    let path = xrStringToPath(&mut rt, instance, Some(&b"/user/hand/left"[..])).unwrap();
    let mut count = None;
    assert_eq!(xrPathToString(&rt, instance, path, 0, &mut count, None), Ok(()));
    assert_eq!(count, Some(15));
    let mut buffer = [7i8; 20];
    assert_eq!(
        xrPathToString(&rt, instance, path, 20, &mut count, Some(&mut buffer[..])),
        Ok(())
    );
    let expected: Vec<i8> = b"/user/hand/left".iter().map(|b| *b as i8).collect();
    assert_eq!(&buffer[..15], &expected[..]);
    assert_eq!(&buffer[15..], &[7i8; 5][..]);
}

#[test]
fn path_to_string_with_short_buffer() {
    let (mut rt, instance) = runtime_with_instance();
    let path = xrStringToPath(&mut rt, instance, Some("grüß".as_bytes())).unwrap();
    let mut count = None;
    let mut buffer = [7i8; 3];
    assert_eq!(
        xrPathToString(&rt, instance, path, 3, &mut count, Some(&mut buffer[..])),
        Err(XrError::SizeInsufficient)
    );
    assert_eq!(count, Some(6));
    assert_eq!(buffer, [7, 7, 7]);
    let mut buffer = [7i8; 6];
    assert_eq!(
        xrPathToString(&rt, instance, path, 6, &mut count, Some(&mut buffer[..])),
        Ok(())
    );
    assert_eq!(buffer, [103, 114, -61, -68, -61, -97]);
}

#[test]
fn unknown_path_is_refused() {
    let (mut rt, instance) = runtime_with_instance();
    let path = xrStringToPath(&mut rt, instance, Some(&b"/a"[..])).unwrap();
    let mut count = Some(77);
    let mut buffer = [7i8; 4];
    assert_eq!(
        xrPathToString(&rt, instance, 0, 4, &mut count, Some(&mut buffer[..])),
        Err(XrError::HandleInvalid)
    );
    assert_eq!(
        xrPathToString(&rt, instance, path + 1, 4, &mut count, Some(&mut buffer[..])),
        Err(XrError::HandleInvalid)
    );
    assert_eq!(
        xrPathToString(&rt, instance + 5, path, 4, &mut count, Some(&mut buffer[..])),
        Err(XrError::HandleInvalid)
    );
    assert_eq!(count, Some(77));
    assert_eq!(buffer, [7; 4]);
}

#[test]
fn paths_belong_to_their_instance() {
    let (mut rt, first) = runtime_with_instance();
    let info = SetupInfo {
        app_info: ApplicationInfo {
            app_name: String::new(),
            app_version: 0,
            engine_name: String::new(),
            engine_version: 0,
            api_version: 0,
        },
        extension_names: Vec::new(),
    };
    let (instance, _signal) = StardustInstance::new(&info, true, Some(Vec::new())).ok().unwrap();
    let second = register(&mut rt.instances, instance, true).unwrap();
    let path = xrStringToPath(&mut rt, first, Some(&b"/a"[..])).unwrap();
    let mut count = None;
    assert_eq!(xrPathToString(&rt, first, path, 0, &mut count, None), Ok(()));
    assert_eq!(
        xrPathToString(&rt, second, path, 0, &mut count, None),
        Err(XrError::HandleInvalid)
    );
}
