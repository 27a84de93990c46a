use stardust_openxr::address::NodeAddress;
use stardust_openxr::error::XrError;
use stardust_openxr::input::xrCreateAction;
use stardust_openxr::input::xrCreateActionSet;
use stardust_openxr::input::xrDestroyAction;
use stardust_openxr::input::xrDestroyActionSet;
use stardust_openxr::input::xrSuggestInteractionProfileBindings;
use stardust_openxr::input::ActionCreateInfo;
use stardust_openxr::input::ActionSetCreateInfo;
use stardust_openxr::input::StardustAction;
use stardust_openxr::input::StardustActionSet;
use stardust_openxr::instance::headless_enabled;
use stardust_openxr::instance::xrCreateInstance;
use stardust_openxr::instance::xrDestroyInstance;
use stardust_openxr::instance::xrGetInstanceProperties;
use stardust_openxr::instance::InstanceCreateInfo;
use stardust_openxr::instance::InstanceProperties;
use stardust_openxr::instance::StardustInstance;
use stardust_openxr::proc_addr::EntryPoint;
use stardust_openxr::rpc::register;
use stardust_openxr::runtime::Runtime;
use stardust_openxr::session::xrCreateSession;
use stardust_openxr::session::xrDestroySession;
use stardust_openxr::session::StardustSession;

fn create_info(extensions: &[&str]) -> InstanceCreateInfo {
    InstanceCreateInfo {
        application_name: Some(b"Foo".to_vec()),
        application_version: 4,
        engine_name: Some(b"Bar".to_vec()),
        engine_version: 5,
        api_version: 6,
        enabled_extension_names: extensions.iter().map(|e| Some(e.as_bytes().to_vec())).collect(),
    }
}

fn add_instance(rt: &mut Runtime, extensions: &[&str]) -> u64 {
    let setup = xrCreateInstance(&create_info(extensions)).ok().unwrap();
    let (instance, _signal) = StardustInstance::new(&setup, true, Some(vec![1])).ok().unwrap();
    register(&mut rt.instances, instance, true).unwrap()
}

fn set_info(name: &str, localized: &str, priority: u32) -> ActionSetCreateInfo {
    ActionSetCreateInfo {
        action_set_name: Some(name.as_bytes().to_vec()),
        localized_action_set_name: Some(localized.as_bytes().to_vec()),
        priority,
    }
}

fn action_info(name: &str, localized: &str) -> ActionCreateInfo {
    ActionCreateInfo {
        action_name: Some(name.as_bytes().to_vec()),
        localized_action_name: Some(localized.as_bytes().to_vec()),
    }
}

fn is_token_char(c: char) -> bool {
    c == '_' || c == '-' || c.is_ascii_alphanumeric()
}

#[test]
fn create_instance_reads_its_arguments() {
    let setup = xrCreateInstance(&create_info(&["XR_KHR_opengl_enable", "XR_MND_headless"]))
        .ok()
        .unwrap();
    assert_eq!(setup.app_info.app_name, "Foo");
    assert_eq!(setup.app_info.app_version, 4);
    assert_eq!(setup.app_info.engine_name, "Bar");
    assert_eq!(setup.app_info.engine_version, 5);
    assert_eq!(setup.app_info.api_version, 6);
    assert_eq!(setup.extension_names, vec!["XR_KHR_opengl_enable", "XR_MND_headless"]);
}

#[test]
fn create_instance_refuses_unreadable_strings() {
    let mut info = create_info(&[]);
    info.application_name = None;
    assert_eq!(xrCreateInstance(&info).err(), Some(XrError::ValidationFailure));
    let mut info = create_info(&[]);
    info.engine_name = Some(vec![0xff]);
    assert_eq!(xrCreateInstance(&info).err(), Some(XrError::ValidationFailure));
    let mut info = create_info(&["XR_MND_headless"]);
    info.enabled_extension_names.push(None);
    assert_eq!(xrCreateInstance(&info).err(), Some(XrError::ValidationFailure));
    let mut info = create_info(&["XR_MND_headless"]);
    info.enabled_extension_names.insert(0, Some(vec![0xc0, 0x80]));
    assert_eq!(xrCreateInstance(&info).err(), Some(XrError::ValidationFailure));
}

#[test]
fn instance_scenario_foo_bar() {
    let mut rt = Runtime::new();
    let setup = xrCreateInstance(&create_info(&[])).ok().unwrap();
    let (instance, signal) = StardustInstance::new(&setup, true, Some(vec![7, 8])).ok().unwrap();
    assert_eq!(signal.node_path, "/openxr");
    assert_eq!(signal.name, "setup_instance");
    assert_eq!(signal.payload, vec![7, 8]);
    let handle = register(&mut rt.instances, instance, true).unwrap();
    assert!(handle != 0);
    let mut properties =
        InstanceProperties { ty: 0, runtime_version: 0, runtime_name: vec![9; 128] };
    assert_eq!(xrGetInstanceProperties(handle, &mut properties, 1, 2, 3), Ok(()));
    assert_eq!(properties.ty, openxr_sys::StructureType::INSTANCE_PROPERTIES.into_raw());
    assert_eq!(properties.runtime_version, openxr_sys::Version::new(1, 2, 3).into_raw());
    assert_eq!(properties.runtime_version, (1u64 << 48) | (2u64 << 32) | 3);
    let mut expected = vec![0i8; 128];
    for (i, b) in b"Stardust XR".iter().enumerate() {
        expected[i] = *b as i8;
    }
    assert_eq!(properties.runtime_name, expected);
    assert_eq!(properties.runtime_name.len(), openxr_sys::MAX_RUNTIME_NAME_SIZE);
}

#[test]
fn runtime_name_is_cut_at_a_short_buffer() {
    let mut properties = InstanceProperties { ty: 0, runtime_version: 0, runtime_name: vec![9; 4] };
    assert_eq!(xrGetInstanceProperties(0, &mut properties, 0, 0, 0), Ok(()));
    assert_eq!(properties.runtime_name, vec![83, 116, 97, 114]);
}

#[test]
fn instance_needs_a_connection_and_a_payload() {
    let setup = xrCreateInstance(&create_info(&[])).ok().unwrap();
    assert_eq!(
        StardustInstance::new(&setup, false, Some(vec![1])).err(),
        Some(XrError::RuntimeUnavailable)
    );
    assert_eq!(StardustInstance::new(&setup, false, None).err(), Some(XrError::RuntimeUnavailable));
    assert_eq!(StardustInstance::new(&setup, true, None).err(), Some(XrError::RuntimeFailure));
}

#[test]
fn headless_is_read_from_the_extension_names() {
    assert!(!headless_enabled(&Vec::new()));
    assert!(!headless_enabled(&vec![String::from("XR_KHR_opengl_enable")]));
    assert!(!headless_enabled(&vec![String::from("XR_MND_headles")]));
    assert!(headless_enabled(&vec![String::from("XR_MND_headless")]));
    assert!(headless_enabled(&vec![String::from("a"), String::from("XR_MND_headless")]));
    let mut rt = Runtime::new();
    let plain = add_instance(&mut rt, &["XR_KHR_vulkan_enable"]);
    let headless = add_instance(&mut rt, &["XR_KHR_vulkan_enable", "XR_MND_headless"]);
    assert!(!rt.instances.resolve(plain).ok().unwrap().extension_headless_enabled);
    assert!(rt.instances.resolve(headless).ok().unwrap().extension_headless_enabled);
}

#[test]
fn instance_resolves_every_entry_point_by_name() {
    let mut rt = Runtime::new();
    let handle = add_instance(&mut rt, &[]);
    let instance = rt.instances.resolve(handle).ok().unwrap();
    assert_eq!(instance.get_proc_addr("xrCreateSession"), Ok(EntryPoint::CreateSession));
    assert_eq!(instance.get_proc_addr("xrCreateInstance"), Ok(EntryPoint::CreateInstance));
    assert_eq!(instance.get_proc_addr("xrNoSuchThing"), Err(XrError::HandleInvalid));
    assert_eq!(instance.get_proc_addr(""), Err(XrError::HandleInvalid));
}

#[test]
fn session_without_graphics_or_headless_is_refused() {
    let mut rt = Runtime::new();
    let instance = add_instance(&mut rt, &[]);
    assert_eq!(
        xrCreateSession(&rt, instance, &[], 1).err(),
        Some(XrError::GraphicsRequirementsCallMissing)
    );
    let other = openxr_sys::StructureType::SESSION_CREATE_INFO_OVERLAY_EXTX.into_raw();
    assert_eq!(
        xrCreateSession(&rt, instance, &[other], 1).err(),
        Some(XrError::GraphicsRequirementsCallMissing)
    );
}

#[test]
fn session_needs_a_live_instance() {
    let mut rt = Runtime::new();
    let binding = openxr_sys::StructureType::GRAPHICS_BINDING_VULKAN_KHR.into_raw();
    assert_eq!(xrCreateSession(&rt, 0, &[binding], 1).err(), Some(XrError::HandleInvalid));
    assert_eq!(xrCreateSession(&rt, 1, &[binding], 1).err(), Some(XrError::HandleInvalid));
    let instance = add_instance(&mut rt, &["XR_MND_headless"]);
    assert_eq!(xrDestroyInstance(&mut rt, instance), Ok(()));
    assert_eq!(xrCreateSession(&rt, instance, &[binding], 1).err(), Some(XrError::HandleInvalid));
}

#[test]
fn session_with_graphics_binding_is_prepared() {
    let mut rt = Runtime::new();
    let instance = add_instance(&mut rt, &[]);
    let binding = openxr_sys::StructureType::GRAPHICS_BINDING_OPENGL_WAYLAND_KHR.into_raw();
    let (session, signal) = xrCreateSession(&rt, instance, &[8, binding], 3).ok().unwrap();
    assert_eq!(signal.node_path, "/openxr/system3");
    assert_eq!(signal.name, "create_session");
    let path = session.node_path().to_string();
    assert!(path.starts_with("/openxr/system3/"));
    let token = &path["/openxr/system3/".len()..];
    assert_eq!(token.chars().count(), 21);
    assert!(token.chars().all(is_token_char));
    assert_eq!(signal.payload, stardust_xr::schemas::flex::serialize(token).unwrap());
    let decoded: String = stardust_xr::schemas::flex::deserialize(&signal.payload).unwrap();
    assert_eq!(decoded, token);
    assert_eq!(session.instance_handle(), instance);
    let handle = register(&mut rt.sessions, session, true).unwrap();
    assert!(handle != 0);
    assert_eq!(rt.sessions.resolve(handle).ok().unwrap().node_path(), path);
}

#[test]
fn headless_session_needs_no_binding() {
    let mut rt = Runtime::new();
    let instance = add_instance(&mut rt, &["XR_MND_headless"]);
    let (session, _signal) = xrCreateSession(&rt, instance, &[], 12).ok().unwrap();
    assert!(session.node_path().starts_with("/openxr/system12/"));
}

#[test]
fn sessions_get_different_tokens() {
    let mut rt = Runtime::new();
    let instance = add_instance(&mut rt, &["XR_MND_headless"]);
    let (a, _) = StardustSession::new(&rt.instances, instance, 1).ok().unwrap();
    let (b, _) = StardustSession::new(&rt.instances, instance, 1).ok().unwrap();
    assert!(a.node_path() != b.node_path());
}

#[test]
fn session_with_given_token() {
    let mut rt = Runtime::new();
    let instance = add_instance(&mut rt, &[]);
    let (session, signal) =
        StardustSession::with_token(&rt.instances, instance, 42, "abc", Some(vec![1, 2]))
            .ok()
            .unwrap();
    assert_eq!(session.node_path(), "/openxr/system42/abc");
    assert_eq!(session.instance_handle(), instance);
    assert_eq!(signal.node_path, "/openxr/system42");
    assert_eq!(signal.name, "create_session");
    assert_eq!(signal.payload, vec![1, 2]);
    assert_eq!(
        StardustSession::with_token(&rt.instances, instance, 42, "abc", None).err(),
        Some(XrError::RuntimeFailure)
    );
    assert_eq!(
        StardustSession::with_token(&rt.instances, instance + 1, 42, "abc", Some(vec![1])).err(),
        Some(XrError::HandleInvalid)
    );
    assert_eq!(
        StardustSession::with_token(&rt.instances, instance + 1, 42, "abc", None).err(),
        Some(XrError::HandleInvalid)
    );
}

#[test]
fn unsent_session_is_not_registered() {
    let mut rt = Runtime::new();
    let instance = add_instance(&mut rt, &["XR_MND_headless"]);
    let (session, _signal) = xrCreateSession(&rt, instance, &[], 1).ok().unwrap();
    assert_eq!(register(&mut rt.sessions, session, false), Err(XrError::RuntimeFailure));
    assert_eq!(rt.sessions.resolve(1).err(), Some(XrError::HandleInvalid));
}

#[test]
fn session_finds_its_instance_while_it_lives() {
    let mut rt = Runtime::new();
    let instance = add_instance(&mut rt, &["XR_MND_headless"]);
    let (session, _signal) = xrCreateSession(&rt, instance, &[], 1).ok().unwrap();
    assert!(session.instance(&mut rt.instances).ok().unwrap().extension_headless_enabled);
    assert_eq!(xrDestroyInstance(&mut rt, instance), Ok(()));
    assert_eq!(session.instance(&mut rt.instances).err(), Some(XrError::HandleInvalid));
}

#[test]
fn destroyed_session_does_not_resolve() {
    let mut rt = Runtime::new();
    let instance = add_instance(&mut rt, &["XR_MND_headless"]);
    let (session, _signal) = xrCreateSession(&rt, instance, &[], 1).ok().unwrap();
    let handle = register(&mut rt.sessions, session, true).unwrap();
    assert_eq!(xrDestroySession(&mut rt, handle), Ok(()));
    assert_eq!(rt.sessions.resolve(handle).err(), Some(XrError::HandleInvalid));
    assert_eq!(xrDestroySession(&mut rt, handle), Err(XrError::HandleInvalid));
    assert_eq!(xrDestroySession(&mut rt, 0), Err(XrError::HandleInvalid));
    assert!(rt.instances.contains(instance));
}

#[test]
fn destroying_one_instance_leaves_the_other() {
    let mut rt = Runtime::new();
    let first = add_instance(&mut rt, &[]);
    let second = add_instance(&mut rt, &["XR_MND_headless"]);
    assert!(first != second);
    let (session, _signal) = xrCreateSession(&rt, second, &[], 1).ok().unwrap();
    let session = register(&mut rt.sessions, session, true).unwrap();
    assert_eq!(xrDestroyInstance(&mut rt, first), Ok(()));
    assert_eq!(rt.instances.resolve(first).err(), Some(XrError::HandleInvalid));
    assert!(rt.instances.resolve(second).ok().unwrap().extension_headless_enabled);
    assert!(rt.sessions.contains(session));
    assert_eq!(xrDestroyInstance(&mut rt, first), Err(XrError::HandleInvalid));
    assert_eq!(xrDestroyInstance(&mut rt, 0), Err(XrError::HandleInvalid));
}

#[test]
fn action_set_gameplay_and_action_jump() {
    let mut rt = Runtime::new();
    let instance = add_instance(&mut rt, &[]);
    let (set, signal) =
        xrCreateActionSet(&rt, instance, &set_info("gameplay", "Gameplay", 2)).ok().unwrap();
    assert_eq!(set.node_path(), "/openxr/action_set/gameplay");
    assert_eq!(set.instance_handle(), instance);
    assert_eq!(signal.node_path, "/openxr");
    assert_eq!(signal.name, "create_action_set");
    assert_eq!(
        signal.payload,
        stardust_xr::schemas::flex::serialize(("gameplay", "Gameplay", 2u32)).unwrap()
    );
    let decoded: (String, String, u32) =
        stardust_xr::schemas::flex::deserialize(&signal.payload).unwrap();
    assert_eq!(decoded, (String::from("gameplay"), String::from("Gameplay"), 2));
    let set_path = set.node_path().to_string();
    let set_handle = register(&mut rt.action_sets, set, true).unwrap();
    let (action, signal) =
        xrCreateAction(&rt, set_handle, &action_info("jump", "Jump")).ok().unwrap();
    assert_eq!(action.node_path(), format!("{}/jump", set_path));
    assert_eq!(action.node_path(), "/openxr/action_set/gameplay/jump");
    assert_eq!(action.action_set_handle(), set_handle);
    assert_eq!(signal.node_path, set_path);
    assert_eq!(signal.name, "create_action");
    assert_eq!(signal.payload, stardust_xr::schemas::flex::serialize(("jump", "Jump")).unwrap());
    let decoded: (String, String) =
        stardust_xr::schemas::flex::deserialize(&signal.payload).unwrap();
    assert_eq!(decoded, (String::from("jump"), String::from("Jump")));
    let action_handle = register(&mut rt.actions, action, true).unwrap();
    assert!(action_handle != 0);
    assert_eq!(
        NodeAddress::action_set("gameplay").child("jump").as_str(),
        rt.actions.resolve(action_handle).ok().unwrap().node_path()
    );
}

#[test]
fn action_set_refusals_in_order() {
    let mut rt = Runtime::new();
    let instance = add_instance(&mut rt, &[]);
    let mut unreadable = set_info("a", "A", 0);
    unreadable.action_set_name = None;
    assert_eq!(
        xrCreateActionSet(&rt, instance + 1, &unreadable).err(),
        Some(XrError::HandleInvalid)
    );
    assert_eq!(xrCreateActionSet(&rt, 0, &set_info("a", "A", 0)).err(), Some(XrError::HandleInvalid));
    assert_eq!(xrCreateActionSet(&rt, instance, &unreadable).err(), Some(XrError::ValidationFailure));
    let mut unreadable = set_info("a", "A", 0);
    unreadable.localized_action_set_name = Some(vec![0x80]);
    assert_eq!(xrCreateActionSet(&rt, instance, &unreadable).err(), Some(XrError::ValidationFailure));
    assert_eq!(
        StardustActionSet::new(&rt.instances, instance, &unreadable).err(),
        Some(XrError::ValidationFailure)
    );
}

#[test]
fn same_action_set_name_twice_is_not_refused_here() {
    let mut rt = Runtime::new();
    let instance = add_instance(&mut rt, &[]);
    let (a, _) = xrCreateActionSet(&rt, instance, &set_info("gameplay", "One", 0)).ok().unwrap();
    let a = register(&mut rt.action_sets, a, true).unwrap();
    let (b, _) = xrCreateActionSet(&rt, instance, &set_info("gameplay", "Two", 0)).ok().unwrap();
    let b = register(&mut rt.action_sets, b, true).unwrap();
    assert!(a != b);
    assert_eq!(
        rt.action_sets.resolve(a).ok().unwrap().node_path(),
        rt.action_sets.resolve(b).ok().unwrap().node_path()
    );
}

#[test]
fn action_refusals_in_order() {
    let mut rt = Runtime::new();
    let instance = add_instance(&mut rt, &[]);
    let (set, _) = xrCreateActionSet(&rt, instance, &set_info("s", "S", 0)).ok().unwrap();
    let set = register(&mut rt.action_sets, set, true).unwrap();
    let mut unreadable = action_info("a", "A");
    unreadable.localized_action_name = None;
    assert_eq!(xrCreateAction(&rt, 0, &unreadable).err(), Some(XrError::HandleInvalid));
    assert_eq!(xrCreateAction(&rt, set + 1, &action_info("a", "A")).err(), Some(XrError::HandleInvalid));
    assert_eq!(xrCreateAction(&rt, set, &unreadable).err(), Some(XrError::ValidationFailure));
    let mut unreadable = action_info("a", "A");
    unreadable.action_name = Some(vec![0xff]);
    assert_eq!(xrCreateAction(&rt, set, &unreadable).err(), Some(XrError::ValidationFailure));
    assert_eq!(xrDestroyInstance(&mut rt, instance), Ok(()));
    assert_eq!(xrCreateAction(&rt, set, &unreadable).err(), Some(XrError::HandleInvalid));
    assert_eq!(
        StardustAction::new(&rt.instances, &rt.action_sets, set, &action_info("a", "A")).err(),
        Some(XrError::HandleInvalid)
    );
}

#[test]
fn action_finds_its_set_while_it_lives() {
    let mut rt = Runtime::new();
    let instance = add_instance(&mut rt, &[]);
    let (set, _) = xrCreateActionSet(&rt, instance, &set_info("s", "S", 0)).ok().unwrap();
    let set = register(&mut rt.action_sets, set, true).unwrap();
    let (action, _) = xrCreateAction(&rt, set, &action_info("a", "A")).ok().unwrap();
    let action = register(&mut rt.actions, action, true).unwrap();
    {
        let found = rt.actions.resolve(action).ok().unwrap();
        assert_eq!(found.action_set(&mut rt.action_sets).ok().unwrap().node_path(), "/openxr/action_set/s");
    }
    {
        let found = rt.action_sets.resolve(set).ok().unwrap();
        assert!(found.instance(&mut rt.instances).is_ok());
    }
    assert_eq!(xrDestroyActionSet(&mut rt, set), Ok(()));
    assert_eq!(xrDestroyActionSet(&mut rt, set), Err(XrError::HandleInvalid));
    let found = rt.actions.resolve(action).ok().unwrap();
    assert_eq!(found.action_set(&mut rt.action_sets).err(), Some(XrError::HandleInvalid));
    assert_eq!(xrDestroyAction(&mut rt, action), Ok(()));
    assert_eq!(xrDestroyAction(&mut rt, action), Err(XrError::HandleInvalid));
    assert_eq!(rt.actions.resolve(action).err(), Some(XrError::HandleInvalid));
}

#[test]
fn handles_of_different_categories_are_independent() {
    let mut rt = Runtime::new();
    let instance = add_instance(&mut rt, &["XR_MND_headless"]);
    let (session, _) = xrCreateSession(&rt, instance, &[], 1).ok().unwrap();
    let session = register(&mut rt.sessions, session, true).unwrap();
    assert_eq!(instance, session);
    assert_eq!(xrDestroySession(&mut rt, session), Ok(()));
    assert!(rt.instances.contains(instance));
}

#[test]
fn suggested_bindings_need_a_live_instance() {
    let mut rt = Runtime::new();
    assert_eq!(xrSuggestInteractionProfileBindings(&rt, 1), Err(XrError::HandleInvalid));
    let instance = add_instance(&mut rt, &[]);
    assert_eq!(xrSuggestInteractionProfileBindings(&rt, instance), Ok(()));
    assert_eq!(xrSuggestInteractionProfileBindings(&rt, 0), Err(XrError::HandleInvalid));
}
