use stardust_openxr::address::NodeAddress;

#[test]
fn root_address_is_fixed() {
    assert_eq!(NodeAddress::root().as_str(), "/openxr");
}

#[test]
fn child_appends_a_slash_and_the_segment() {
    let root = NodeAddress::root();
    let child = root.child("gameplay");
    assert_eq!(child.as_str(), "/openxr/gameplay");
    assert_eq!(child.child("jump").as_str(), "/openxr/gameplay/jump");
    assert_eq!(root.as_str(), "/openxr");
}

#[test]
fn child_takes_any_segment() {
    let root = NodeAddress::root();
    assert_eq!(root.child("").as_str(), "/openxr/");
    assert_eq!(root.child("a/b").as_str(), "/openxr/a/b");
    assert_eq!(root.child("héllo wörld").as_str(), "/openxr/héllo wörld");
}

#[test]
fn system_address_holds_the_number() {
    assert_eq!(NodeAddress::system(0).as_str(), "/openxr/system0");
    assert_eq!(NodeAddress::system(7).as_str(), "/openxr/system7");
    assert_eq!(NodeAddress::system(10).as_str(), "/openxr/system10");
    assert_eq!(NodeAddress::system(1234567890).as_str(), "/openxr/system1234567890");
    assert_eq!(NodeAddress::system(u64::MAX).as_str(), "/openxr/system18446744073709551615");
}

#[test]
fn action_set_address_holds_the_name() {
    assert_eq!(NodeAddress::action_set("gameplay").as_str(), "/openxr/action_set/gameplay");
}
