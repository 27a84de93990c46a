use stardust_openxr::error::XrError;
use stardust_openxr::rpc::execute_method;
use stardust_openxr::rpc::inbound_call;
use stardust_openxr::rpc::method_outcome;
use stardust_openxr::rpc::send_signal;
use stardust_openxr::rpc::Answer;
use stardust_openxr::rpc::MethodEvent;
use stardust_openxr::rpc::Refusal;
use stardust_openxr::rpc::METHOD_TIMEOUT_MILLIS;

#[test]
fn signal_carries_address_name_and_payload() {
    let signal = send_signal("/openxr", "setup_instance", Some(vec![1, 2, 3])).unwrap();
    assert_eq!(signal.node_path, "/openxr");
    assert_eq!(signal.name, "setup_instance");
    assert_eq!(signal.payload, vec![1, 2, 3]);
}

#[test]
fn signal_without_payload_is_a_runtime_failure() {
    assert_eq!(send_signal("/openxr", "x", None).err(), Some(XrError::RuntimeFailure));
}

#[test]
fn method_call_has_the_fixed_deadline() {
    let call = execute_method("/openxr/system1", "views", Some(vec![9])).unwrap();
    assert_eq!(call.node_path, "/openxr/system1");
    assert_eq!(call.name, "views");
    assert_eq!(call.payload, vec![9]);
    assert_eq!(call.timeout_millis, 1000);
    assert_eq!(METHOD_TIMEOUT_MILLIS, 1000);
}

#[test]
fn method_call_without_payload_is_a_runtime_failure() {
    assert_eq!(execute_method("/openxr", "x", None).err(), Some(XrError::RuntimeFailure));
}

#[test]
fn timeout_is_a_runtime_failure() {
    assert_eq!(method_outcome(MethodEvent::TimedOut).err(), Some(XrError::RuntimeFailure));
}

#[test]
fn transport_failure_is_a_runtime_failure() {
    assert_eq!(method_outcome(MethodEvent::TransportFailed).err(), Some(XrError::RuntimeFailure));
}

#[test]
fn reply_is_handed_on() {
    match method_outcome(MethodEvent::Reply(vec![4, 5])) {
        Ok(Answer::Data(data)) => assert_eq!(data, vec![4, 5]),
        _ => panic!("a reply is an answer with data"),
    }
}

#[test]
fn remote_error_is_handed_on() {
    match method_outcome(MethodEvent::Refused(String::from("Node not found"))) {
        Ok(Answer::Error(message)) => assert_eq!(message, "Node not found"),
        _ => panic!("an error from the other side is an answer"),
    }
}

#[test]
fn calls_from_the_other_side_find_no_node() {
    assert_eq!(inbound_call("/openxr", "event", &[1, 2]), Err(Refusal::NodeNotFound));
    assert_eq!(inbound_call("", "", &[]), Err(Refusal::NodeNotFound));
}
