use crate::error::XrError;
use crate::registry::HandleRegistry;
use vstd::prelude::*;

verus! {

/// How long a method call waits for its reply, in milliseconds.
pub const METHOD_TIMEOUT_MILLIS: u64 = 1000;

/// What a signal or a method call is made of, as plain values.
pub struct Message {
    pub node_path: Seq<char>,
    pub name: Seq<char>,
    pub payload: Seq<u8>,
}

/// A one-way message to a node: it is sent once and never answered.
pub struct Signal {
    pub node_path: String,
    pub name: String,
    pub payload: Vec<u8>,
}

impl Signal {
    /// The signal's parts as plain values.
    pub open spec fn view(&self) -> Message {
        Message { node_path: self.node_path@, name: self.name@, payload: self.payload@ }
    }
}

/// A request to a node that is answered by one reply, or given up after `timeout_millis`.
pub struct MethodCall {
    pub node_path: String,
    pub name: String,
    pub payload: Vec<u8>,
    pub timeout_millis: u64,
}

impl MethodCall {
    /// The request's parts as plain values.
    pub open spec fn view(&self) -> Message {
        Message { node_path: self.node_path@, name: self.name@, payload: self.payload@ }
    }
}

/// How a method call ended for the caller.
pub enum MethodEvent {
    /// The reply came in time, with this payload.
    Reply(Vec<u8>),
    /// The other side answered with an error, with this message.
    Refused(String),
    /// The request could not be sent, or the connection broke before a reply came.
    TransportFailed,
    /// No reply came before the deadline. The other side may still carry the request out.
    TimedOut,
}

/// A value that is sent as a payload: a string, a number, or a tuple of such values.
pub enum Flex {
    Text(Seq<char>),
    Unsigned(u32),
    Signed(i32),
    Tuple(Seq<Flex>),
}

/// The bytes that `stardust_xr::schemas::flex::serialize` makes of a value, where it makes
/// any.
pub uninterp spec fn flex_bytes(value: Flex) -> Option<Seq<u8>>;

/// The unsigned number that `stardust_xr::schemas::flex::deserialize` reads from bytes, where
/// it reads one.
pub uninterp spec fn flex_as_u32(data: Seq<u8>) -> Option<u32>;

/// A pair of strings as a payload.
pub open spec fn text_pair(first: Seq<char>, second: Seq<char>) -> Flex {
    Flex::Tuple(seq![Flex::Text(first), Flex::Text(second)])
}

/// Two strings and a number as a payload.
pub open spec fn text_pair_and_number(first: Seq<char>, second: Seq<char>, third: u32) -> Flex {
    Flex::Tuple(seq![Flex::Text(first), Flex::Text(second), Flex::Unsigned(third)])
}

/// Serializes a string with `stardust_xr::schemas::flex::serialize`. The bytes depend on the
/// string alone; `None` stands for the serializer's error.
#[verifier::external_body]
pub(crate) fn encode_text(text: &str) -> (bytes: Option<Vec<u8>>)
    ensures
        match bytes {
            Some(b) => flex_bytes(Flex::Text(text@)) == Some(b@),
            None => flex_bytes(Flex::Text(text@)) is None,
        },
{
    stardust_xr::schemas::flex::serialize(text).ok()
}

/// Serializes a pair of strings, as one tuple, with
/// `stardust_xr::schemas::flex::serialize`. The bytes depend on the two strings alone;
/// `None` stands for the serializer's error.
#[verifier::external_body]
pub(crate) fn encode_text_pair(first: &str, second: &str) -> (bytes: Option<Vec<u8>>)
    ensures
        match bytes {
            Some(b) => flex_bytes(text_pair(first@, second@)) == Some(b@),
            None => flex_bytes(text_pair(first@, second@)) is None,
        },
{
    stardust_xr::schemas::flex::serialize((first, second)).ok()
}

/// Serializes two strings and a number, as one tuple, with
/// `stardust_xr::schemas::flex::serialize`. The bytes depend on the three values alone;
/// `None` stands for the serializer's error.
#[verifier::external_body]
pub(crate) fn encode_text_pair_u32(first: &str, second: &str, third: u32) -> (bytes: Option<
    Vec<u8>,
>)
    ensures
        match bytes {
            Some(b) => flex_bytes(text_pair_and_number(first@, second@, third)) == Some(b@),
            None => flex_bytes(text_pair_and_number(first@, second@, third)) is None,
        },
{
    stardust_xr::schemas::flex::serialize((first, second, third)).ok()
}

/// Serializes an unsigned number with `stardust_xr::schemas::flex::serialize`. The bytes
/// depend on the number alone; `None` stands for the serializer's error.
#[verifier::external_body]
pub(crate) fn encode_u32(value: u32) -> (bytes: Option<Vec<u8>>)
    ensures
        match bytes {
            Some(b) => flex_bytes(Flex::Unsigned(value)) == Some(b@),
            None => flex_bytes(Flex::Unsigned(value)) is None,
        },
{
    stardust_xr::schemas::flex::serialize(value).ok()
}

/// Serializes a signed number with `stardust_xr::schemas::flex::serialize`. The bytes depend
/// on the number alone; `None` stands for the serializer's error.
#[verifier::external_body]
pub(crate) fn encode_i32(value: i32) -> (bytes: Option<Vec<u8>>)
    ensures
        match bytes {
            Some(b) => flex_bytes(Flex::Signed(value)) == Some(b@),
            None => flex_bytes(Flex::Signed(value)) is None,
        },
{
    stardust_xr::schemas::flex::serialize(value).ok()
}

/// Whether the root of a payload is a whole number that is stored in place. A payload ends
/// with the root's value, one byte for the root's type and width, and one byte for the
/// value's size; the type is that byte's upper six bits, and is 1 for a signed and 2 for an
/// unsigned number.
pub open spec fn holds_number(data: Seq<u8>) -> bool {
    data.len() >= 3 && (data[data.len() - 2] / 4 == 1 || data[data.len() - 2] / 4 == 2)
}

/// The unsigned number that a payload holds, where its root is a number stored in place
/// and the deserializer reads it as an unsigned number of 32 bits.
pub open spec fn number_in(data: Seq<u8>) -> Option<u32> {
    if holds_number(data) {
        flex_as_u32(data)
    } else {
        None
    }
}

/// Reads an unsigned number from a payload with `stardust_xr::schemas::flex::deserialize`.
/// The number depends on the bytes alone; `None` stands for the deserializer's error.
/// The payload's root must be a number stored in place: for a root of that kind the
/// reader looks at the root's own bytes only. For a string, a blob, a map or a vector it
/// follows lengths and offsets that the payload itself gives, and adds them without a
/// check, which is kept out here.
#[verifier::external_body]
pub(crate) fn decode_u32(data: &[u8]) -> (value: Option<u32>)
    requires
        holds_number(data@),
    ensures
        value == flex_as_u32(data@),
{
    stardust_xr::schemas::flex::deserialize::<u32>(data).ok()
}

/// Whether the root of a payload is a whole number that is stored in place.
pub fn is_number(data: &[u8]) -> (yes: bool)
    ensures
        yes == holds_number(data@),
{
    let n: usize = data.len();
    if n < 3 {
        return false;
    }
    let kind: u8 = data[n - 2] / 4;
    kind == 1 || kind == 2
}

/// Reads the unsigned number that a payload holds. A payload whose root is anything but a
/// number stored in place holds none, and is not handed to the deserializer.
pub fn read_number(data: &[u8]) -> (value: Option<u32>)
    ensures
        value == number_in(data@),
{
    if is_number(data) {
        decode_u32(data)
    } else {
        None
    }
}

/// A message to `node_path` under `name` with the given payload.
pub open spec fn message(node_path: Seq<char>, name: Seq<char>, payload: Seq<u8>) -> Message {
    Message { node_path, name, payload }
}

/// Addresses a signal. The payload comes as the serializer left it: where it failed
/// (`None`), there is nothing to send, and the answer is `RuntimeFailure`.
pub fn send_signal(node_path: &str, signal_name: &str, data: Option<Vec<u8>>) -> (signal: Result<
    Signal,
    XrError,
>)
    ensures
        match data {
            Some(bytes) => signal matches Ok(s) && s@ == message(
                node_path@,
                signal_name@,
                bytes@,
            ),
            None => signal matches Err(XrError::RuntimeFailure),
        },
{
    match data {
        Some(payload) => Ok(
            Signal {
                node_path: String::from_str(node_path),
                name: String::from_str(signal_name),
                payload,
            },
        ),
        None => Err(XrError::RuntimeFailure),
    }
}

/// Addresses a method call, to be given up after the fixed deadline. The payload comes as
/// the serializer left it: where it failed (`None`), there is nothing to send, and the
/// answer is `RuntimeFailure`.
pub fn execute_method(node_path: &str, method_name: &str, send_data: Option<Vec<u8>>) -> (call:
    Result<MethodCall, XrError>)
    ensures
        match send_data {
            Some(bytes) => call matches Ok(c) && c@ == message(node_path@, method_name@, bytes@)
                && c.timeout_millis == METHOD_TIMEOUT_MILLIS,
            None => call matches Err(XrError::RuntimeFailure),
        },
{
    match send_data {
        Some(payload) => Ok(
            MethodCall {
                node_path: String::from_str(node_path),
                name: String::from_str(method_name),
                payload,
                timeout_millis: METHOD_TIMEOUT_MILLIS,
            },
        ),
        None => Err(XrError::RuntimeFailure),
    }
}

/// What the other side answered to a method call: the payload of its reply, or the message
/// of its error.
pub enum Answer {
    Data(Vec<u8>),
    Error(String),
}

/// Sorts out how a method call ended. A reply and an error from the other side are both
/// answers, and are handed on. A call that timed out or whose transport failed has no
/// answer: it is a `RuntimeFailure`. Nothing is tried again.
pub fn method_outcome(event: MethodEvent) -> (outcome: Result<Answer, XrError>)
    ensures
        match event {
            MethodEvent::Reply(data) => outcome matches Ok(Answer::Data(d)) && d == data,
            MethodEvent::Refused(message) => outcome matches Ok(Answer::Error(m)) && m
                == message,
            MethodEvent::TransportFailed => outcome matches Err(XrError::RuntimeFailure),
            MethodEvent::TimedOut => outcome matches Err(XrError::RuntimeFailure),
        },
{
    match event {
        MethodEvent::Reply(data) => Ok(Answer::Data(data)),
        MethodEvent::Refused(message) => Ok(Answer::Error(message)),
        MethodEvent::TransportFailed => Err(XrError::RuntimeFailure),
        MethodEvent::TimedOut => Err(XrError::RuntimeFailure),
    }
}

/// Why a call from the other side was not carried out.
#[derive(Clone, Copy, Debug, PartialEq, Eq, Structural)]
pub enum Refusal {
    /// The call names a node that this side does not have.
    NodeNotFound,
}

/// Answers a call that the other side makes to a node of this side. This side has no
/// nodes that can be called: every such call is refused with `NodeNotFound`, whatever it
/// names and carries.
pub fn inbound_call(_node_path: &str, _method: &str, _data: &[u8]) -> (answer: Result<
    Vec<u8>,
    Refusal,
>)
    ensures
        answer matches Err(Refusal::NodeNotFound),
{
    Err(Refusal::NodeNotFound)
}

/// Binds an object to a fresh handle once the signal that announces it has been sent.
/// Where the signal was not sent the answer is `RuntimeFailure`, and where the table cannot
/// give out another handle it is `LimitReached`; the table then stays as it was.
pub fn register<T>(registry: &mut HandleRegistry<T>, object: T, sent: bool) -> (handle: Result<
    u64,
    XrError,
>)
    ensures
        match handle {
            Ok(h) => sent && HandleRegistry::created(old(registry), final(registry), h, object),
            Err(e) => {
                &&& final(registry)@ == old(registry)@
                &&& final(registry).issued() == old(registry).issued()
                &&& e == if !sent {
                    XrError::RuntimeFailure
                } else {
                    XrError::LimitReached
                }
            },
        },
        handle is Ok <==> sent && old(registry).issued() < u64::MAX,
{
    if !sent {
        return Err(XrError::RuntimeFailure);
    }
    if !registry.has_room() {
        return Err(XrError::LimitReached);
    }
    Ok(registry.create(object))
}

} // verus!
