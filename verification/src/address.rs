use crate::text::decimal;
use crate::text::push_decimal;
use vstd::prelude::*;

verus! {

/// The address of the namespace's root.
pub open spec fn root_path() -> Seq<char> {
    "/openxr"@
}

/// The address of the child `segment` of the node at `parent`.
pub open spec fn child_path(parent: Seq<char>, segment: Seq<char>) -> Seq<char> {
    parent + "/"@ + segment
}

/// The segment that names the system with the given number.
pub open spec fn system_segment(system: u64) -> Seq<char> {
    "system"@ + decimal(system as nat)
}

/// The address of the system with the given number: `/openxr/system` and the number.
pub open spec fn system_path(system: u64) -> Seq<char> {
    child_path(root_path(), system_segment(system))
}

/// The address of the action set with the given name: `/openxr/action_set/` and the name.
pub open spec fn action_set_path(name: Seq<char>) -> Seq<char> {
    child_path(child_path(root_path(), "action_set"@), name)
}

/// Whether a character may stand in a generated token: a letter or a digit of ASCII, an
/// underscore or a hyphen.
pub open spec fn is_token_char(c: char) -> bool {
    c == '_' || c == '-' || ('0' <= c && c <= '9') || ('a' <= c && c <= 'z') || ('A' <= c && c
        <= 'Z')
}

/// Whether a text has the form of a generated token: 21 characters, each one a token
/// character. Such a text holds no slash, so it is one segment of an address.
pub open spec fn is_token(text: Seq<char>) -> bool {
    text.len() == 21 && forall|i: int| 0 <= i < text.len() ==> is_token_char(#[trigger] text[i])
}

/// Makes a random identifier with `nanoid::format`, from the default random source and the
/// alphabet `nanoid::alphabet::SAFE`, with 21 characters. Which characters come out is left
/// open: two calls give different identifiers but for a collision.
#[verifier::external_body]
pub(crate) fn fresh_token() -> (token: String)
    ensures
        is_token(token@),
{
    nanoid::format(nanoid::rngs::default, &nanoid::alphabet::SAFE, 21)
}

/// The address of a node in the server's tree: the root's address, and behind it a slash and
/// a segment for each step down.
pub struct NodeAddress {
    path: String,
}

impl NodeAddress {
    /// The address as text.
    pub closed spec fn view(&self) -> Seq<char> {
        self.path@
    }

    /// The address of the namespace's root.
    pub fn root() -> (address: NodeAddress)
        ensures
            address@ == root_path(),
    {
        NodeAddress { path: String::from_str("/openxr") }
    }

    /// The address of the child `segment` of this node. The segment is taken as it is.
    pub fn child(&self, segment: &str) -> (address: NodeAddress)
        ensures
            address@ == child_path(self@, segment@),
    {
        let mut path = self.path.clone();
        path.append("/");
        path.append(segment);
        NodeAddress { path }
    }

    /// The address of the system with the given number.
    pub fn system(system: u64) -> (address: NodeAddress)
        ensures
            address@ == system_path(system),
    {
        let mut segment = String::from_str("system");
        push_decimal(&mut segment, system);
        NodeAddress::root().child(segment.as_str())
    }

    /// The address of the action set with the given name.
    pub fn action_set(name: &str) -> (address: NodeAddress)
        ensures
            address@ == action_set_path(name@),
    {
        NodeAddress::root().child("action_set").child(name)
    }

    /// The address as text.
    pub fn as_str(&self) -> (text: &str)
        ensures
            text@ == self@,
    {
        self.path.as_str()
    }

}

/// A child's address starts with its parent's, and is longer.
pub proof fn lemma_child_extends_parent(parent: Seq<char>, segment: Seq<char>)
    ensures
        parent.is_prefix_of(child_path(parent, segment)),
        child_path(parent, segment).len() > parent.len(),
{
    reveal_strlit("/");
}

/// Two children of one node have the same address only where their segments are the same.
pub proof fn lemma_siblings_differ(parent: Seq<char>, a: Seq<char>, b: Seq<char>)
    requires
        child_path(parent, a) == child_path(parent, b),
    ensures
        a == b,
{
    let joined = child_path(parent, b);
    let skip = (parent + "/"@).len() as int;
    assert(joined.subrange(skip, joined.len() as int) =~= b);
}

} // verus!
