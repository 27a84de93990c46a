use crate::error::XrError;
use crate::runtime::Runtime;
use crate::text::as_c_chars;
use crate::text::c_chars_of;
use crate::util::enumerate;
use crate::util::enumerate_buffer;
use crate::util::enumerate_outcome;
use crate::util::given;
use crate::util::str_from_const_char;
use crate::util::text_of;
use vstd::prelude::*;
use vstd::string::StringSliceAdditionalSpecFns;
use vstd::utf8::encode_utf8;

verus! {

/// The bit that every key of a `PathStore` has set: the lowest bit of the key's version, which
/// is odd for every key that was given out.
pub const KEY_MARK: u64 = 0x1_0000_0000;

/// The most entries that a `PathTable` takes.
pub const PATH_LIMIT: usize = 0x7fff_ffff;

/// The strings of a `PathTable`, in a `slotmap::SlotMap` with its default key type. The
/// table only ever adds to it.
#[verifier::external_body]
pub struct PathStore {
    inner: slotmap::SlotMap<slotmap::DefaultKey, String>,
}

/// What a `PathStore` holds: each stored string under the number that `KeyData::as_ffi` gives
/// for its key.
pub uninterp spec fn stored_paths(store: PathStore) -> Map<u64, Seq<char>>;

/// The key that `KeyData::from_ffi` makes of a number: the number itself where it has the
/// mark, and else the number with the mark added.
pub open spec fn marked(key: u64) -> u64 {
    key | KEY_MARK
}

/// Makes an empty store with `SlotMap::new`.
#[verifier::external_body]
fn store_new() -> (store: PathStore)
    ensures
        stored_paths(store).dom() == Set::<u64>::empty(),
{
    PathStore { inner: slotmap::SlotMap::new() }
}

/// The number of strings in the store, from `SlotMap::len`.
#[verifier::external_body]
fn store_len(store: &PathStore) -> (len: usize)
    ensures
        len == stored_paths(*store).dom().len(),
{
    store.inner.len()
}

/// Adds a string with `SlotMap::insert` and gives the new key as a number (`Key::data`, then
/// `KeyData::as_ffi`). The key is one that the store does not hold, it has the mark, and
/// nothing else in the store changes. `SlotMap::insert` panics once 2^32 - 1 slots are in
/// use; a store that has only grown uses one slot for each string and one more, which the
/// bound on the store's size keeps far below that, so that within the bound the call does
/// not panic.
#[verifier::external_body]
fn store_insert(store: &mut PathStore, value: String) -> (key: u64)
    requires
        stored_paths(*old(store)).dom().len() < PATH_LIMIT,
    ensures
        !stored_paths(*old(store)).contains_key(key),
        key & KEY_MARK != 0,
        stored_paths(*final(store)) == stored_paths(*old(store)).insert(key, value@),
    no_unwind
{
    slotmap::Key::data(&store.inner.insert(value)).as_ffi()
}

/// Looks a number up with `SlotMap::get`, as the key that `KeyData::from_ffi` makes of it:
/// the string that the store holds under that key, if it holds one.
#[verifier::external_body]
fn store_get(store: &PathStore, key: u64) -> (found: Option<&String>)
    ensures
        match found {
            Some(s) => stored_paths(*store).contains_key(marked(key)) && s@ == stored_paths(
                *store,
            )[marked(key)],
            None => !stored_paths(*store).contains_key(marked(key)),
        },
{
    store.inner.get(slotmap::KeyData::from_ffi(key).into())
}

/// The path strings that an instance has been given, each under the number it was
/// answered with. Strings are only added: a number, once answered, stands for its string as
/// long as the table lives.
pub struct PathTable {
    store: PathStore,
}

impl PathTable {
    /// The table's strings, by number.
    pub closed spec fn view(&self) -> Map<u64, Seq<char>> {
        stored_paths(self.store)
    }

    /// Every number in the table has the mark (so none is zero), the table has finitely
    /// many entries, and each string is short enough for its length in bytes to be
    /// reported as a count.
    #[verifier::type_invariant]
    closed spec fn wf(&self) -> bool {
        &&& self@.dom().finite()
        &&& forall|key: u64| #[trigger] self@.contains_key(key) ==> key & KEY_MARK != 0
        &&& forall|key: u64| #[trigger]
            self@.contains_key(key) ==> encode_utf8(self@[key]).len() <= u32::MAX
    }

    /// An empty table.
    pub fn new() -> (table: PathTable)
        ensures
            table@.dom() == Set::<u64>::empty(),
    {
        let store = store_new();
        PathTable { store }
    }

    /// How many strings the table holds.
    pub fn len(&self) -> (len: usize)
        ensures
            self@.dom().finite(),
            len == self@.dom().len(),
    {
        proof {
            use_type_invariant(self);
        }
        store_len(&self.store)
    }

    /// Why a table cannot take a string, if it cannot: the string has more bytes than a
    /// count can report, or the table holds `PATH_LIMIT` strings.
    pub open spec fn refusal(&self, path: Seq<char>) -> Option<XrError> {
        if encode_utf8(path).len() > u32::MAX {
            Some(XrError::ValidationFailure)
        } else if self@.dom().len() >= PATH_LIMIT {
            Some(XrError::LimitReached)
        } else {
            None
        }
    }

    /// Adds a string and answers the number that stands for it from now on: one that stood
    /// for nothing before, and not zero. The same string added twice gets two numbers. A
    /// string of more than `u32::MAX` bytes is refused with `ValidationFailure`, and a
    /// table that holds `PATH_LIMIT` strings takes no more and answers `LimitReached`.
    pub fn insert(&mut self, path: &str) -> (key: Result<u64, XrError>)
        ensures
            match old(self).refusal(path@) {
                Some(refusal) => {
                    &&& key matches Err(e) && e == refusal
                    &&& *final(self) == *old(self)
                },
                None => {
                    &&& key matches Ok(k) && k != 0 && !old(self)@.contains_key(k)
                    &&& final(self)@ == old(self)@.insert(key->Ok_0, path@)
                },
            },
    {
        proof {
            use_type_invariant(&*self);
        }
        if path.as_bytes().len() > 0xffff_ffff {
            return Err(XrError::ValidationFailure);
        }
        if store_len(&self.store) >= PATH_LIMIT {
            return Err(XrError::LimitReached);
        }
        let k: u64 = store_insert(&mut self.store, path.to_owned());
        proof {
            assert(k & KEY_MARK != 0 ==> k != 0) by (bit_vector);
        }
        Ok(k)
    }

    /// The string that a number stands for. Zero and any other number that was never
    /// answered are refused with `HandleInvalid`.
    pub fn path(&self, key: u64) -> (found: Result<&str, XrError>)
        ensures
            key == 0 ==> found is Err,
            match found {
                Ok(s) => self@.contains_key(key) && s@ == self@[key] && s.spec_bytes().len()
                    <= u32::MAX,
                Err(e) => e == XrError::HandleInvalid && !self@.contains_key(key),
            },
    {
        proof {
            use_type_invariant(self);
            assert(0u64 & KEY_MARK == 0) by (bit_vector);
        }
        if key & KEY_MARK == 0 {
            return Err(XrError::HandleInvalid);
        }
        proof {
            assert(key & KEY_MARK != 0 ==> key | KEY_MARK == key) by (bit_vector);
        }
        match store_get(&self.store, key) {
            Some(s) => Ok(s.as_str()),
            None => Err(XrError::HandleInvalid),
        }
    }
}

/// Why a string cannot be made a path of an instance, if it cannot: the instance is not
/// live, the string cannot be read, or the instance's table does not take it.
pub open spec fn string_to_path_refusal(
    rt: &Runtime,
    instance: u64,
    path_string: Option<Seq<u8>>,
) -> Option<XrError> {
    if !rt.instances@.contains_key(instance) {
        Some(XrError::HandleInvalid)
    } else if text_of(path_string) is None {
        Some(XrError::ValidationFailure)
    } else {
        rt.instances@[instance].paths.refusal(text_of(path_string)->0)
    }
}

/// Makes a string a path of the instance `instance`, and answers the number that stands
/// for it from now on. Every call answers a number that stood for nothing before, also
/// for a string that was given earlier. Nothing but that instance's paths changes, and
/// nothing changes where the call is refused.
pub fn xrStringToPath(rt: &mut Runtime, instance: u64, path_string: Option<&[u8]>) -> (path:
    Result<u64, XrError>)
    ensures
        final(rt).sessions == old(rt).sessions,
        final(rt).action_sets == old(rt).action_sets,
        final(rt).actions == old(rt).actions,
        final(rt).instances.issued() == old(rt).instances.issued(),
        final(rt).instances@.dom() == old(rt).instances@.dom(),
        forall|other: u64|
            #![trigger final(rt).instances@[other]]
            other != instance && old(rt).instances@.contains_key(other)
                ==> final(rt).instances@[other] == old(rt).instances@[other],
        match string_to_path_refusal(old(rt), instance, given(path_string)) {
            Some(refusal) => {
                &&& path matches Err(e) && e == refusal
                &&& final(rt).instances@ == old(rt).instances@
            },
            None => {
                let before = old(rt).instances@[instance];
                let after = final(rt).instances@[instance];
                &&& path matches Ok(k) && k != 0 && !before.paths@.contains_key(k)
                &&& after.paths@ == before.paths@.insert(
                    path->Ok_0,
                    text_of(given(path_string))->0,
                )
                &&& after.extension_headless_enabled == before.extension_headless_enabled
            },
        },
{
    if !rt.instances.contains(instance) {
        return Err(XrError::HandleInvalid);
    }
    let text = match str_from_const_char(path_string) {
        Ok(text) => text,
        Err(e) => {
            return Err(e);
        },
    };
    match rt.instances.resolve_mut(instance) {
        Ok(bound) => bound.paths.insert(text),
        Err(e) => Err(e),
    }
}

/// Why a path cannot be read back, if it cannot: the instance is not live, or the number
/// stands for no path of it.
pub open spec fn path_to_string_refusal(rt: &Runtime, instance: u64, path: u64) -> bool {
    !rt.instances@.contains_key(instance) || !rt.instances@[instance].paths@.contains_key(path)
}

/// Reads a path of the instance `instance` back as a string, by the protocol of
/// `enumerate`: the items are the bytes of the string as C characters, without a
/// terminator. An instance that is not live and a number that stands for no path are
/// refused with `HandleInvalid`, and then neither the count nor the buffer is touched.
pub fn xrPathToString(
    rt: &Runtime,
    instance: u64,
    path: u64,
    buffer_capacity_input: u32,
    buffer_count_output: &mut Option<u32>,
    buffer: Option<&mut [i8]>,
) -> (outcome: Result<(), XrError>)
    requires
        buffer matches Some(b) ==> b@.len() >= buffer_capacity_input,
    ensures
        if path_to_string_refusal(rt, instance, path) {
            &&& outcome matches Err(XrError::HandleInvalid)
            &&& *final(buffer_count_output) == *old(buffer_count_output)
            &&& buffer matches Some(b) ==> final(b)@ == b@
        } else {
            let bytes = encode_utf8(rt.instances@[instance].paths@[path]);
            bytes.len() <= u32::MAX && *final(buffer_count_output) == Some(bytes.len() as u32)
                && outcome == enumerate_outcome(buffer_capacity_input, buffer is Some, bytes.len())
                && (buffer matches Some(b) ==> final(b)@ == enumerate_buffer(
                buffer_capacity_input,
                c_chars_of(bytes),
                b@,
            ))
        },
{
    let bound = match rt.instances.resolve(instance) {
        Ok(bound) => bound,
        Err(e) => {
            return Err(e);
        },
    };
    let text = match bound.paths.path(path) {
        Ok(text) => text,
        Err(e) => {
            return Err(e);
        },
    };
    let chars = as_c_chars(text.as_bytes());
    enumerate(buffer_capacity_input, buffer_count_output, buffer, chars)
}

} // verus!
