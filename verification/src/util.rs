use crate::error::XrError;
use crate::text::as_c_chars;
use crate::text::c_chars_of;
use vstd::prelude::*;
use vstd::string::StringSliceAdditionalSpecFns;
use vstd::utf8::decode_utf8;
use vstd::utf8::encode_utf8_decode_utf8;
use vstd::utf8::valid_utf8;

verus! {

/// Whether an enumeration call is only a query for the count: the caller offers no room, or
/// no buffer.
pub open spec fn is_count_query(input_count: u32, has_buffer: bool) -> bool {
    input_count == 0 || !has_buffer
}

/// How an enumeration call over `available` items ends.
pub open spec fn enumerate_outcome(input_count: u32, has_buffer: bool, available: nat) -> Result<
    (),
    XrError,
> {
    if !is_count_query(input_count, has_buffer) && input_count < available {
        Err(XrError::SizeInsufficient)
    } else {
        Ok(())
    }
}

/// What an enumeration call leaves in a buffer that held `before`: all of `items` from the
/// start where the call retrieves them, and in every other case what was there.
pub open spec fn enumerate_buffer<I>(input_count: u32, items: Seq<I>, before: Seq<I>) -> Seq<I> {
    if input_count != 0 && items.len() <= input_count {
        items + before.subrange(items.len() as int, before.len() as int)
    } else {
        before
    }
}

/// The two-call protocol for a result of variable length. The number of items is always
/// reported through `output_count`. With no room offered (`input_count` zero) or no buffer the
/// call is a query and succeeds without writing an item. With room for fewer items than
/// there are, it fails with `SizeInsufficient` and writes no item. Otherwise it copies every
/// item to the start of the buffer, in order, and leaves the rest of the buffer alone.
///
/// The buffer, where there is one, must be as long as the caller says with `input_count`.
pub fn enumerate<I: Copy>(
    input_count: u32,
    output_count: &mut Option<u32>,
    items_ptr: Option<&mut [I]>,
    items: &[I],
) -> (outcome: Result<(), XrError>)
    requires
        items@.len() <= u32::MAX,
        items_ptr matches Some(buffer) ==> buffer@.len() >= input_count,
    ensures
        *final(output_count) == Some(items@.len() as u32),
        outcome == enumerate_outcome(input_count, items_ptr is Some, items@.len()),
        items_ptr matches Some(buffer) ==> final(buffer)@ == enumerate_buffer(
            input_count,
            items@,
            buffer@,
        ),
{
    let count: usize = items.len();
    *output_count = Some(count as u32);
    match items_ptr {
        None => Ok(()),
        Some(buffer) => {
            if input_count == 0 {
                return Ok(());
            }
            if input_count < count as u32 {
                return Err(XrError::SizeInsufficient);
            }
            let ghost before = buffer@;
            let mut i: usize = 0;
            while i < count
                invariant
                    i <= count,
                    count == items@.len(),
                    buffer@.len() == before.len(),
                    count <= before.len(),
                    forall|j: int| 0 <= j < i ==> buffer@[j] == items@[j],
                    forall|j: int| i <= j < before.len() ==> buffer@[j] == before[j],
                decreases count - i,
            {
                buffer[i] = items[i];
                i += 1;
            }
            Ok(())
        },
    }
}

/// A call that offers no room is a query: it succeeds and leaves the buffer as it was,
/// however many items there are.
pub proof fn lemma_query_succeeds<I>(has_buffer: bool, items: Seq<I>, before: Seq<I>)
    ensures
        enumerate_outcome(0, has_buffer, items.len()) is Ok,
        enumerate_buffer(0, items, before) == before,
{
}

/// A call with a buffer and with room for some items, but for fewer than there are, fails
/// with `SizeInsufficient` and leaves the buffer as it was.
pub proof fn lemma_short_buffer_refused<I>(input_count: u32, items: Seq<I>, before: Seq<I>)
    requires
        0 < input_count < items.len(),
    ensures
        enumerate_outcome(input_count, true, items.len()) matches Err(XrError::SizeInsufficient),
        enumerate_buffer(input_count, items, before) == before,
{
}

/// A call with room for every item succeeds. Where it has a buffer and the room is not zero,
/// the buffer then starts with the items in order and is unchanged behind them.
pub proof fn lemma_enough_room_copies<I>(
    input_count: u32,
    has_buffer: bool,
    items: Seq<I>,
    before: Seq<I>,
)
    requires
        items.len() <= input_count,
        input_count <= before.len(),
    ensures
        enumerate_outcome(input_count, has_buffer, items.len()) is Ok,
        enumerate_buffer(input_count, items, before).len() == before.len(),
        enumerate_buffer(input_count, items, before).subrange(0, items.len() as int) == items,
        forall|j: int|
            items.len() <= j < before.len() ==> enumerate_buffer(input_count, items, before)[j]
                == before[j],
{
}


/// Decodes bytes as UTF-8 with `core::str::from_utf8`: the result is a string exactly where
/// the bytes are well-formed UTF-8, and that string is then encoded by those same bytes.
#[verifier::external_body]
fn utf8_text(bytes: &[u8]) -> (text: Option<&str>)
    ensures
        text is Some <==> valid_utf8(bytes@),
        text matches Some(s) ==> s.spec_bytes() == bytes@,
{
    match core::str::from_utf8(bytes) {
        Ok(s) => Some(s),
        Err(_) => None,
    }
}

/// The text of a string argument of the interface: what its bytes decode to, where the
/// argument is there and its bytes are UTF-8.
pub open spec fn text_of(ptr: Option<Seq<u8>>) -> Option<Seq<char>> {
    match ptr {
        Some(bytes) => if valid_utf8(bytes) {
            Some(decode_utf8(bytes))
        } else {
            None
        },
        None => None,
    }
}

/// Reads a string argument of the interface from the bytes in front of its terminator.
/// A missing argument (`None`, a null pointer at the interface) and bytes that are not
/// UTF-8 are both refused with `ValidationFailure`.
pub fn str_from_const_char<'a>(ptr: Option<&'a [u8]>) -> (text: Result<&'a str, XrError>)
    ensures
        match text {
            Ok(s) => ptr is Some && s.spec_bytes() == ptr->0@ && text_of(given(ptr)) == Some(s@),
            Err(e) => e == XrError::ValidationFailure && text_of(given(ptr)) is None,
        },
{
    match ptr {
        None => Err(XrError::ValidationFailure),
        Some(bytes) => match utf8_text(bytes) {
            Some(s) => {
                proof {
                    encode_utf8_decode_utf8(s@);
                }
                Ok(s)
            },
            None => Err(XrError::ValidationFailure),
        },
    }
}

/// The bytes of a string argument, as plain values.
pub open spec fn given(argument: Option<&[u8]>) -> Option<Seq<u8>> {
    match argument {
        Some(bytes) => Some(bytes@),
        None => None,
    }
}

/// The bytes of a string argument that is kept for later, as plain values.
pub open spec fn bytes_of(argument: Option<Vec<u8>>) -> Option<Seq<u8>> {
    match argument {
        Some(bytes) => Some(bytes@),
        None => None,
    }
}

/// Reads a string argument that was kept for later, as `str_from_const_char` reads one.
pub fn read_text<'a>(argument: &'a Option<Vec<u8>>) -> (text: Result<&'a str, XrError>)
    ensures
        match text {
            Ok(s) => text_of(bytes_of(*argument)) == Some(s@),
            Err(e) => e == XrError::ValidationFailure && text_of(bytes_of(*argument)) is None,
        },
{
    match argument {
        Some(bytes) => str_from_const_char(Some(bytes.as_slice())),
        None => Err(XrError::ValidationFailure),
    }
}

/// Whether a structure type is that of a graphics binding.
pub open spec fn is_graphics_binding(structure_type: i32) -> bool {
    structure_type == 1000023000 || structure_type == 1000023001 || structure_type == 1000023002
        || structure_type == 1000023003 || structure_type == 1000024001 || structure_type
        == 1000025000 || structure_type == 1000027000 || structure_type == 1000028000
        || structure_type == 1000029000 || structure_type == 1000048004
}

/// Whether a chain of structures, given by the type of each, holds a graphics binding.
pub open spec fn chain_has_graphics(chain: Seq<i32>) -> bool {
    exists|i: int| 0 <= i < chain.len() && is_graphics_binding(#[trigger] chain[i])
}

/// Whether a structure type is that of a graphics binding: one of the OpenGL, OpenGL ES,
/// Vulkan, Direct3D, Metal and EGL bindings.
pub fn graphics_binding(structure_type: i32) -> (yes: bool)
    ensures
        yes == is_graphics_binding(structure_type),
{
    structure_type == 1000023000 || structure_type == 1000023001 || structure_type == 1000023002
        || structure_type == 1000023003 || structure_type == 1000024001 || structure_type
        == 1000025000 || structure_type == 1000027000 || structure_type == 1000028000
        || structure_type == 1000029000 || structure_type == 1000048004
}

/// Whether a chain of structures, given by the type of each, holds a graphics binding.
pub fn has_graphics_binding(chain: &[i32]) -> (yes: bool)
    ensures
        yes == chain_has_graphics(chain@),
{
    let n: usize = chain.len();
    let mut i: usize = 0;
    while i < n
        invariant
            i <= n,
            n == chain@.len(),
            forall|j: int| 0 <= j < i ==> !is_graphics_binding(#[trigger] chain@[j]),
        decreases n - i,
    {
        if graphics_binding(chain[i]) {
            return true;
        }
        i += 1;
    }
    false
}

/// What `copy_str_to_buffer` leaves in a buffer that held `before`: the string's bytes as C
/// characters, a terminating zero, and behind it what was there.
pub open spec fn terminated_in(bytes: Seq<u8>, before: Seq<i8>) -> Seq<i8> {
    c_chars_of(bytes).push(0i8) + before.subrange(bytes.len() as int + 1, before.len() as int)
}

/// Copies a string to the start of a buffer of C characters and terminates it with a zero.
/// The buffer must have room for the string's bytes and the terminator.
pub fn copy_str_to_buffer(string: &str, buf: &mut [i8])
    requires
        string.spec_bytes().len() < old(buf)@.len(),
    ensures
        final(buf)@ == terminated_in(string.spec_bytes(), old(buf)@),
{
    let chars = as_c_chars(string.as_bytes());
    let count: usize = chars.len();
    let ghost before = buf@;
    let mut i: usize = 0;
    while i < count
        invariant
            i <= count,
            count == chars@.len(),
            count < before.len(),
            buf@.len() == before.len(),
            forall|j: int| 0 <= j < i ==> buf@[j] == chars@[j],
            forall|j: int| i <= j < before.len() ==> buf@[j] == before[j],
        decreases count - i,
    {
        buf[i] = chars[i];
        i += 1;
    }
    buf[count] = 0;
}

} // verus!
