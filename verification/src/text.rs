use vstd::prelude::*;
use vstd::string::StringSliceAdditionalSpecFns;
use vstd::utf8::encode_utf8_decode_utf8;

verus! {

/// The C character that has the same bit pattern as the byte `b`.
pub open spec fn c_char_of(b: u8) -> i8 {
    if b < 128 {
        b as i8
    } else {
        (b as int - 256) as i8
    }
}

/// A byte string read as C characters, position by position.
pub open spec fn c_chars_of(bytes: Seq<u8>) -> Seq<i8> {
    Seq::new(bytes.len(), |i: int| c_char_of(bytes[i]))
}

/// `bytes` in a buffer of `size` C characters: cut off at `size`, and followed by zeros up to
/// `size` where it is shorter.
pub open spec fn padded(bytes: Seq<u8>, size: nat) -> Seq<i8> {
    Seq::new(
        size,
        |i: int|
            if i < bytes.len() {
                c_char_of(bytes[i])
            } else {
                0i8
            },
    )
}

/// The text of one decimal digit.
pub open spec fn digit(d: nat) -> Seq<char> {
    if d == 0 {
        "0"@
    } else if d == 1 {
        "1"@
    } else if d == 2 {
        "2"@
    } else if d == 3 {
        "3"@
    } else if d == 4 {
        "4"@
    } else if d == 5 {
        "5"@
    } else if d == 6 {
        "6"@
    } else if d == 7 {
        "7"@
    } else if d == 8 {
        "8"@
    } else {
        "9"@
    }
}

/// The decimal numeral of `n`, without leading zeros.
pub open spec fn decimal(n: nat) -> Seq<char>
    decreases n,
{
    if n < 10 {
        digit(n)
    } else {
        decimal(n / 10) + digit(n % 10)
    }
}

/// The decimal numeral of `i`, with a minus sign in front where `i` is negative.
pub open spec fn signed_decimal(i: int) -> Seq<char> {
    if i < 0 {
        "-"@ + decimal((-i) as nat)
    } else {
        decimal(i as nat)
    }
}

/// Reads bytes as C characters through `bytemuck::cast_slice`, which reinterprets the slice in
/// place: the result has the length of `bytes`, and each character has the bit pattern of the
/// byte at its position. Both element types are one byte wide, so the cast cannot fail.
#[verifier::external_body]
pub(crate) fn as_c_chars(bytes: &[u8]) -> (chars: &[i8])
    ensures
        chars@ == c_chars_of(bytes@),
{
    bytemuck::cast_slice(bytes)
}

fn digit_text(d: u64) -> (r: &'static str)
    requires
        d < 10,
    ensures
        r@ == digit(d as nat),
{
    if d == 0 {
        "0"
    } else if d == 1 {
        "1"
    } else if d == 2 {
        "2"
    } else if d == 3 {
        "3"
    } else if d == 4 {
        "4"
    } else if d == 5 {
        "5"
    } else if d == 6 {
        "6"
    } else if d == 7 {
        "7"
    } else if d == 8 {
        "8"
    } else {
        "9"
    }
}

/// Appends the decimal numeral of `n` to `out`.
pub fn push_decimal(out: &mut String, n: u64)
    ensures
        final(out)@ == old(out)@ + decimal(n as nat),
    decreases n,
{
    if n >= 10 {
        push_decimal(out, n / 10);
    }
    out.append(digit_text(n % 10));
}

/// Appends the decimal numeral of `i` to `out`, with its sign where `i` is negative.
pub fn push_signed_decimal(out: &mut String, i: i32)
    ensures
        final(out)@ == old(out)@ + signed_decimal(i as int),
{
    if i < 0 {
        let magnitude: i64 = -(i as i64);
        out.append("-");
        push_decimal(out, magnitude as u64);
    } else {
        push_decimal(out, i as u64);
    }
}

/// Whether two strings hold the same text.
pub fn same_text(a: &str, b: &str) -> (same: bool)
    ensures
        same == (a@ == b@),
{
    let x = a.as_bytes();
    let y = b.as_bytes();
    proof {
        encode_utf8_decode_utf8(a@);
        encode_utf8_decode_utf8(b@);
    }
    if x.len() != y.len() {
        return false;
    }
    let n: usize = x.len();
    let mut i: usize = 0;
    while i < n
        invariant
            i <= n,
            x@.len() == n,
            y@.len() == n,
            x@ == a.spec_bytes(),
            y@ == b.spec_bytes(),
            forall|j: int| 0 <= j < i ==> x@[j] == y@[j],
        decreases n - i,
    {
        if x[i] != y[i] {
            return false;
        }
        i += 1;
    }
    assert(x@ =~= y@);
    true
}

/// Fills `buffer` with `bytes` as C characters, cut off at the buffer's length, and with zeros
/// behind them up to the buffer's end.
pub fn write_padded(buffer: &mut [i8], bytes: &[u8])
    ensures
        final(buffer)@ == padded(bytes@, old(buffer)@.len()),
{
    let chars = as_c_chars(bytes);
    let size: usize = buffer.len();
    let given: usize = chars.len();
    let mut i: usize = 0;
    while i < size
        invariant
            i <= size,
            buffer@.len() == size,
            chars@ == c_chars_of(bytes@),
            given == bytes@.len(),
            forall|j: int| 0 <= j < i ==> buffer@[j] == padded(bytes@, size as nat)[j],
        decreases size - i,
    {
        if i < given {
            buffer[i] = chars[i];
        } else {
            buffer[i] = 0;
        }
        i += 1;
    }
}

} // verus!
