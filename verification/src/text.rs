//! Text in payloads and in diagnostics: lossy UTF-8 decoding, control-byte
//! trimming, substring search, and hexadecimal and decimal rendering.

use crate::bytes::{find_byte, find_from};
use vstd::prelude::*;
use vstd::slice::slice_subrange;
use vstd::utf8::{encode_utf8, valid_utf8};

verus! {

// ---------------------------------------------------------------------------
// Decoding
// ---------------------------------------------------------------------------

/// The text that lossy UTF-8 decoding makes of `bytes`: each well-formed
/// sequence gives its character, each malformed one `U+FFFD`.
pub uninterp spec fn lossy_text(bytes: Seq<u8>) -> Seq<char>;

/// Decodes bytes as UTF-8, putting `U+FFFD` where they are malformed.
///
/// Calls `String::from_utf8_lossy`. The contract names the result, and says
/// of well-formed UTF-8 what the standard library documents: the string is
/// those very bytes.
#[verifier::external_body]
pub(crate) fn utf8_lossy(bytes: &[u8]) -> (s: String)
    ensures
        s@ == lossy_text(bytes@),
        valid_utf8(bytes@) ==> encode_utf8(s@) == bytes@,
{
    String::from_utf8_lossy(bytes).into_owned()
}

/// Appends one character.
///
/// Calls `String::push`, which puts the character at the end of the string.
#[verifier::external_body]
pub(crate) fn push_char(s: &mut String, c: char)
    ensures
        final(s)@ == old(s)@.push(c),
{
    s.push(c);
}

/// Whether `pattern` occurs in `text` as a run of consecutive characters.
pub open spec fn has_substring(text: Seq<char>, pattern: Seq<char>) -> bool {
    exists|i: int|
        0 <= i <= text.len() - pattern.len() && #[trigger] text.subrange(i, i + pattern.len())
            == pattern
}

/// Whether `pattern` occurs in `text`.
///
/// Calls `str::contains` with a string pattern, which is true exactly when
/// the pattern matches a sub-slice of the text.
#[verifier::external_body]
pub(crate) fn text_contains(text: &str, pattern: &str) -> (found: bool)
    ensures
        found == has_substring(text@, pattern@),
{
    text.contains(pattern)
}

/// The bytes of a null-terminated slot: those before the first zero byte,
/// or all of them where there is none.
pub open spec fn cstr_bytes(slot: Seq<u8>) -> Seq<u8> {
    slot.take(find_byte(slot, 0, 0))
}

/// Decodes a null-terminated string from a fixed-width slot.
pub fn decode_cstr(slot: &[u8]) -> (s: String)
    ensures
        s@ == lossy_text(cstr_bytes(slot@)),
        valid_utf8(cstr_bytes(slot@)) ==> encode_utf8(s@) == cstr_bytes(slot@),
{
    let end = find_from(slot, 0, 0);
    utf8_lossy(slice_subrange(slot, 0, end))
}

/// Whether a byte is printable: not a control byte.
pub open spec fn is_printable(b: u8) -> bool {
    b >= 0x20
}

/// One past the last printable byte of `s`; zero where there is none.
pub open spec fn printable_end(s: Seq<u8>) -> int
    decreases s.len(),
{
    if s.len() == 0 {
        0
    } else if is_printable(s.last()) {
        s.len() as int
    } else {
        printable_end(s.drop_last())
    }
}

/// The first printable byte of `s` at or after `from`; `s.len()` where
/// there is none.
pub open spec fn printable_start(s: Seq<u8>, from: int) -> int
    decreases s.len() - from,
{
    if from >= s.len() {
        s.len() as int
    } else if from >= 0 && is_printable(s[from]) {
        from
    } else {
        printable_start(s, from + 1)
    }
}

/// `s` without the control bytes at either end.
pub open spec fn trim_control(s: Seq<u8>) -> Seq<u8> {
    let end = printable_end(s);
    s.subrange(printable_start(s.take(end), 0), end)
}

/// Decodes a text payload, leaving out the control bytes and nulls at
/// either end.
pub fn decode_trimmed(payload: &[u8]) -> (s: String)
    ensures
        s@ == lossy_text(trim_control(payload@)),
        valid_utf8(trim_control(payload@)) ==> encode_utf8(s@) == trim_control(payload@),
{
    let mut end: usize = payload.len();
    assert(payload@.take(end as int) =~= payload@);
    while end > 0 && payload[end - 1] < 0x20
        invariant
            end <= payload@.len(),
            printable_end(payload@) == printable_end(payload@.take(end as int)),
        decreases end,
    {
        proof {
            assert(payload@.take(end as int).drop_last() =~= payload@.take(end - 1));
        }
        end -= 1;
    }
    proof {
        if end > 0 {
            assert(payload@.take(end as int).last() == payload@[end - 1]);
        }
    }
    let head = slice_subrange(payload, 0, end);
    let mut start: usize = 0;
    while start < end && head[start] < 0x20
        invariant
            start <= end,
            end == head@.len(),
            printable_start(head@, 0) == printable_start(head@, start as int),
        decreases end - start,
    {
        start += 1;
    }
    proof {
        assert(head@.subrange(start as int, end as int) =~= payload@.subrange(
            start as int,
            end as int,
        ));
    }
    utf8_lossy(slice_subrange(head, start, end))
}

// ---------------------------------------------------------------------------
// Rendering
// ---------------------------------------------------------------------------

/// The upper-case hexadecimal digit for a value below sixteen.
pub open spec fn hex_digit(n: int) -> char {
    if n == 0 {
        '0'
    } else if n == 1 {
        '1'
    } else if n == 2 {
        '2'
    } else if n == 3 {
        '3'
    } else if n == 4 {
        '4'
    } else if n == 5 {
        '5'
    } else if n == 6 {
        '6'
    } else if n == 7 {
        '7'
    } else if n == 8 {
        '8'
    } else if n == 9 {
        '9'
    } else if n == 10 {
        'A'
    } else if n == 11 {
        'B'
    } else if n == 12 {
        'C'
    } else if n == 13 {
        'D'
    } else if n == 14 {
        'E'
    } else {
        'F'
    }
}

/// A byte as two upper-case hexadecimal digits.
pub open spec fn hex_byte(b: u8) -> Seq<char> {
    seq![hex_digit(b as int / 16), hex_digit(b as int % 16)]
}

/// The bytes of `s` in hexadecimal, with `sep` between one byte and the
/// next.
pub open spec fn hex_bytes(s: Seq<u8>, sep: Seq<char>) -> Seq<char>
    decreases s.len(),
{
    if s.len() == 0 {
        Seq::empty()
    } else if s.len() == 1 {
        hex_byte(s[0])
    } else {
        hex_bytes(s.drop_last(), sep) + sep + hex_byte(s.last())
    }
}

/// A natural number in decimal, without leading zeros.
pub open spec fn decimal(n: nat) -> Seq<char>
    decreases n,
{
    if n < 10 {
        seq![hex_digit(n as int)]
    } else {
        decimal(n / 10).push(hex_digit((n % 10) as int))
    }
}

/// The hexadecimal digit for a value below sixteen.
fn digit_char(n: u8) -> (c: char)
    requires
        n < 16,
    ensures
        c == hex_digit(n as int),
{
    if n == 0 {
        '0'
    } else if n == 1 {
        '1'
    } else if n == 2 {
        '2'
    } else if n == 3 {
        '3'
    } else if n == 4 {
        '4'
    } else if n == 5 {
        '5'
    } else if n == 6 {
        '6'
    } else if n == 7 {
        '7'
    } else if n == 8 {
        '8'
    } else if n == 9 {
        '9'
    } else if n == 10 {
        'A'
    } else if n == 11 {
        'B'
    } else if n == 12 {
        'C'
    } else if n == 13 {
        'D'
    } else if n == 14 {
        'E'
    } else {
        'F'
    }
}

/// Appends a byte as two hexadecimal digits.
pub fn push_hex_byte(s: &mut String, b: u8)
    ensures
        final(s)@ == old(s)@ + hex_byte(b),
{
    push_char(s, digit_char(b / 16));
    push_char(s, digit_char(b % 16));
    assert(s@ =~= old(s)@ + hex_byte(b));
}

/// Appends the first `limit` bytes of `data` in hexadecimal, with `sep`
/// between one byte and the next.
pub fn push_hex_bytes(s: &mut String, data: &[u8], limit: usize, sep: &str)
    ensures
        final(s)@ == old(s)@ + hex_bytes(
            data@.take(
                if limit <= data@.len() {
                    limit as int
                } else {
                    data@.len() as int
                },
            ),
            sep@,
        ),
{
    let n: usize = if limit <= data.len() {
        limit
    } else {
        data.len()
    };
    let mut i: usize = 0;
    assert(data@.take(0) =~= Seq::<u8>::empty());
    assert(s@ =~= old(s)@ + hex_bytes(data@.take(0), sep@));
    while i < n
        invariant
            i <= n <= data@.len(),
            s@ == old(s)@ + hex_bytes(data@.take(i as int), sep@),
        decreases n - i,
    {
        let ghost before = s@;
        proof {
            assert(data@.take(i + 1).drop_last() =~= data@.take(i as int));
            assert(data@.take(i + 1).last() == data@[i as int]);
        }
        if i > 0 {
            s.append(sep);
        }
        push_hex_byte(s, data[i]);
        proof {
            if i == 0 {
                assert(data@.take(1)[0] == data@[0]);
                assert(s@ =~= old(s)@ + hex_bytes(data@.take(1), sep@));
            } else {
                assert(s@ =~= old(s)@ + (hex_bytes(data@.take(i as int), sep@) + sep@ + hex_byte(
                    data@[i as int],
                )));
            }
        }
        i += 1;
    }
}

/// Appends a number in decimal.
pub fn push_decimal(s: &mut String, n: usize)
    ensures
        final(s)@ == old(s)@ + decimal(n as nat),
    decreases n,
{
    if n >= 10 {
        push_decimal(s, n / 10);
    }
    push_char(s, digit_char((n % 10) as u8));
    assert(s@ =~= old(s)@ + decimal(n as nat));
}

} // verus!
