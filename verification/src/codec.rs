//! Field codecs of the wire protocol.
//!
//! Every multi-byte integer is big-endian; signed fields are two's
//! complement. Fractional quantities never leave the integers here: a
//! FLOAT40 is kept as its exponent and mantissa, a scaled field as an exact
//! quotient.

use crate::error::{too_short, WireError};
use vstd::prelude::*;

verus! {

// ---------------------------------------------------------------------------
// What the bytes mean
// ---------------------------------------------------------------------------

/// The unsigned value of the two bytes of `s` at `at`, most significant first.
pub open spec fn be_u16(s: Seq<u8>, at: int) -> int {
    s[at] as int * 0x100 + s[at + 1] as int
}

/// The unsigned value of the three bytes of `s` at `at`.
pub open spec fn be_u24(s: Seq<u8>, at: int) -> int {
    s[at] as int * 0x1_0000 + s[at + 1] as int * 0x100 + s[at + 2] as int
}

/// The unsigned value of the four bytes of `s` at `at`.
pub open spec fn be_u32(s: Seq<u8>, at: int) -> int {
    s[at] as int * 0x100_0000 + s[at + 1] as int * 0x1_0000 + s[at + 2] as int * 0x100 + s[at
        + 3] as int
}

/// `v`, an unsigned value below `2 * half`, read as two's complement.
pub open spec fn sign_extend(v: int, half: int) -> int {
    if v >= half {
        v - 2 * half
    } else {
        v
    }
}

/// The signed value of the two bytes of `s` at `at`.
pub open spec fn be_i16(s: Seq<u8>, at: int) -> int {
    sign_extend(be_u16(s, at), 0x8000)
}

/// The signed value of the three bytes of `s` at `at`, sign-extended from
/// 24 bits.
pub open spec fn be_i24(s: Seq<u8>, at: int) -> int {
    sign_extend(be_u24(s, at), 0x80_0000)
}

/// The signed value of the four bytes of `s` at `at`.
pub open spec fn be_i32(s: Seq<u8>, at: int) -> int {
    sign_extend(be_u32(s, at), 0x8000_0000)
}

/// The low two bytes of `v` in two's complement, most significant first.
pub open spec fn be_bytes2(v: int) -> Seq<u8> {
    let u = v % 0x1_0000;
    seq![(u / 0x100) as u8, (u % 0x100) as u8]
}

/// The low three bytes of `v` in two's complement.
pub open spec fn be_bytes3(v: int) -> Seq<u8> {
    let u = v % 0x100_0000;
    seq![(u / 0x1_0000) as u8, ((u / 0x100) % 0x100) as u8, (u % 0x100) as u8]
}

/// The low four bytes of `v` in two's complement.
pub open spec fn be_bytes4(v: int) -> Seq<u8> {
    let u = v % 0x1_0000_0000;
    seq![
        (u / 0x100_0000) as u8,
        ((u / 0x1_0000) % 0x100) as u8,
        ((u / 0x100) % 0x100) as u8,
        (u % 0x100) as u8,
    ]
}

// ---------------------------------------------------------------------------
// Fractional quantities
// ---------------------------------------------------------------------------

/// A FLOAT40 field: the number `mantissa * 2^(exponent - 23)`.
///
/// On the wire it is five bytes, a signed 16-bit exponent followed by a
/// signed 24-bit mantissa. Every field with a zero mantissa is the number
/// zero and is kept as [`Float40::zero`].
#[derive(Debug, Clone, Copy, PartialEq, Eq, Structural)]
pub struct Float40 {
    pub exponent: i16,
    pub mantissa: i32,
}

/// An exact quotient `num / den`: a raw integer field and the factor that
/// scales it.
#[derive(Debug, Clone, Copy, PartialEq, Eq, Structural)]
pub struct Ratio {
    pub num: i64,
    pub den: i64,
}

impl Ratio {
    /// The quotient of `num` and `den`.
    pub open spec fn of(num: int, den: int) -> Ratio {
        Ratio { num: num as i64, den: den as i64 }
    }

    /// The number zero.
    pub fn zero() -> (r: Ratio)
        ensures
            r == Ratio::of(0, 1),
    {
        Ratio { num: 0, den: 1 }
    }
}

/// The sign bit of an IEEE-754 double given by its bit pattern.
pub open spec fn ieee_sign(bits: u64) -> bool {
    bits >= 0x8000_0000_0000_0000
}

/// The eleven exponent bits of an IEEE-754 double.
pub open spec fn ieee_exponent(bits: u64) -> int {
    (bits as int / 0x10_0000_0000_0000) % 0x800
}

/// The fifty-two fraction bits of an IEEE-754 double.
pub open spec fn ieee_fraction(bits: u64) -> int {
    bits as int % 0x10_0000_0000_0000
}

/// The significand with its leading one, scaled down to 23 bits.
pub open spec fn float40_magnitude(bits: u64) -> int {
    (0x10_0000_0000_0000 + ieee_fraction(bits)) / 0x4000_0000
}

impl Float40 {
    /// Whether the mantissa fits the 24 bits it has on the wire.
    pub open spec fn wf(self) -> bool {
        -0x80_0000 <= self.mantissa < 0x80_0000
    }

    /// The field with the given raw exponent and mantissa: zero whenever the
    /// mantissa is zero, whatever the exponent.
    pub open spec fn of_wire(exponent: int, mantissa: int) -> Float40 {
        if mantissa == 0 {
            Float40 { exponent: 0, mantissa: 0 }
        } else {
            Float40 { exponent: exponent as i16, mantissa: mantissa as i32 }
        }
    }

    /// The field that stands for the IEEE-754 double with bit pattern `bits`.
    ///
    /// Both zeros give zero. Otherwise the double is split, as `frexp` does,
    /// into a fraction in `[0.5, 1)` and a binary exponent: the exponent
    /// field is the biased exponent less 1022, the mantissa the fraction
    /// scaled to 23 bits, with the sign of the double.
    pub open spec fn of_f64_bits(bits: u64) -> Float40 {
        if bits == 0 || bits == 0x8000_0000_0000_0000 {
            Float40 { exponent: 0, mantissa: 0 }
        } else {
            Float40 {
                exponent: (ieee_exponent(bits) - 1022) as i16,
                mantissa: (if ieee_sign(bits) {
                    -float40_magnitude(bits)
                } else {
                    float40_magnitude(bits)
                }) as i32,
            }
        }
    }

    /// The five bytes of the field on the wire.
    pub open spec fn wire_bytes(self) -> Seq<u8> {
        be_bytes2(self.exponent as int) + be_bytes3(self.mantissa as int)
    }

    /// The number zero.
    pub fn zero() -> (v: Float40)
        ensures
            v == Float40::of_wire(0, 0),
            v.wf(),
    {
        Float40 { exponent: 0, mantissa: 0 }
    }

    /// Whether this is the number zero.
    pub fn is_zero(&self) -> (z: bool)
        ensures
            z == (self.mantissa == 0),
    {
        self.mantissa == 0
    }

    /// Converts from the bit pattern of an IEEE-754 double, as
    /// `f64::to_bits` gives it.
    pub fn from_f64_bits(bits: u64) -> (v: Float40)
        ensures
            v == Float40::of_f64_bits(bits),
            v.wf(),
    {
        if bits == 0 || bits == 0x8000_0000_0000_0000 {
            return Float40 { exponent: 0, mantissa: 0 };
        }
        let negative = bits >= 0x8000_0000_0000_0000;
        let biased: u64 = (bits / 0x10_0000_0000_0000) % 0x800;
        let fraction: u64 = bits % 0x10_0000_0000_0000;
        let magnitude: u64 = (0x10_0000_0000_0000 + fraction) / 0x4000_0000;
        let mantissa: i32 = if negative {
            -(magnitude as i32)
        } else {
            magnitude as i32
        };
        Float40 { exponent: (biased as i16) - 1022, mantissa }
    }
}

/// The FLOAT40 field of `s` at `at`.
pub open spec fn float40_at(s: Seq<u8>, at: int) -> Float40 {
    Float40::of_wire(be_i16(s, at), be_i24(s, at + 2))
}

/// The signed 24-bit field of `s` at `at`, over `scale`.
pub open spec fn ratio24_at(s: Seq<u8>, at: int, scale: int) -> Ratio {
    Ratio::of(be_i24(s, at), scale)
}

/// The signed 16-bit field of `s` at `at`, over `scale`.
pub open spec fn ratio16_at(s: Seq<u8>, at: int, scale: int) -> Ratio {
    Ratio::of(be_i16(s, at), scale)
}

// ---------------------------------------------------------------------------
// Readers
// ---------------------------------------------------------------------------

/// Checks that `need` bytes lie at `offset`; the error names the field kind.
fn check_len(data: &[u8], offset: usize, need: usize, name: &'static str) -> (r: Result<
    (),
    WireError,
>)
    requires
        offset + need <= usize::MAX,
    ensures
        match r {
            Ok(_) => offset + need <= data@.len(),
            Err(e) => data@.len() < offset + need && e@ == too_short(
                name@,
                (offset + need) as nat,
                data@.len(),
            ),
        },
{
    if data.len() < offset + need {
        Err(WireError::payload_too_short(name, offset + need, data.len()))
    } else {
        Ok(())
    }
}

/// Reads a big-endian signed 16-bit integer.
pub fn read_int16(data: &[u8], offset: usize) -> (r: Result<i16, WireError>)
    requires
        offset + 2 <= usize::MAX,
    ensures
        match r {
            Ok(v) => offset + 2 <= data@.len() && v == be_i16(data@, offset as int),
            Err(e) => data@.len() < offset + 2 && e@ == too_short(
                "INT16"@,
                (offset + 2) as nat,
                data@.len(),
            ),
        },
{
    match check_len(data, offset, 2, "INT16") {
        Err(e) => Err(e),
        Ok(_) => {
            let raw: i32 = (data[offset] as i32) * 0x100 + (data[offset + 1] as i32);
            Ok(
                if raw >= 0x8000 {
                    (raw - 0x1_0000) as i16
                } else {
                    raw as i16
                },
            )
        },
    }
}

/// Reads a big-endian unsigned 16-bit integer.
pub fn read_uint16(data: &[u8], offset: usize) -> (r: Result<u16, WireError>)
    requires
        offset + 2 <= usize::MAX,
    ensures
        match r {
            Ok(v) => offset + 2 <= data@.len() && v == be_u16(data@, offset as int),
            Err(e) => data@.len() < offset + 2 && e@ == too_short(
                "UINT16"@,
                (offset + 2) as nat,
                data@.len(),
            ),
        },
{
    match check_len(data, offset, 2, "UINT16") {
        Err(e) => Err(e),
        Ok(_) => Ok((data[offset] as u16) * 0x100 + (data[offset + 1] as u16)),
    }
}

/// Reads a big-endian signed 24-bit integer, sign-extended to 32 bits.
pub fn read_int24(data: &[u8], offset: usize) -> (r: Result<i32, WireError>)
    requires
        offset + 3 <= usize::MAX,
    ensures
        match r {
            Ok(v) => offset + 3 <= data@.len() && v == be_i24(data@, offset as int),
            Err(e) => data@.len() < offset + 3 && e@ == too_short(
                "INT24"@,
                (offset + 3) as nat,
                data@.len(),
            ),
        },
{
    match check_len(data, offset, 3, "INT24") {
        Err(e) => Err(e),
        Ok(_) => {
            let raw: i32 = (data[offset] as i32) * 0x1_0000 + (data[offset + 1] as i32) * 0x100 + (
            data[offset + 2] as i32);
            Ok(
                if raw >= 0x80_0000 {
                    raw - 0x100_0000
                } else {
                    raw
                },
            )
        },
    }
}

/// Reads a big-endian unsigned 24-bit integer.
pub fn read_uint24(data: &[u8], offset: usize) -> (r: Result<u32, WireError>)
    requires
        offset + 3 <= usize::MAX,
    ensures
        match r {
            Ok(v) => offset + 3 <= data@.len() && v == be_u24(data@, offset as int),
            Err(e) => data@.len() < offset + 3 && e@ == too_short(
                "UINT24"@,
                (offset + 3) as nat,
                data@.len(),
            ),
        },
{
    match check_len(data, offset, 3, "UINT24") {
        Err(e) => Err(e),
        Ok(_) => Ok(
            (data[offset] as u32) * 0x1_0000 + (data[offset + 1] as u32) * 0x100 + (data[offset
                + 2] as u32),
        ),
    }
}

/// Reads a big-endian signed 32-bit integer.
pub fn read_int32(data: &[u8], offset: usize) -> (r: Result<i32, WireError>)
    requires
        offset + 4 <= usize::MAX,
    ensures
        match r {
            Ok(v) => offset + 4 <= data@.len() && v == be_i32(data@, offset as int),
            Err(e) => data@.len() < offset + 4 && e@ == too_short(
                "INT32"@,
                (offset + 4) as nat,
                data@.len(),
            ),
        },
{
    match check_len(data, offset, 4, "INT32") {
        Err(e) => Err(e),
        Ok(_) => {
            let raw: i64 = (data[offset] as i64) * 0x100_0000 + (data[offset + 1] as i64)
                * 0x1_0000 + (data[offset + 2] as i64) * 0x100 + (data[offset + 3] as i64);
            Ok(
                if raw >= 0x8000_0000 {
                    (raw - 0x1_0000_0000) as i32
                } else {
                    raw as i32
                },
            )
        },
    }
}

/// Reads a big-endian unsigned 32-bit integer.
pub fn read_uint32(data: &[u8], offset: usize) -> (r: Result<u32, WireError>)
    requires
        offset + 4 <= usize::MAX,
    ensures
        match r {
            Ok(v) => offset + 4 <= data@.len() && v == be_u32(data@, offset as int),
            Err(e) => data@.len() < offset + 4 && e@ == too_short(
                "UINT32"@,
                (offset + 4) as nat,
                data@.len(),
            ),
        },
{
    match check_len(data, offset, 4, "UINT32") {
        Err(e) => Err(e),
        Ok(_) => Ok(
            (data[offset] as u32) * 0x100_0000 + (data[offset + 1] as u32) * 0x1_0000 + (
            data[offset + 2] as u32) * 0x100 + (data[offset + 3] as u32),
        ),
    }
}

/// Reads a FLOAT40: a signed 16-bit exponent, then a signed 24-bit mantissa.
/// A zero mantissa reads as zero whatever the exponent says.
pub fn read_float40(data: &[u8], offset: usize) -> (r: Result<Float40, WireError>)
    requires
        offset + 5 <= usize::MAX,
    ensures
        match r {
            Ok(v) => offset + 5 <= data@.len() && v == float40_at(data@, offset as int) && v.wf(),
            Err(e) => data@.len() < offset + 5 && e@ == too_short(
                "FLOAT40"@,
                (offset + 5) as nat,
                data@.len(),
            ),
        },
{
    match check_len(data, offset, 5, "FLOAT40") {
        Err(e) => Err(e),
        Ok(_) => {
            let exponent = match read_int16(data, offset) {
                Ok(v) => v,
                Err(e) => {
                    return Err(e);
                },
            };
            let mantissa = match read_int24(data, offset + 2) {
                Ok(v) => v,
                Err(e) => {
                    return Err(e);
                },
            };
            if mantissa == 0 {
                Ok(Float40 { exponent: 0, mantissa: 0 })
            } else {
                Ok(Float40 { exponent, mantissa })
            }
        },
    }
}

/// Reads a signed 24-bit integer that stands for `value * scale`.
pub fn read_int24_scaled(data: &[u8], offset: usize, scale: i64) -> (r: Result<Ratio, WireError>)
    requires
        offset + 3 <= usize::MAX,
    ensures
        match r {
            Ok(v) => offset + 3 <= data@.len() && v == ratio24_at(
                data@,
                offset as int,
                scale as int,
            ),
            Err(e) => data@.len() < offset + 3 && e@ == too_short(
                "INT24"@,
                (offset + 3) as nat,
                data@.len(),
            ),
        },
{
    match read_int24(data, offset) {
        Ok(v) => Ok(Ratio { num: v as i64, den: scale }),
        Err(e) => Err(e),
    }
}

/// Reads a signed 16-bit integer that stands for `value * scale`.
pub fn read_int16_scaled(data: &[u8], offset: usize, scale: i64) -> (r: Result<Ratio, WireError>)
    requires
        offset + 2 <= usize::MAX,
    ensures
        match r {
            Ok(v) => offset + 2 <= data@.len() && v == ratio16_at(
                data@,
                offset as int,
                scale as int,
            ),
            Err(e) => data@.len() < offset + 2 && e@ == too_short(
                "INT16"@,
                (offset + 2) as nat,
                data@.len(),
            ),
        },
{
    match read_int16(data, offset) {
        Ok(v) => Ok(Ratio { num: v as i64, den: scale }),
        Err(e) => Err(e),
    }
}

// ---------------------------------------------------------------------------
// Writers
// ---------------------------------------------------------------------------

/// Appends the low two bytes of `v`, which lies in `0..2^16`.
fn push_be2(buf: &mut Vec<u8>, v: u32)
    requires
        v < 0x1_0000,
    ensures
        final(buf)@ == old(buf)@ + be_bytes2(v as int),
{
    buf.push((v / 0x100) as u8);
    buf.push((v % 0x100) as u8);
    assert(buf@ =~= old(buf)@ + be_bytes2(v as int));
}

/// Appends the low three bytes of `v`, which lies in `0..2^24`.
fn push_be3(buf: &mut Vec<u8>, v: u32)
    requires
        v < 0x100_0000,
    ensures
        final(buf)@ == old(buf)@ + be_bytes3(v as int),
{
    buf.push((v / 0x1_0000) as u8);
    buf.push(((v / 0x100) % 0x100) as u8);
    buf.push((v % 0x100) as u8);
    assert(buf@ =~= old(buf)@ + be_bytes3(v as int));
}

/// Appends the four bytes of `v`.
fn push_be4(buf: &mut Vec<u8>, v: u32)
    ensures
        final(buf)@ == old(buf)@ + be_bytes4(v as int),
{
    buf.push((v / 0x100_0000) as u8);
    buf.push(((v / 0x1_0000) % 0x100) as u8);
    buf.push(((v / 0x100) % 0x100) as u8);
    buf.push((v % 0x100) as u8);
    assert(buf@ =~= old(buf)@ + be_bytes4(v as int));
}

/// Appends a big-endian signed 16-bit integer.
pub fn write_int16(buf: &mut Vec<u8>, val: i16)
    ensures
        final(buf)@ == old(buf)@ + be_bytes2(val as int),
{
    let low: u32 = if val < 0 {
        (val as i32 + 0x1_0000) as u32
    } else {
        val as u32
    };
    assert(low as int == (val as int) % 0x1_0000);
    push_be2(buf, low);
}

/// Appends a big-endian unsigned 16-bit integer.
pub fn write_uint16(buf: &mut Vec<u8>, val: u16)
    ensures
        final(buf)@ == old(buf)@ + be_bytes2(val as int),
{
    push_be2(buf, val as u32);
}

/// Appends the low three bytes of `val`, most significant first. A value
/// within 24 bits reads back unchanged.
pub fn write_int24(buf: &mut Vec<u8>, val: i32)
    ensures
        final(buf)@ == old(buf)@ + be_bytes3(val as int),
{
    let low: i64 = (val as i64 + 0x8000_0000) % 0x100_0000;
    assert(low as int == (val as int) % 0x100_0000);
    push_be3(buf, low as u32);
}

/// Appends the low three bytes of `val`, most significant first.
pub fn write_uint24(buf: &mut Vec<u8>, val: u32)
    ensures
        final(buf)@ == old(buf)@ + be_bytes3(val as int),
{
    let low: u32 = val % 0x100_0000;
    push_be3(buf, low);
}

/// Appends a big-endian signed 32-bit integer.
pub fn write_int32(buf: &mut Vec<u8>, val: i32)
    ensures
        final(buf)@ == old(buf)@ + be_bytes4(val as int),
{
    let low: u32 = if val < 0 {
        (val as i64 + 0x1_0000_0000) as u32
    } else {
        val as u32
    };
    assert(low as int == (val as int) % 0x1_0000_0000);
    push_be4(buf, low);
}

/// Appends a big-endian unsigned 32-bit integer.
pub fn write_uint32(buf: &mut Vec<u8>, val: u32)
    ensures
        final(buf)@ == old(buf)@ + be_bytes4(val as int),
{
    push_be4(buf, val);
}

/// Appends a FLOAT40: the exponent as a signed 16-bit integer, then the low
/// 24 bits of the mantissa.
pub fn write_float40(buf: &mut Vec<u8>, value: Float40)
    ensures
        final(buf)@ == old(buf)@ + value.wire_bytes(),
{
    write_int16(buf, value.exponent);
    write_int24(buf, value.mantissa);
    assert(buf@ =~= old(buf)@ + value.wire_bytes());
}

// ---------------------------------------------------------------------------
// Laws
// ---------------------------------------------------------------------------

/// A 16-bit value is the sum of its two bytes, each at its weight.
proof fn lemma_split2(u: u32)
    by (bit_vector)
    requires
        u < 0x1_0000,
    ensures
        u / 0x100 < 0x100,
        u == (u / 0x100) * 0x100 + u % 0x100,
{
}

/// A 24-bit value is the sum of its three bytes, each at its weight.
proof fn lemma_split3(u: u32)
    by (bit_vector)
    requires
        u < 0x100_0000,
    ensures
        u / 0x1_0000 < 0x100,
        u == (u / 0x1_0000) * 0x1_0000 + ((u / 0x100) % 0x100) * 0x100 + u % 0x100,
{
}

/// A 32-bit value is the sum of its four bytes, each at its weight.
proof fn lemma_split4(u: u32)
    by (bit_vector)
    ensures
        u / 0x100_0000 < 0x100,
        u == (u / 0x100_0000) * 0x100_0000 + ((u / 0x1_0000) % 0x100) * 0x1_0000 + ((u / 0x100)
            % 0x100) * 0x100 + u % 0x100,
{
}

/// An unsigned 16-bit value appended to any buffer reads back unchanged.
pub proof fn lemma_uint16_round_trip(buf: Seq<u8>, x: int)
    requires
        0 <= x < 0x1_0000,
    ensures
        be_u16(buf + be_bytes2(x), buf.len() as int) == x,
{
    lemma_split2(x as u32);
}

/// A signed 16-bit value appended to any buffer reads back unchanged.
pub proof fn lemma_int16_round_trip(buf: Seq<u8>, x: int)
    requires
        -0x8000 <= x < 0x8000,
    ensures
        be_i16(buf + be_bytes2(x), buf.len() as int) == x,
{
    let u = x % 0x1_0000;
    assert(be_bytes2(u) == be_bytes2(x));
    lemma_uint16_round_trip(buf, u);
}

/// An unsigned value within 24 bits appended to any buffer reads back
/// unchanged.
pub proof fn lemma_uint24_round_trip(buf: Seq<u8>, x: int)
    requires
        0 <= x < 0x100_0000,
    ensures
        be_u24(buf + be_bytes3(x), buf.len() as int) == x,
{
    lemma_split3(x as u32);
}

/// A signed value within 24 bits appended to any buffer reads back
/// unchanged.
pub proof fn lemma_int24_round_trip(buf: Seq<u8>, x: int)
    requires
        -0x80_0000 <= x < 0x80_0000,
    ensures
        be_i24(buf + be_bytes3(x), buf.len() as int) == x,
{
    let u = x % 0x100_0000;
    assert(be_bytes3(u) == be_bytes3(x));
    lemma_uint24_round_trip(buf, u);
}

/// An unsigned 32-bit value appended to any buffer reads back unchanged.
pub proof fn lemma_uint32_round_trip(buf: Seq<u8>, x: int)
    requires
        0 <= x < 0x1_0000_0000,
    ensures
        be_u32(buf + be_bytes4(x), buf.len() as int) == x,
{
    lemma_split4(x as u32);
}

/// A signed 32-bit value appended to any buffer reads back unchanged.
pub proof fn lemma_int32_round_trip(buf: Seq<u8>, x: int)
    requires
        -0x8000_0000 <= x < 0x8000_0000,
    ensures
        be_i32(buf + be_bytes4(x), buf.len() as int) == x,
{
    let u = x % 0x1_0000_0000;
    assert(be_bytes4(u) == be_bytes4(x));
    lemma_uint32_round_trip(buf, u);
}

/// A FLOAT40 whose mantissa fits its 24 bits, and whose exponent is zero
/// when it is the number zero, reads back from its bytes unchanged.
pub proof fn lemma_float40_round_trip(buf: Seq<u8>, v: Float40)
    requires
        v.wf(),
        v.mantissa == 0 ==> v.exponent == 0,
    ensures
        float40_at(buf + v.wire_bytes(), buf.len() as int) == v,
{
    let w = buf + v.wire_bytes();
    let n = buf.len() as int;
    assert(w =~= (buf + be_bytes2(v.exponent as int)) + be_bytes3(v.mantissa as int));
    lemma_int24_round_trip(buf + be_bytes2(v.exponent as int), v.mantissa as int);
    lemma_int16_round_trip(buf, v.exponent as int);
    assert(w[n] == (buf + be_bytes2(v.exponent as int))[n]);
    assert(w[n + 1] == (buf + be_bytes2(v.exponent as int))[n + 1]);
}

/// The all-zero field is the number zero, and zero is written as five zero
/// bytes.
pub proof fn lemma_float40_zero()
    ensures
        Float40::of_wire(0, 0).wire_bytes() == seq![0u8, 0u8, 0u8, 0u8, 0u8],
        Float40::of_f64_bits(0) == Float40::of_wire(0, 0),
        float40_at(seq![0u8, 0u8, 0u8, 0u8, 0u8], 0) == Float40::of_wire(0, 0),
{
    assert(Float40::of_wire(0, 0).wire_bytes() =~= seq![0u8, 0u8, 0u8, 0u8, 0u8]);
}

/// The field made from a double survives the wire: its mantissa fits, zero
/// has a zero exponent, and the exponent lies within the 16 bits it has.
pub proof fn lemma_float40_of_bits_wf(bits: u64)
    ensures
        Float40::of_f64_bits(bits).wf(),
        Float40::of_f64_bits(bits).mantissa == 0 ==> Float40::of_f64_bits(bits).exponent == 0,
        Float40::of_f64_bits(bits).exponent as int == if bits == 0 || bits
            == 0x8000_0000_0000_0000 {
            0
        } else {
            ieee_exponent(bits) - 1022
        },
{
}

/// The mantissa made from a non-zero double keeps the 23 leading bits of its
/// 53-bit significand: at least `2^22` in magnitude, and off by less than
/// one unit of the last kept bit, so by less than `2^-22` of the value.
pub proof fn lemma_float40_accuracy(bits: u64)
    requires
        bits != 0 && bits != 0x8000_0000_0000_0000,
    ensures
        0x40_0000 <= float40_magnitude(bits) < 0x80_0000,
        float40_magnitude(bits) * 0x4000_0000 <= 0x10_0000_0000_0000 + ieee_fraction(bits)
            < (float40_magnitude(bits) + 1) * 0x4000_0000,
{
}

} // verus!
