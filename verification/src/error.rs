//! Errors of the wire layer and their mathematical model.

use crate::text::{hex_bytes, push_hex_bytes};
use vstd::prelude::*;
use vstd::slice::slice_to_vec;
use vstd::string::StringExecFns;

verus! {

/// The error that `String::from_utf8` reports. It is only carried, never
/// inspected.
#[verifier::external_type_specification]
#[verifier::external_body]
pub struct ExFromUtf8Error(std::string::FromUtf8Error);

/// Errors arising from wire protocol parsing and encoding.
#[allow(inconsistent_fields)]
#[derive(Debug)]
pub enum WireError {
    /// A frame shorter than the smallest legal frame (7 bytes on the wire,
    /// 5 once unstuffed).
    FrameTooShort { len: usize },
    /// The first byte is not the start sentinel `0xF0`.
    MissingStart { got: u8 },
    /// The last byte is not the end sentinel `0xF1`.
    MissingEnd,
    /// An escape byte `0xFD` followed by a code outside `1..=4`.
    InvalidEscape { code: u8, offset: usize },
    /// The received checksum differs from the sum of the stuffed bytes.
    ChecksumMismatch { expected: u16, computed: u16 },
    /// A byte that names no peer of the bus.
    UnknownBusAddr { addr: u8 },
    /// A payload with fewer bytes than the message needs.
    PayloadTooShort {
        msg_type: &'static str,
        need: usize,
        got: usize,
        /// Raw unstuffed payload bytes for diagnostics.
        raw: Vec<u8>,
    },
    /// Reserved: a FLOAT40 with a non-zero exponent and a zero mantissa.
    /// No reader raises it; such a field decodes as zero.
    InvalidFloat40,
    /// Reserved: a text payload that is not UTF-8.
    InvalidString(std::string::FromUtf8Error),
    /// A payload whose length marker is not one the message knows.
    UnexpectedLength {
        msg_type: &'static str,
        expected: usize,
        got: usize,
        /// Raw unstuffed payload bytes for diagnostics.
        raw: Vec<u8>,
    },
}

/// What a [`WireError`] says, with text and bytes as sequences.
#[allow(inconsistent_fields)]
pub enum WireFault {
    FrameTooShort { len: nat },
    MissingStart { got: u8 },
    MissingEnd,
    InvalidEscape { code: u8, offset: nat },
    ChecksumMismatch { expected: u16, computed: u16 },
    UnknownBusAddr { addr: u8 },
    PayloadTooShort { msg_type: Seq<char>, need: nat, got: nat, raw: Seq<u8> },
    InvalidFloat40,
    InvalidString,
    UnexpectedLength { msg_type: Seq<char>, expected: nat, got: nat, raw: Seq<u8> },
}

impl View for WireError {
    type V = WireFault;

    open spec fn view(&self) -> WireFault {
        match *self {
            WireError::FrameTooShort { len } => WireFault::FrameTooShort { len: len as nat },
            WireError::MissingStart { got } => WireFault::MissingStart { got },
            WireError::MissingEnd => WireFault::MissingEnd,
            WireError::InvalidEscape { code, offset } => WireFault::InvalidEscape {
                code,
                offset: offset as nat,
            },
            WireError::ChecksumMismatch { expected, computed } => WireFault::ChecksumMismatch {
                expected,
                computed,
            },
            WireError::UnknownBusAddr { addr } => WireFault::UnknownBusAddr { addr },
            WireError::PayloadTooShort { msg_type, need, got, raw } => WireFault::PayloadTooShort {
                msg_type: msg_type@,
                need: need as nat,
                got: got as nat,
                raw: raw@,
            },
            WireError::InvalidFloat40 => WireFault::InvalidFloat40,
            WireError::InvalidString(_) => WireFault::InvalidString,
            WireError::UnexpectedLength { msg_type, expected, got, raw } => {
                WireFault::UnexpectedLength {
                    msg_type: msg_type@,
                    expected: expected as nat,
                    got: got as nat,
                    raw: raw@,
                }
            },
        }
    }
}

/// The fault of a payload that is `got` bytes long where `need` are needed,
/// before any raw bytes are attached.
pub open spec fn too_short(msg_type: Seq<char>, need: nat, got: nat) -> WireFault {
    WireFault::PayloadTooShort { msg_type, need, got, raw: Seq::empty() }
}

/// The fault of a payload whose length marker is `got` where `expected` was
/// looked for, before any raw bytes are attached.
pub open spec fn unexpected_length(msg_type: Seq<char>, expected: nat, got: nat) -> WireFault {
    WireFault::UnexpectedLength { msg_type, expected, got, raw: Seq::empty() }
}

/// `fault` with `raw` attached where the fault has room for raw bytes.
pub open spec fn fault_with_raw(fault: WireFault, raw: Seq<u8>) -> WireFault {
    match fault {
        WireFault::PayloadTooShort { msg_type, need, got, .. } => WireFault::PayloadTooShort {
            msg_type,
            need,
            got,
            raw,
        },
        WireFault::UnexpectedLength { msg_type, expected, got, .. } => {
            WireFault::UnexpectedLength { msg_type, expected, got, raw }
        },
        other => other,
    }
}

impl WireError {
    /// A `PayloadTooShort` error with no raw bytes yet.
    pub fn payload_too_short(msg_type: &'static str, need: usize, got: usize) -> (e: Self)
        ensures
            e@ == too_short(msg_type@, need as nat, got as nat),
    {
        WireError::PayloadTooShort { msg_type, need, got, raw: Vec::new() }
    }

    /// An `UnexpectedLength` error with no raw bytes yet.
    pub fn unexpected_length(msg_type: &'static str, expected: usize, got: usize) -> (e: Self)
        ensures
            e@ == unexpected_length(msg_type@, expected as nat, got as nat),
    {
        WireError::UnexpectedLength { msg_type, expected, got, raw: Vec::new() }
    }

    /// Attaches the payload bytes to the payload-level errors; every other
    /// error comes back unchanged.
    pub fn with_raw(self, payload: &[u8]) -> (e: Self)
        ensures
            e@ == fault_with_raw(self@, payload@),
    {
        match self {
            WireError::PayloadTooShort { msg_type, need, got, raw: _ } => {
                WireError::PayloadTooShort { msg_type, need, got, raw: slice_to_vec(payload) }
            },
            WireError::UnexpectedLength { msg_type, expected, got, raw: _ } => {
                WireError::UnexpectedLength {
                    msg_type,
                    expected,
                    got,
                    raw: slice_to_vec(payload),
                }
            },
            other => other,
        }
    }
}

/// The text of [`format_raw_suffix`].
pub open spec fn raw_suffix(raw: Seq<u8>) -> Seq<char> {
    if raw.len() == 0 {
        Seq::empty()
    } else if raw.len() <= 16 {
        " | "@ + hex_bytes(raw, Seq::empty())
    } else {
        " | "@ + hex_bytes(raw.take(16), Seq::empty()) + "..."@
    }
}

/// Renders raw bytes as the tail of an error message, such as
/// ` | 9E0003`: nothing for no bytes, at most sixteen bytes in hexadecimal,
/// and an ellipsis where there are more.
pub fn format_raw_suffix(raw: &[u8]) -> (s: String)
    ensures
        s@ == raw_suffix(raw@),
{
    if raw.len() == 0 {
        return String::new();
    }
    let mut s = String::from_str(" | ");
    push_hex_bytes(&mut s, raw, 16, "");
    if raw.len() > 16 {
        s.append("...");
    }
    proof {
        reveal_strlit("");
        assert(""@ =~= Seq::<char>::empty());
        assert(raw@.take(raw@.len() as int) =~= raw@);
        assert(s@ =~= raw_suffix(raw@));
    }
    s
}

} // verus!
