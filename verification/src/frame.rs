//! Framing: sentinels, byte stuffing, checksum and the stream splitter.
//!
//! On the link a frame is
//! `F0 [STUFFED( DEST SRC TYPE PAYLOAD... CS_HI CS_LO )] F1`.

use crate::addr::BusAddr;
use crate::bytes::{append_bytes, find_byte, find_from, lemma_find_byte, lemma_find_byte_unique};
use crate::error::{WireError, WireFault};
use vstd::prelude::*;
use vstd::slice::{slice_subrange, slice_to_vec};

verus! {

/// The sentinel that opens a frame.
pub const START: u8 = 0xF0;

/// The sentinel that closes a frame.
pub const END: u8 = 0xF1;

/// The byte that introduces an escaped octet.
pub const ESC: u8 = 0xFD;

// ---------------------------------------------------------------------------
// Byte stuffing
// ---------------------------------------------------------------------------

/// Whether `b` is one of the four octets that never travel as they are.
pub open spec fn is_reserved(b: u8) -> bool {
    b == 0xF0 || b == 0xF1 || b == 0xFD || b == 0xFA
}

/// The code that follows the escape byte for the reserved octet `b`.
pub open spec fn escape_code(b: u8) -> u8 {
    if b == 0xF0 {
        1
    } else if b == 0xF1 {
        2
    } else if b == 0xFD {
        3
    } else {
        4
    }
}

/// Whether `code` may follow the escape byte.
pub open spec fn is_escape_code(code: u8) -> bool {
    1 <= code <= 4
}

/// The reserved octet that the escape code `code` stands for.
pub open spec fn unescape(code: u8) -> u8 {
    if code == 1 {
        0xF0
    } else if code == 2 {
        0xF1
    } else if code == 3 {
        0xFD
    } else {
        0xFA
    }
}

/// One octet as it travels: itself, or the escape byte and a code.
pub open spec fn stuff_byte(b: u8) -> Seq<u8> {
    if is_reserved(b) {
        seq![ESC, escape_code(b)]
    } else {
        seq![b]
    }
}

/// A byte string as it travels inside a frame.
pub open spec fn stuff(s: Seq<u8>) -> Seq<u8>
    decreases s.len(),
{
    if s.len() == 0 {
        Seq::empty()
    } else {
        stuff_byte(s[0]) + stuff(s.drop_first())
    }
}

/// The outcome of removing the stuffing from the interior of a frame.
pub enum Unstuffed {
    /// The decoded octets, and for each the offset in the interior at which
    /// its encoding begins.
    Bytes { bytes: Seq<u8>, starts: Seq<int> },
    /// The first escape byte, at `offset`, that no legal code follows;
    /// `code` is zero where the interior ends with the escape byte.
    BadEscape { code: u8, offset: int },
}

/// `rest` with the octets `bytes`, encoded at `starts`, in front of it.
pub open spec fn unstuffed_after(bytes: Seq<u8>, starts: Seq<int>, rest: Unstuffed) -> Unstuffed {
    match rest {
        Unstuffed::Bytes { bytes: more, starts: more_starts } => Unstuffed::Bytes {
            bytes: bytes + more,
            starts: starts + more_starts,
        },
        bad => bad,
    }
}

/// Removes the stuffing from `s`, reading from offset `from` to the end.
pub open spec fn unstuff_from(s: Seq<u8>, from: int) -> Unstuffed
    decreases s.len() - from,
{
    if from < 0 || from >= s.len() {
        Unstuffed::Bytes { bytes: Seq::empty(), starts: Seq::empty() }
    } else if s[from] == ESC {
        if from + 1 >= s.len() {
            Unstuffed::BadEscape { code: 0, offset: from }
        } else if !is_escape_code(s[from + 1]) {
            Unstuffed::BadEscape { code: s[from + 1], offset: from }
        } else {
            unstuffed_after(seq![unescape(s[from + 1])], seq![from], unstuff_from(s, from + 2))
        }
    } else {
        unstuffed_after(seq![s[from]], seq![from], unstuff_from(s, from + 1))
    }
}

/// Removes the stuffing from the whole of `s`.
pub open spec fn unstuff(s: Seq<u8>) -> Unstuffed {
    unstuff_from(s, 0)
}

// ---------------------------------------------------------------------------
// Checksum
// ---------------------------------------------------------------------------

/// The sum of the bytes of `s`.
pub open spec fn byte_sum(s: Seq<u8>) -> int
    decreases s.len(),
{
    if s.len() == 0 {
        0
    } else {
        byte_sum(s.drop_last()) + s.last() as int
    }
}

/// The 16-bit unsigned sum of the bytes of `s`.
pub open spec fn checksum(s: Seq<u8>) -> int {
    byte_sum(s) % 0x1_0000
}

/// Computes the 16-bit unsigned sum of `data`.
fn sum16(data: &[u8]) -> (cs: u16)
    ensures
        cs as int == checksum(data@),
{
    let mut acc: u16 = 0;
    let mut i: usize = 0;
    while i < data.len()
        invariant
            i <= data@.len(),
            acc as int == checksum(data@.take(i as int)),
        decreases data@.len() - i,
    {
        proof {
            assert(data@.take(i + 1).drop_last() =~= data@.take(i as int));
        }
        acc = ((acc as u32 + data[i] as u32) % 0x1_0000) as u16;
        i += 1;
    }
    proof {
        assert(data@.take(i as int) =~= data@);
    }
    acc
}

// ---------------------------------------------------------------------------
// Frames
// ---------------------------------------------------------------------------

/// A parsed frame with unstuffed header fields and payload.
#[derive(Debug, Clone)]
pub struct RawFrame {
    pub dest: BusAddr,
    pub src: BusAddr,
    pub type_id: u8,
    pub payload: Vec<u8>,
}

/// A frame with its payload as a sequence.
pub struct FrameView {
    pub dest: BusAddr,
    pub src: BusAddr,
    pub type_id: u8,
    pub payload: Seq<u8>,
}

impl View for RawFrame {
    type V = FrameView;

    open spec fn view(&self) -> FrameView {
        FrameView {
            dest: self.dest,
            src: self.src,
            type_id: self.type_id,
            payload: self.payload@,
        }
    }
}

/// The unstuffed bytes that the checksum protects: destination, source,
/// type and payload.
pub open spec fn frame_body(f: FrameView) -> Seq<u8> {
    seq![f.dest.byte(), f.src.byte(), f.type_id] + f.payload
}

/// The frame `f` with the checksum `cs` as it travels on the link.
pub open spec fn wire_with_checksum(f: FrameView, cs: int) -> Seq<u8> {
    seq![START] + stuff(frame_body(f)) + stuff(crate::codec::be_bytes2(cs)) + seq![END]
}

/// The frame `f` as it travels on the link: the checksum is the sum of the
/// stuffed body.
pub open spec fn encode_spec(f: FrameView) -> Seq<u8> {
    wire_with_checksum(f, checksum(stuff(frame_body(f))))
}

/// What the unstuffed interior `bytes`, encoded at `starts` in `interior`,
/// holds, for a frame of `len` bytes on the wire.
pub open spec fn parse_unstuffed(
    len: nat,
    interior: Seq<u8>,
    bytes: Seq<u8>,
    starts: Seq<int>,
) -> Result<FrameView, WireFault> {
    let n = bytes.len() as int;
    if n < 5 {
        Err(WireFault::FrameTooShort { len })
    } else {
        let expected = bytes[n - 2] as int * 0x100 + bytes[n - 1] as int;
        let computed = checksum(interior.take(starts[n - 2]));
        if expected != computed {
            Err(
                WireFault::ChecksumMismatch {
                    expected: expected as u16,
                    computed: computed as u16,
                },
            )
        } else if !BusAddr::is_addr_byte(bytes[0]) {
            Err(WireFault::UnknownBusAddr { addr: bytes[0] })
        } else if !BusAddr::is_addr_byte(bytes[1]) {
            Err(WireFault::UnknownBusAddr { addr: bytes[1] })
        } else {
            Ok(
                FrameView {
                    dest: BusAddr::of_byte(bytes[0]),
                    src: BusAddr::of_byte(bytes[1]),
                    type_id: bytes[2],
                    payload: bytes.subrange(3, n - 2),
                },
            )
        }
    }
}

/// What a complete wire frame holds: the frame, or the first fault found.
///
/// The checks come in this order: length, start sentinel, end sentinel,
/// stuffing, unstuffed length, checksum, destination, source. The checksum
/// covers the stuffed bytes up to where the encoding of its own first byte
/// begins.
pub open spec fn parse_spec(wire: Seq<u8>) -> Result<FrameView, WireFault> {
    if wire.len() < 7 {
        Err(WireFault::FrameTooShort { len: wire.len() })
    } else if wire[0] != START {
        Err(WireFault::MissingStart { got: wire[0] })
    } else if wire[wire.len() - 1] != END {
        Err(WireFault::MissingEnd)
    } else {
        let interior = wire.subrange(1, wire.len() - 1);
        match unstuff(interior) {
            Unstuffed::BadEscape { code, offset } => Err(
                WireFault::InvalidEscape { code, offset: offset as nat },
            ),
            Unstuffed::Bytes { bytes, starts } => parse_unstuffed(
                wire.len(),
                interior,
                bytes,
                starts,
            ),
        }
    }
}

/// The result of a parse, with the frame and the error by their views.
pub open spec fn parse_result_view(r: Result<RawFrame, WireError>) -> Result<FrameView, WireFault> {
    match r {
        Ok(f) => Ok(f@),
        Err(e) => Err(e@),
    }
}

// ---------------------------------------------------------------------------
// Lemmas on stuffing
// ---------------------------------------------------------------------------

/// Stuffing goes byte by byte: the stuffing of a concatenation is the
/// concatenation of the stuffings.
pub proof fn lemma_stuff_concat(a: Seq<u8>, b: Seq<u8>)
    ensures
        stuff(a + b) == stuff(a) + stuff(b),
    decreases a.len(),
{
    if a.len() == 0 {
        assert(a + b =~= b);
        assert(stuff(a) + stuff(b) =~= stuff(b));
    } else {
        assert((a + b).drop_first() =~= a.drop_first() + b);
        lemma_stuff_concat(a.drop_first(), b);
        assert(stuff(a + b) =~= stuff(a) + stuff(b));
    }
}

/// The stuffing of a single byte.
pub proof fn lemma_stuff_one(b: u8)
    ensures
        stuff(seq![b]) == stuff_byte(b),
{
    assert(stuff(seq![b].drop_first()) =~= Seq::<u8>::empty());
    assert(stuff(seq![b]) =~= stuff_byte(b));
}

/// Stuffed bytes hold neither sentinel, and are at least as many as the
/// bytes they stand for.
pub proof fn lemma_stuff_has_no_sentinel(s: Seq<u8>)
    ensures
        s.len() <= stuff(s).len() <= 2 * s.len(),
        forall|k: int| 0 <= k < stuff(s).len() ==> stuff(s)[k] != START && stuff(s)[k] != END,
    decreases s.len(),
{
    if s.len() > 0 {
        lemma_stuff_has_no_sentinel(s.drop_first());
    }
}

/// Reading stuffed bytes back: wherever the stuffing of `a` lies in `w`,
/// unstuffing from there gives `a`, each byte at the offset where its own
/// stuffing begins, and then goes on with what follows.
pub proof fn lemma_unstuff_stuffed(w: Seq<u8>, at: int, a: Seq<u8>)
    requires
        0 <= at,
        at + stuff(a).len() <= w.len(),
        w.subrange(at, at + stuff(a).len()) == stuff(a),
    ensures
        unstuff_from(w, at) == unstuffed_after(
            a,
            Seq::new(a.len(), |k: int| at + stuff(a.take(k)).len()),
            unstuff_from(w, at + stuff(a).len()),
        ),
    decreases a.len(),
{
    let starts = Seq::new(a.len(), |k: int| at + stuff(a.take(k)).len());
    let after = unstuff_from(w, at + stuff(a).len());
    if a.len() == 0 {
        assert(stuff(a).len() == 0);
        match after {
            Unstuffed::Bytes { bytes, starts: st } => {
                assert(a + bytes =~= bytes);
                assert(starts + st =~= st);
            },
            _ => {},
        }
    } else {
        let head = a[0];
        let tail = a.drop_first();
        let sb = stuff_byte(head);
        let step = sb.len() as int;
        let sa = stuff(a);
        assert(sa == sb + stuff(tail));
        assert forall|j: int| 0 <= j < sa.len() implies w[at + j] == sa[j] by {
            assert(w.subrange(at, at + sa.len())[j] == w[at + j]);
        }
        assert(w[at] == sa[0]);
        if is_reserved(head) {
            assert(w[at + 1] == sa[1]);
            assert(sa[0] == ESC && sa[1] == escape_code(head));
            assert(unescape(escape_code(head)) == head);
        } else {
            assert(sa[0] == head);
        }
        assert(w.subrange(at + step, at + step + stuff(tail).len()) =~= stuff(tail)) by {
            assert forall|j: int| 0 <= j < stuff(tail).len() implies w[at + step + j] == stuff(
                tail,
            )[j] by {
                assert(sa[step + j] == stuff(tail)[j]);
            }
        }
        lemma_unstuff_stuffed(w, at + step, tail);
        let tail_starts = Seq::new(tail.len(), |k: int| at + step + stuff(tail.take(k)).len());
        assert(unstuff_from(w, at) == unstuffed_after(
            seq![head],
            seq![at],
            unstuff_from(w, at + step),
        ));
        assert(seq![at] + tail_starts =~= starts) by {
            assert forall|k: int| 0 <= k < a.len() implies (seq![at] + tail_starts)[k]
                == starts[k] by {
                if k == 0 {
                    assert(a.take(0) =~= Seq::<u8>::empty());
                    assert(stuff(a.take(0)).len() == 0);
                } else {
                    assert(a.take(k) =~= seq![head] + tail.take(k - 1));
                    lemma_stuff_concat(seq![head], tail.take(k - 1));
                    lemma_stuff_one(head);
                }
            }
        }
        match after {
            Unstuffed::Bytes { bytes, starts: st } => {
                assert(seq![head] + (tail + bytes) =~= a + bytes);
                assert(seq![at] + (tail_starts + st) =~= starts + st);
            },
            _ => {},
        }
    }
}

// ---------------------------------------------------------------------------
// Encoding and parsing
// ---------------------------------------------------------------------------

/// Byte-stuffs `data`: each of `F0`, `F1`, `FD`, `FA` becomes the escape
/// byte and a code.
pub fn stuff_bytes(data: &[u8]) -> (out: Vec<u8>)
    ensures
        out@ == stuff(data@),
{
    let mut out: Vec<u8> = Vec::new();
    let mut i: usize = 0;
    while i < data.len()
        invariant
            i <= data@.len(),
            out@ == stuff(data@.take(i as int)),
        decreases data@.len() - i,
    {
        let b = data[i];
        proof {
            assert(data@.take(i + 1) =~= data@.take(i as int) + seq![b]);
            lemma_stuff_concat(data@.take(i as int), seq![b]);
            lemma_stuff_one(b);
        }
        let ghost before = out@;
        if b == 0xF0 {
            out.push(ESC);
            out.push(0x01);
        } else if b == 0xF1 {
            out.push(ESC);
            out.push(0x02);
        } else if b == 0xFD {
            out.push(ESC);
            out.push(0x03);
        } else if b == 0xFA {
            out.push(ESC);
            out.push(0x04);
        } else {
            out.push(b);
        }
        assert(out@ =~= before + stuff_byte(b));
        i += 1;
    }
    assert(data@.take(i as int) =~= data@);
    out
}

impl RawFrame {
    /// Parses one complete wire frame, sentinels included.
    pub fn parse(wire: &[u8]) -> (r: Result<RawFrame, WireError>)
        ensures
            parse_result_view(r) == parse_spec(wire@),
    {
        let len = wire.len();
        if len < 7 {
            return Err(WireError::FrameTooShort { len });
        }
        if wire[0] != START {
            return Err(WireError::MissingStart { got: wire[0] });
        }
        if wire[len - 1] != END {
            return Err(WireError::MissingEnd);
        }
        let interior = slice_subrange(wire, 1, len - 1);
        let n_in = interior.len();

        // Unstuff the interior, keeping for each decoded byte the offset at
        // which its encoding begins.
        let mut bytes: Vec<u8> = Vec::new();
        let mut starts: Vec<usize> = Vec::new();
        let ghost mut at: Seq<int> = Seq::empty();
        let mut i: usize = 0;
        while i < n_in
            invariant
                len == wire@.len(),
                len >= 7,
                wire@[0] == START,
                wire@[len - 1] == END,
                interior@ == wire@.subrange(1, len - 1),
                n_in == interior@.len(),
                i <= n_in,
                bytes@.len() == at.len(),
                starts@.len() == at.len(),
                forall|k: int| 0 <= k < at.len() ==> starts@[k] as int == at[k] && 0 <= at[k] < n_in,
                unstuff(interior@) == unstuffed_after(bytes@, at, unstuff_from(interior@, i as int)),
            decreases n_in - i,
        {
            let b = interior[i];
            let ghost here = unstuff_from(interior@, i as int);
            if b == ESC {
                if i + 1 >= n_in {
                    return Err(WireError::InvalidEscape { code: 0x00, offset: i });
                }
                let code = interior[i + 1];
                let decoded: u8 = if code == 0x01 {
                    0xF0
                } else if code == 0x02 {
                    0xF1
                } else if code == 0x03 {
                    0xFD
                } else if code == 0x04 {
                    0xFA
                } else {
                    return Err(WireError::InvalidEscape { code, offset: i });
                };
                proof {
                    let rest = unstuff_from(interior@, i + 2);
                    assert(here == unstuffed_after(seq![decoded], seq![i as int], rest));
                    match rest {
                        Unstuffed::Bytes { bytes: more, starts: st } => {
                            assert(bytes@ + (seq![decoded] + more) =~= bytes@.push(decoded) + more);
                            assert(at + (seq![i as int] + st) =~= at.push(i as int) + st);
                        },
                        _ => {},
                    }
                    at = at.push(i as int);
                }
                bytes.push(decoded);
                starts.push(i);
                i += 2;
            } else {
                proof {
                    let rest = unstuff_from(interior@, i + 1);
                    assert(here == unstuffed_after(seq![b], seq![i as int], rest));
                    match rest {
                        Unstuffed::Bytes { bytes: more, starts: st } => {
                            assert(bytes@ + (seq![b] + more) =~= bytes@.push(b) + more);
                            assert(at + (seq![i as int] + st) =~= at.push(i as int) + st);
                        },
                        _ => {},
                    }
                    at = at.push(i as int);
                }
                bytes.push(b);
                starts.push(i);
                i += 1;
            }
        }
        proof {
            assert(bytes@ + Seq::<u8>::empty() =~= bytes@);
            assert(at + Seq::<int>::empty() =~= at);
            assert(unstuff(interior@) == (Unstuffed::Bytes { bytes: bytes@, starts: at }));
        }

        // At least DEST, SRC, TYPE and the two checksum bytes.
        let n = bytes.len();
        if n < 5 {
            return Err(WireError::FrameTooShort { len });
        }
        let cs_received: u16 = (bytes[n - 2] as u16) * 0x100 + (bytes[n - 1] as u16);

        // The checksum covers the stuffed bytes that come before it.
        let data_end = starts[n - 2];
        let cs_computed = sum16(slice_subrange(interior, 0, data_end));
        if cs_received != cs_computed {
            return Err(
                WireError::ChecksumMismatch { expected: cs_received, computed: cs_computed },
            );
        }
        let dest = match BusAddr::from_byte(bytes[0]) {
            Ok(a) => a,
            Err(e) => {
                return Err(e);
            },
        };
        let src = match BusAddr::from_byte(bytes[1]) {
            Ok(a) => a,
            Err(e) => {
                return Err(e);
            },
        };
        let type_id = bytes[2];
        let payload = slice_to_vec(slice_subrange(bytes.as_slice(), 3, n - 2));
        Ok(RawFrame { dest, src, type_id, payload })
    }

    /// Encodes the frame for the wire, with byte stuffing and checksum.
    pub fn encode(&self) -> (wire: Vec<u8>)
        ensures
            wire@ == encode_spec(self@),
    {
        let mut raw: Vec<u8> = Vec::new();
        raw.push(self.dest.as_byte());
        raw.push(self.src.as_byte());
        raw.push(self.type_id);
        append_bytes(&mut raw, self.payload.as_slice());
        assert(raw@ =~= frame_body(self@));

        let stuffed_data = stuff_bytes(raw.as_slice());
        let cs = sum16(stuffed_data.as_slice());
        let mut cs_bytes: Vec<u8> = Vec::new();
        cs_bytes.push((cs / 0x100) as u8);
        cs_bytes.push((cs % 0x100) as u8);
        assert(cs_bytes@ =~= crate::codec::be_bytes2(cs as int));
        let stuffed_cs = stuff_bytes(cs_bytes.as_slice());

        let mut wire: Vec<u8> = Vec::new();
        wire.push(START);
        append_bytes(&mut wire, stuffed_data.as_slice());
        append_bytes(&mut wire, stuffed_cs.as_slice());
        wire.push(END);
        assert(wire@ =~= encode_spec(self@));
        wire
    }
}

// ---------------------------------------------------------------------------
// Laws of the frame codec
// ---------------------------------------------------------------------------

/// What parsing makes of a frame sent with an arbitrary 16-bit checksum:
/// the frame itself where the checksum is the sum of the stuffed body, a
/// checksum mismatch that reports both values where it is anything else.
pub proof fn lemma_parse_wire_with_checksum(f: FrameView, cs: int)
    requires
        0 <= cs < 0x1_0000,
    ensures
        parse_spec(wire_with_checksum(f, cs)) == if cs == checksum(stuff(frame_body(f))) {
            Ok::<FrameView, WireFault>(f)
        } else {
            Err::<FrameView, WireFault>(
                WireFault::ChecksumMismatch {
                    expected: cs as u16,
                    computed: checksum(stuff(frame_body(f))) as u16,
                },
            )
        },
{
    let body = frame_body(f);
    let csb = crate::codec::be_bytes2(cs);
    let all = body + csb;
    let wire = wire_with_checksum(f, cs);
    let n = all.len() as int;
    lemma_stuff_has_no_sentinel(body);
    lemma_stuff_has_no_sentinel(csb);
    lemma_stuff_concat(body, csb);
    let interior = wire.subrange(1, wire.len() - 1);
    assert(interior =~= stuff(all));
    assert(interior.subrange(0, stuff(all).len() as int) =~= stuff(all));
    lemma_unstuff_stuffed(interior, 0, all);
    let starts = Seq::new(all.len(), |k: int| 0int + stuff(all.take(k)).len());
    assert(all + Seq::<u8>::empty() =~= all);
    assert(starts + Seq::<int>::empty() =~= starts);
    assert(unstuff(interior) == (Unstuffed::Bytes { bytes: all, starts }));
    assert(all.take(n - 2) =~= body);
    assert(starts[n - 2] == stuff(body).len());
    assert(interior.take(stuff(body).len() as int) =~= stuff(body));
    assert(all[n - 2] == csb[0] && all[n - 1] == csb[1]);
    assert(all[n - 2] as int * 0x100 + all[n - 1] as int == cs);
    assert(all[0] == f.dest.byte() && all[1] == f.src.byte() && all[2] == f.type_id);
    crate::addr::lemma_addr_round_trip(f.dest);
    crate::addr::lemma_addr_round_trip(f.src);
    assert(all.subrange(3, n - 2) =~= f.payload);
}

/// Parsing what was encoded gives the frame back, whatever its payload.
pub proof fn lemma_frame_round_trip(f: FrameView)
    ensures
        parse_spec(encode_spec(f)) == Ok::<FrameView, WireFault>(f),
{
    lemma_parse_wire_with_checksum(f, checksum(stuff(frame_body(f))));
}

/// A frame whose checksum was replaced by any other 16-bit value is
/// refused with a checksum mismatch.
pub proof fn lemma_corrupt_checksum_is_refused(f: FrameView, cs: int)
    requires
        0 <= cs < 0x1_0000,
        cs != checksum(stuff(frame_body(f))),
    ensures
        parse_spec(wire_with_checksum(f, cs)) == Err::<FrameView, WireFault>(
            WireFault::ChecksumMismatch {
                expected: cs as u16,
                computed: checksum(stuff(frame_body(f))) as u16,
            },
        ),
{
    lemma_parse_wire_with_checksum(f, cs);
}

// ---------------------------------------------------------------------------
// Stream splitter
// ---------------------------------------------------------------------------

/// What a byte stream splits into: the complete frames, in order, and the
/// bytes that stay buffered.
pub struct Split {
    pub frames: Seq<Seq<u8>>,
    pub rest: Seq<u8>,
}

/// Splits a byte stream into frames.
///
/// Everything before the first `F0` is dropped. From an `F0`, the frame
/// runs up to and including the next `F1`, whatever lies between. An `F0`
/// that no `F1` follows yet stays buffered with all that comes after it; a
/// stream without `F0` leaves nothing.
pub open spec fn split_frames(s: Seq<u8>) -> Split
    decreases s.len(),
    via split_frames_decreases
{
    let start = find_byte(s, START, 0);
    if start >= s.len() {
        Split { frames: Seq::empty(), rest: Seq::empty() }
    } else {
        let end = find_byte(s, END, start + 1);
        if end >= s.len() {
            Split { frames: Seq::empty(), rest: s.skip(start) }
        } else {
            let tail = split_frames(s.skip(end + 1));
            Split { frames: seq![s.subrange(start, end + 1)] + tail.frames, rest: tail.rest }
        }
    }
}

/// Every frame found leaves a shorter stream to split.
#[via_fn]
proof fn split_frames_decreases(s: Seq<u8>) {
    lemma_find_byte(s, START, 0);
    let start = find_byte(s, START, 0);
    if start < s.len() {
        lemma_find_byte(s, END, start + 1);
    }
}

/// Whether `s` holds no start sentinel.
pub open spec fn has_no_start(s: Seq<u8>) -> bool {
    forall|k: int| 0 <= k < s.len() ==> s[k] != START
}

/// Whether `w` has the shape of one frame on the wire: a start sentinel,
/// an end sentinel, and no end sentinel between them.
pub open spec fn is_delimited(w: Seq<u8>) -> bool {
    &&& w.len() >= 2
    &&& w[0] == START
    &&& w[w.len() - 1] == END
    &&& forall|k: int| 1 <= k < w.len() - 1 ==> w[k] != END
}

/// The views of the frames in `v`.
pub open spec fn frames_view(v: Seq<Vec<u8>>) -> Seq<Seq<u8>> {
    Seq::new(v.len(), |i: int| v[i]@)
}

/// Splits a byte stream into individual frames. It keeps partial data
/// between calls, so it can be fed a stream in chunks of any size.
pub struct FrameSplitter {
    buf: Vec<u8>,
}

impl FrameSplitter {
    /// The bytes held back so far: an unfinished frame, from its start
    /// sentinel on.
    pub closed spec fn buffered(&self) -> Seq<u8> {
        self.buf@
    }

    /// A splitter that holds nothing.
    pub fn new() -> (s: Self)
        ensures
            s.buffered() == Seq::<u8>::empty(),
    {
        FrameSplitter { buf: Vec::new() }
    }

    /// Feeds new data and extracts the frames it completes.
    ///
    /// Each frame returned starts with `F0` and ends with `F1`. What is left
    /// of an unfinished frame stays buffered for the next call.
    pub fn feed(&mut self, data: &[u8]) -> (frames: Vec<Vec<u8>>)
        ensures
            frames_view(frames@) == split_frames(old(self).buffered() + data@).frames,
            final(self).buffered() == split_frames(old(self).buffered() + data@).rest,
    {
        append_bytes(&mut self.buf, data);
        let ghost whole = self.buf@;
        let total = self.buf.len();
        let mut frames: Vec<Vec<u8>> = Vec::new();
        let mut pos: usize = 0;
        assert(frames_view(frames@) =~= Seq::<Seq<u8>>::empty());
        assert(whole.skip(0) =~= whole);
        assert(frames_view(frames@) + split_frames(whole).frames =~= split_frames(whole).frames);
        loop
            invariant
                self.buf@ == whole,
                total == whole.len(),
                pos <= total,
                split_frames(whole).frames == frames_view(frames@) + split_frames(
                    whole.skip(pos as int),
                ).frames,
                split_frames(whole).rest == split_frames(whole.skip(pos as int)).rest,
                whole == old(self).buffered() + data@,
            decreases total - pos,
        {
            let ghost tail = whole.skip(pos as int);
            let start = find_from(self.buf.as_slice(), START, pos);
            proof {
                lemma_find_byte(whole, START, pos as int);
                assert forall|k: int| 0 <= k < start - pos implies tail[k] != START by {
                    assert(tail[k] == whole[pos + k]);
                }
                lemma_find_byte_unique(tail, START, 0, start - pos);
            }
            if start >= total {
                proof {
                    assert(frames_view(frames@) + Seq::<Seq<u8>>::empty() =~= frames_view(frames@));
                }
                self.buf.clear();
                return frames;
            }
            let end = find_from(self.buf.as_slice(), END, start + 1);
            proof {
                lemma_find_byte(whole, END, start + 1);
                assert forall|k: int| start - pos + 1 <= k < end - pos implies tail[k] != END by {
                    assert(tail[k] == whole[pos + k]);
                }
                lemma_find_byte_unique(tail, END, start - pos + 1, end - pos);
            }
            if end >= total {
                let rest = slice_to_vec(slice_subrange(self.buf.as_slice(), start, total));
                proof {
                    assert(frames_view(frames@) + Seq::<Seq<u8>>::empty() =~= frames_view(frames@));
                    assert(rest@ =~= tail.skip(start - pos));
                }
                self.buf = rest;
                return frames;
            }
            let frame = slice_to_vec(slice_subrange(self.buf.as_slice(), start, end + 1));
            proof {
                let next = split_frames(whole.skip(end + 1));
                assert(frame@ =~= tail.subrange(start - pos, end - pos + 1));
                assert(tail.skip(end - pos + 1) =~= whole.skip(end + 1));
                assert(split_frames(tail).frames == seq![frame@] + next.frames);
                assert(frames_view(frames@.push(frame)) =~= frames_view(frames@).push(frame@));
                assert(frames_view(frames@) + (seq![frame@] + next.frames) =~= frames_view(
                    frames@,
                ).push(frame@) + next.frames);
            }
            frames.push(frame);
            pos = end + 1;
        }
    }
}

impl Default for FrameSplitter {
    fn default() -> (s: Self)
        ensures
            s.buffered() == Seq::<u8>::empty(),
    {
        FrameSplitter::new()
    }
}

// ---------------------------------------------------------------------------
// Laws of the splitter
// ---------------------------------------------------------------------------

/// Bytes without a start sentinel in front of a stream change nothing:
/// they are dropped without a trace.
pub proof fn lemma_split_drops_garbage(garbage: Seq<u8>, s: Seq<u8>)
    requires
        has_no_start(garbage),
    ensures
        split_frames(garbage + s) == split_frames(s),
{
    let g = garbage.len() as int;
    let all = garbage + s;
    let start = find_byte(s, START, 0);
    lemma_find_byte(s, START, 0);
    assert forall|k: int| 0 <= k < g + start implies all[k] != START by {
        if k >= g {
            assert(all[k] == s[k - g]);
        }
    }
    lemma_find_byte_unique(all, START, 0, g + start);
    if start < s.len() {
        let end = find_byte(s, END, start + 1);
        lemma_find_byte(s, END, start + 1);
        assert forall|k: int| g + start + 1 <= k < g + end implies all[k] != END by {
            assert(all[k] == s[k - g]);
        }
        lemma_find_byte_unique(all, END, g + start + 1, g + end);
        if end < s.len() {
            assert(all.subrange(g + start, g + end + 1) =~= s.subrange(start, end + 1));
            assert(all.skip(g + end + 1) =~= s.skip(end + 1));
        } else {
            assert(all.skip(g + start) =~= s.skip(start));
        }
    }
}

/// A stream that begins with one whole frame splits into that frame and
/// then whatever the rest of the stream splits into.
pub proof fn lemma_split_takes_first_frame(w: Seq<u8>, rest: Seq<u8>)
    requires
        is_delimited(w),
    ensures
        split_frames(w + rest).frames == seq![w] + split_frames(rest).frames,
        split_frames(w + rest).rest == split_frames(rest).rest,
{
    let all = w + rest;
    let last = w.len() - 1;
    lemma_find_byte_unique(all, START, 0, 0);
    assert forall|k: int| 1 <= k < last implies all[k] != END by {
        assert(all[k] == w[k]);
    }
    assert(all[last] == w[last]);
    lemma_find_byte_unique(all, END, 1, last);
    assert(all.subrange(0, last + 1) =~= w);
    assert(all.skip(last + 1) =~= rest);
}

/// A frame as `encode` writes it has the shape that the splitter looks for:
/// stuffing leaves no sentinel inside.
pub proof fn lemma_encoded_is_delimited(f: FrameView)
    ensures
        is_delimited(encode_spec(f)),
{
    let body = stuff(frame_body(f));
    let cs = stuff(crate::codec::be_bytes2(checksum(body)));
    lemma_stuff_has_no_sentinel(frame_body(f));
    lemma_stuff_has_no_sentinel(crate::codec::be_bytes2(checksum(body)));
    let w = encode_spec(f);
    assert forall|k: int| 1 <= k < w.len() - 1 implies w[k] != END by {
        if k < 1 + body.len() {
            assert(w[k] == body[k - 1]);
        } else {
            assert(w[k] == cs[k - 1 - body.len()]);
        }
    }
}

/// One encoded frame fed in one piece comes out as that one frame, and
/// nothing stays buffered.
pub proof fn lemma_split_single_frame(f: FrameView)
    ensures
        split_frames(encode_spec(f)).frames == seq![encode_spec(f)],
        split_frames(encode_spec(f)).rest == Seq::<u8>::empty(),
{
    let w = encode_spec(f);
    lemma_encoded_is_delimited(f);
    lemma_split_takes_first_frame(w, Seq::empty());
    assert(w + Seq::<u8>::empty() =~= w);
    assert(split_frames(Seq::<u8>::empty()).frames =~= Seq::<Seq<u8>>::empty());
    assert(seq![w] + Seq::<Seq<u8>>::empty() =~= seq![w]);
}

/// Encoded frames that follow one another come out in the order in which
/// they were sent, and bytes without a start sentinel in front of the first
/// are dropped.
pub proof fn lemma_split_concatenated_frames(garbage: Seq<u8>, f1: FrameView, f2: FrameView)
    requires
        has_no_start(garbage),
    ensures
        split_frames(garbage + encode_spec(f1) + encode_spec(f2)).frames == seq![
            encode_spec(f1),
            encode_spec(f2),
        ],
        split_frames(garbage + encode_spec(f1) + encode_spec(f2)).rest == Seq::<u8>::empty(),
{
    let w1 = encode_spec(f1);
    let w2 = encode_spec(f2);
    assert(garbage + w1 + w2 =~= garbage + (w1 + w2));
    lemma_split_drops_garbage(garbage, w1 + w2);
    lemma_encoded_is_delimited(f1);
    lemma_split_takes_first_frame(w1, w2);
    lemma_split_single_frame(f2);
    assert(seq![w1] + seq![w2] =~= seq![w1, w2]);
}

/// Chunking does not matter: splitting a stream, and then what was left of
/// it together with more bytes, finds the same frames and leaves the same
/// rest as splitting the whole at once.
pub proof fn lemma_split_chunked(first: Seq<u8>, second: Seq<u8>)
    ensures
        split_frames(first + second).frames == split_frames(first).frames + split_frames(
            split_frames(first).rest + second,
        ).frames,
        split_frames(first + second).rest == split_frames(
            split_frames(first).rest + second,
        ).rest,
    decreases first.len(),
{
    let all = first + second;
    let start = find_byte(first, START, 0);
    lemma_find_byte(first, START, 0);
    if start >= first.len() {
        assert(has_no_start(first));
        lemma_split_drops_garbage(first, second);
        assert(Seq::<u8>::empty() + second =~= second);
        assert(Seq::<Seq<u8>>::empty() + split_frames(second).frames =~= split_frames(
            second,
        ).frames);
    } else {
        let end = find_byte(first, END, start + 1);
        lemma_find_byte(first, END, start + 1);
        if end >= first.len() {
            let held = first.skip(start);
            assert(has_no_start(first.take(start)));
            assert(all =~= first.take(start) + (held + second));
            lemma_split_drops_garbage(first.take(start), held + second);
            assert(Seq::<Seq<u8>>::empty() + split_frames(held + second).frames =~= split_frames(
                held + second,
            ).frames);
        } else {
            let next = first.skip(end + 1);
            assert forall|k: int| 0 <= k < start implies all[k] != START by {
                assert(all[k] == first[k]);
            }
            assert(all[start] == first[start]);
            lemma_find_byte_unique(all, START, 0, start);
            assert forall|k: int| start + 1 <= k < end implies all[k] != END by {
                assert(all[k] == first[k]);
            }
            assert(all[end] == first[end]);
            lemma_find_byte_unique(all, END, start + 1, end);
            assert(all.subrange(start, end + 1) =~= first.subrange(start, end + 1));
            assert(all.skip(end + 1) =~= next + second);
            lemma_split_chunked(next, second);
            let fr = first.subrange(start, end + 1);
            let later = split_frames(split_frames(next).rest + second).frames;
            assert(seq![fr] + (split_frames(next).frames + later) =~= (seq![fr] + split_frames(
                next,
            ).frames) + later);
        }
    }
}

} // verus!
