//! What a connection does between the socket and the caller: frames that
//! arrived are queued in wire order, parsed, and decoded into envelopes.
//!
//! The socket itself is not here. Whoever owns it hands the bytes it read
//! to an [`Inbox`] and takes envelopes out.

use crate::addr::BusAddr;
use crate::error::{fault_with_raw, WireError};
use crate::frame::{frames_view, parse_spec, split_frames, FrameSplitter, RawFrame};
use crate::text::{decimal, hex_byte, hex_bytes, push_decimal, push_hex_byte, push_hex_bytes};
use crate::protocol::Message;
use std::collections::VecDeque;
use vstd::prelude::*;
use vstd::slice::slice_to_vec;
use vstd::string::StringExecFns;

verus! {

/// The error of the operating system's I/O. It is only carried, never
/// inspected.
#[verifier::external_type_specification]
#[verifier::external_body]
pub struct ExIoError(std::io::Error);

/// A decoded message with the peer it came from and its raw payload.
///
/// The payload is kept beside the decoded form, for diagnostics on
/// messages that are unknown or malformed.
#[derive(Debug, Clone)]
pub struct Envelope {
    pub src: BusAddr,
    /// Type identifier on the wire.
    pub type_id: u8,
    /// Payload, unstuffed, as it was before decoding.
    pub raw: Vec<u8>,
    pub message: Message,
}

impl Envelope {
    /// The text of [`Envelope::frame_text`].
    pub open spec fn frame_text_of(self) -> Seq<char> {
        let head = "["@ + self.src.name_text() + " 0x"@ + hex_byte(self.type_id) + " "@ + decimal(
            self.raw@.len(),
        ) + "B"@;
        if self.raw@.len() == 0 {
            head + "]"@
        } else {
            head + " | "@ + hex_bytes(self.raw@, Seq::empty()) + "]"@
        }
    }

    /// Renders where the message came from and what it was on the wire,
    /// such as `[AVR 0xD4 3B | 9E0003]`: the source, the type, the length of
    /// the payload, and the payload in hexadecimal.
    pub fn frame_text(&self) -> (s: String)
        ensures
            s@ == self.frame_text_of(),
    {
        let mut s = String::from_str("[");
        s.append(self.src.name());
        s.append(" 0x");
        push_hex_byte(&mut s, self.type_id);
        s.append(" ");
        push_decimal(&mut s, self.raw.len());
        s.append("B");
        if self.raw.len() > 0 {
            s.append(" | ");
            push_hex_bytes(&mut s, self.raw.as_slice(), self.raw.len(), "");
        }
        s.append("]");
        proof {
            reveal_strlit("");
            assert(""@ =~= Seq::<char>::empty());
            assert(self.raw@.take(self.raw@.len() as int) =~= self.raw@);
            assert(s@ =~= self.frame_text_of());
        }
        s
    }
}

/// Errors of a connection.
#[derive(Debug)]
pub enum ConnError {
    /// The socket failed.
    Io(std::io::Error),
    /// A frame or a payload could not be decoded.
    Wire(WireError),
    /// No complete frame came within the time allowed, in nanoseconds.
    Timeout { timeout: u64 },
    /// The peer closed the stream.
    Disconnected,
    /// A well-formed message that the sequence did not expect.
    Protocol(String),
}

/// Whether `r` is what a wire frame `wire` gives.
///
/// A frame that does not parse gives the parser's fault. One that parses
/// gives the envelope of its message: source, type and payload of the
/// frame, and the message decoded from it. Where the payload does not
/// decode, the decoder's fault comes with the payload attached.
pub open spec fn wire_decodes(wire: Seq<u8>, r: Result<Envelope, ConnError>) -> bool {
    match parse_spec(wire) {
        Err(fault) => r matches Err(ConnError::Wire(e)) && e@ == fault,
        Ok(f) => match r {
            Ok(env) => {
                &&& env.src == f.src
                &&& env.type_id == f.type_id
                &&& env.raw@ == f.payload
                &&& Message::decodes(f, Ok(env.message))
            },
            Err(ConnError::Wire(e)) => exists|inner: WireError|
                Message::decodes(f, Err(inner)) && e@ == fault_with_raw(inner@, f.payload),
            Err(_) => false,
        },
    }
}

/// Parses one wire frame and decodes its message.
pub fn decode_wire(wire: &[u8]) -> (r: Result<Envelope, ConnError>)
    ensures
        wire_decodes(wire@, r),
{
    let frame = match RawFrame::parse(wire) {
        Ok(f) => f,
        Err(e) => {
            return Err(ConnError::Wire(e));
        },
    };
    let src = frame.src;
    let type_id: u8 = frame.type_id;
    let raw = slice_to_vec(frame.payload.as_slice());
    match Message::decode(&frame) {
        Ok(message) => Ok(Envelope { src, type_id, raw, message }),
        Err(inner) => {
            let e = inner.with_raw(raw.as_slice());
            Err(ConnError::Wire(e))
        },
    }
}

/// Where the bytes read from the stream go in, and frames come out in the
/// order in which they arrived.
pub struct Inbox {
    splitter: FrameSplitter,
    pending: VecDeque<Vec<u8>>,
}

impl Inbox {
    /// The complete frames that wait to be taken, oldest first.
    pub closed spec fn queued(&self) -> Seq<Seq<u8>> {
        frames_view(self.pending@)
    }

    /// The bytes of a frame that is not complete yet.
    pub closed spec fn buffered(&self) -> Seq<u8> {
        self.splitter.buffered()
    }

    /// An inbox that holds nothing.
    pub fn new() -> (inbox: Self)
        ensures
            inbox.queued() == Seq::<Seq<u8>>::empty(),
            inbox.buffered() == Seq::<u8>::empty(),
    {
        let inbox = Inbox { splitter: FrameSplitter::new(), pending: VecDeque::new() };
        assert(inbox.queued() =~= Seq::<Seq<u8>>::empty());
        inbox
    }

    /// Whether a complete frame waits to be taken.
    pub fn has_frame(&self) -> (b: bool)
        ensures
            b == (self.queued().len() > 0),
    {
        self.pending.len() > 0
    }

    /// Takes in bytes read from the stream. The frames that they complete
    /// join the queue behind those that wait already, in wire order.
    pub fn push_bytes(&mut self, data: &[u8])
        ensures
            final(self).queued() == old(self).queued() + split_frames(
                old(self).buffered() + data@,
            ).frames,
            final(self).buffered() == split_frames(old(self).buffered() + data@).rest,
    {
        let frames = self.splitter.feed(data);
        let ghost rest = self.splitter.buffered();
        let mut i: usize = 0;
        assert(frames_view(frames@.take(0)) =~= Seq::<Seq<u8>>::empty());
        assert(self.queued() =~= old(self).queued() + frames_view(frames@.take(0)));
        while i < frames.len()
            invariant
                i <= frames@.len(),
                self.splitter.buffered() == rest,
                self.queued() == old(self).queued() + frames_view(frames@.take(i as int)),
            decreases frames@.len() - i,
        {
            let frame = slice_to_vec(frames[i].as_slice());
            let ghost before = self.pending@;
            self.pending.push_back(frame);
            proof {
                assert(frames_view(before.push(frame)) =~= frames_view(before).push(frame@));
                assert(frames_view(frames@.take(i + 1)) =~= frames_view(
                    frames@.take(i as int),
                ).push(frames@[i as int]@));
            }
            i += 1;
        }
        assert(frames@.take(i as int) =~= frames@);
    }

    /// Takes the oldest frame that waits, if there is one.
    pub fn next_frame(&mut self) -> (wire: Option<Vec<u8>>)
        ensures
            final(self).buffered() == old(self).buffered(),
            match wire {
                Some(w) => old(self).queued().len() > 0 && w@ == old(self).queued()[0]
                    && final(self).queued() == old(self).queued().skip(1),
                None => old(self).queued().len() == 0 && final(self).queued() == old(
                    self,
                ).queued(),
            },
    {
        let ghost before = self.pending@;
        let wire = self.pending.pop_front();
        proof {
            if before.len() > 0 {
                assert(frames_view(before.subrange(1, before.len() as int)) =~= frames_view(
                    before,
                ).skip(1));
            }
        }
        wire
    }

    /// Takes the oldest frame that waits and decodes it.
    pub fn next_envelope(&mut self) -> (r: Option<Result<Envelope, ConnError>>)
        ensures
            final(self).buffered() == old(self).buffered(),
            match r {
                Some(outcome) => old(self).queued().len() > 0 && wire_decodes(
                    old(self).queued()[0],
                    outcome,
                ) && final(self).queued() == old(self).queued().skip(1),
                None => old(self).queued().len() == 0 && final(self).queued() == old(
                    self,
                ).queued(),
            },
    {
        match self.next_frame() {
            Some(wire) => Some(decode_wire(wire.as_slice())),
            None => None,
        }
    }
}

} // verus!
