//! Requests and responses of the handshake.

use crate::codec::{be_bytes4, be_u32, read_uint32, write_uint32};
use crate::error::{too_short, WireError};
use crate::text::{cstr_bytes, decode_cstr, hex_byte, lossy_text, push_hex_byte};
use vstd::prelude::*;
use vstd::slice::{slice_subrange, slice_to_vec};
use vstd::string::StringExecFns;

verus! {

// ---------------------------------------------------------------------------
// Text slots
// ---------------------------------------------------------------------------

/// The text of the null-terminated slot of 16 bytes of `p` at `at`: empty
/// where the payload does not hold the whole slot.
pub open spec fn slot_text(p: Seq<u8>, at: int) -> Seq<char> {
    if at + 16 <= p.len() {
        lossy_text(cstr_bytes(p.subrange(at, at + 16)))
    } else {
        Seq::empty()
    }
}

/// `acc` with `part` joined to it by `sep`; an empty part adds nothing, and
/// the first part comes without a separator.
pub open spec fn join_part(acc: Seq<char>, part: Seq<char>, sep: Seq<char>) -> Seq<char> {
    if part.len() == 0 {
        acc
    } else if acc.len() == 0 {
        part
    } else {
        acc + sep + part
    }
}

/// Joins the text of the slot at `at` to `acc`.
fn join_slot(acc: &mut String, payload: &[u8], at: usize, sep: &str)
    requires
        at <= 64,
    ensures
        final(acc)@ == join_part(old(acc)@, slot_text(payload@, at as int), sep@),
{
    if payload.len() >= 16 && at <= payload.len() - 16 {
        let part = decode_cstr(slice_subrange(payload, at, at + 16));
        if !part.as_str().is_empty() {
            if !acc.as_str().is_empty() {
                acc.append(sep);
            }
            acc.append(part.as_str());
        }
    }
}

// ---------------------------------------------------------------------------
// Hardware query
// ---------------------------------------------------------------------------

/// Generation of the device, told by the type byte of its signal processor.
#[derive(Debug, Clone, Copy, PartialEq, Eq, Structural)]
pub enum DeviceGen {
    /// First generation, type `0x80`.
    MevoPlus,
    /// Second generation, type `0xC0`.
    Gen2,
    /// Hardware that is not known, with its type byte.
    Unknown(u8),
}

impl DeviceGen {
    /// The generation that the type byte `dsp_type` tells.
    pub open spec fn of_dsp_type(dsp_type: u8) -> DeviceGen {
        if dsp_type == 0x80 {
            DeviceGen::MevoPlus
        } else if dsp_type == 0xC0 {
            DeviceGen::Gen2
        } else {
            DeviceGen::Unknown(dsp_type)
        }
    }

    /// Tells the generation from the type byte of the signal processor.
    pub fn from_dsp_type(dsp_type: u8) -> (g: Self)
        ensures
            g == Self::of_dsp_type(dsp_type),
    {
        if dsp_type == 0x80 {
            DeviceGen::MevoPlus
        } else if dsp_type == 0xC0 {
            DeviceGen::Gen2
        } else {
            DeviceGen::Unknown(dsp_type)
        }
    }

    /// The text of [`DeviceGen::label`].
    pub open spec fn label_text(self) -> Seq<char> {
        match self {
            DeviceGen::MevoPlus => "Mevo+"@,
            DeviceGen::Gen2 => "Mevo Gen2"@,
            DeviceGen::Unknown(_) => "Unknown"@,
        }
    }

    /// Short label for logs and display.
    pub fn label(&self) -> (s: &'static str)
        ensures
            s@ == self.label_text(),
    {
        match self {
            DeviceGen::MevoPlus => "Mevo+",
            DeviceGen::Gen2 => "Mevo Gen2",
            DeviceGen::Unknown(_) => "Unknown",
        }
    }

    /// The text of [`DeviceGen::describe`].
    pub open spec fn described(self) -> Seq<char> {
        match self {
            DeviceGen::MevoPlus => "Mevo+ (0x80)"@,
            DeviceGen::Gen2 => "Mevo Gen2 (0xC0)"@,
            DeviceGen::Unknown(v) => "Unknown (0x"@ + hex_byte(v) + ")"@,
        }
    }

    /// The label together with the type byte in hexadecimal.
    pub fn describe(&self) -> (s: String)
        ensures
            s@ == self.described(),
    {
        match self {
            DeviceGen::MevoPlus => String::from_str("Mevo+ (0x80)"),
            DeviceGen::Gen2 => String::from_str("Mevo Gen2 (0xC0)"),
            DeviceGen::Unknown(v) => {
                let mut s = String::from_str("Unknown (0x");
                push_hex_byte(&mut s, *v);
                s.append(")");
                s
            },
        }
    }
}

/// Answer to the hardware query: `[version, type, pcb]`. Type `0xC8`.
#[derive(Debug, Clone, Copy)]
pub struct DspQueryResp {
    pub version: u8,
    /// Type of the signal processor.
    pub dsp_type: u8,
    /// Revision of the board.
    pub pcb: u8,
}

impl DspQueryResp {
    /// What decoding the payload `p` gives.
    pub open spec fn decodes(p: Seq<u8>, r: Result<Self, WireError>) -> bool {
        match r {
            Ok(v) => p.len() >= 3 && v.version == p[0] && v.dsp_type == p[1] && v.pcb == p[2],
            Err(e) => p.len() < 3 && e@ == too_short("DspQueryResp"@, 3, p.len()),
        }
    }

    /// Decodes the message from its payload.
    pub fn decode(payload: &[u8]) -> (r: Result<Self, WireError>)
        ensures
            Self::decodes(payload@, r),
    {
        if payload.len() < 3 {
            return Err(WireError::payload_too_short("DspQueryResp", 3, payload.len()));
        }
        Ok(DspQueryResp { version: payload[0], dsp_type: payload[1], pcb: payload[2] })
    }

    /// The generation of the device.
    pub fn device_gen(&self) -> (g: DeviceGen)
        ensures
            g == DeviceGen::of_dsp_type(self.dsp_type),
    {
        DeviceGen::from_dsp_type(self.dsp_type)
    }
}

// ---------------------------------------------------------------------------
// Device information
// ---------------------------------------------------------------------------

/// Device information. Type `0xE7`.
///
/// A binary header, then three null-terminated text slots of 16 bytes. In a
/// payload of 76 bytes or more the slots begin at 28, in a shorter one at
/// 27.
#[derive(Debug, Clone)]
pub struct DevInfoResp {
    /// The texts of the slots that are not empty, joined by single spaces.
    pub text: String,
}

impl DevInfoResp {
    /// Where the first text slot of a payload of `len` bytes begins.
    pub open spec fn slot_start(len: nat) -> int {
        if len >= 76 {
            28
        } else {
            27
        }
    }

    /// The text that the payload `p` holds.
    pub open spec fn text_of(p: Seq<u8>) -> Seq<char> {
        let at = Self::slot_start(p.len());
        join_part(
            join_part(join_part(Seq::empty(), slot_text(p, at), " "@), slot_text(p, at + 16), " "@),
            slot_text(p, at + 32),
            " "@,
        )
    }

    /// What decoding the payload `p` gives: always its text.
    pub open spec fn decodes(p: Seq<u8>, r: Result<Self, WireError>) -> bool {
        r matches Ok(v) && v.text@ == Self::text_of(p)
    }

    /// Decodes the message from its payload.
    pub fn decode(payload: &[u8]) -> (r: Result<Self, WireError>)
        ensures
            Self::decodes(payload@, r),
    {
        let slot_start: usize = if payload.len() >= 76 {
            28
        } else {
            27
        };
        let mut text = String::new();
        let mut i: usize = 0;
        while i < 3
            invariant
                i <= 3,
                slot_start == Self::slot_start(payload@.len()),
                i == 0 ==> text@ == Seq::<char>::empty(),
                i == 1 ==> text@ == join_part(
                    Seq::empty(),
                    slot_text(payload@, slot_start as int),
                    " "@,
                ),
                i == 2 ==> text@ == join_part(
                    join_part(Seq::empty(), slot_text(payload@, slot_start as int), " "@),
                    slot_text(payload@, slot_start + 16),
                    " "@,
                ),
                i == 3 ==> text@ == Self::text_of(payload@),
            decreases 3 - i,
        {
            join_slot(&mut text, payload, slot_start + i * 16, " ");
            i += 1;
        }
        Ok(DevInfoResp { text })
    }
}

// ---------------------------------------------------------------------------
// Product information
// ---------------------------------------------------------------------------

/// Asks for product information: `[01 sub_query]`. Type `0xFD`.
#[derive(Debug, Clone, Copy)]
pub struct ProdInfoReq {
    pub sub_query: u8,
}

impl ProdInfoReq {
    /// The payload of the message.
    pub open spec fn encoded(self) -> Seq<u8> {
        seq![0x01u8, self.sub_query]
    }

    /// What decoding the payload `p` gives.
    pub open spec fn decodes(p: Seq<u8>, r: Result<Self, WireError>) -> bool {
        match r {
            Ok(v) => p.len() >= 2 && v.sub_query == p[1],
            Err(e) => p.len() < 2 && e@ == too_short("ProdInfoReq"@, 2, p.len()),
        }
    }

    /// Decodes the message from its payload.
    pub fn decode(payload: &[u8]) -> (r: Result<Self, WireError>)
        ensures
            Self::decodes(payload@, r),
    {
        if payload.len() < 2 {
            return Err(WireError::payload_too_short("ProdInfoReq", 2, payload.len()));
        }
        Ok(ProdInfoReq { sub_query: payload[1] })
    }

    /// Encodes the message into its payload.
    pub fn encode(&self) -> (buf: Vec<u8>)
        ensures
            buf@ == self.encoded(),
    {
        let mut buf: Vec<u8> = Vec::new();
        buf.push(0x01);
        buf.push(self.sub_query);
        assert(buf@ =~= self.encoded());
        buf
    }
}

/// Product information: a null-terminated string. Type `0xFD`.
#[derive(Debug, Clone)]
pub struct ProdInfoResp {
    pub text: String,
}

impl ProdInfoResp {
    /// What decoding the payload `p` gives: always its text up to the first
    /// zero byte.
    pub open spec fn decodes(p: Seq<u8>, r: Result<Self, WireError>) -> bool {
        r matches Ok(v) && v.text@ == lossy_text(cstr_bytes(p))
    }

    /// Decodes the message from its payload.
    pub fn decode(payload: &[u8]) -> (r: Result<Self, WireError>)
        ensures
            Self::decodes(payload@, r),
    {
        Ok(ProdInfoResp { text: decode_cstr(payload) })
    }
}

// ---------------------------------------------------------------------------
// Network configuration
// ---------------------------------------------------------------------------

/// Asks for the network configuration. Type `0xDE`.
///
/// `[01 00]` asks for the network name, `[01 08]` for the password.
#[derive(Debug, Clone, Copy)]
pub struct NetConfigReq {
    pub query_password: bool,
}

impl NetConfigReq {
    /// The payload of the message.
    pub open spec fn encoded(self) -> Seq<u8> {
        seq![0x01u8, if self.query_password { 0x08u8 } else { 0x00u8 }]
    }

    /// What decoding the payload `p` gives.
    pub open spec fn decodes(p: Seq<u8>, r: Result<Self, WireError>) -> bool {
        match r {
            Ok(v) => p.len() >= 2 && v.query_password == (p[1] == 0x08),
            Err(e) => p.len() < 2 && e@ == too_short("NetConfigReq"@, 2, p.len()),
        }
    }

    /// Decodes the message from its payload.
    pub fn decode(payload: &[u8]) -> (r: Result<Self, WireError>)
        ensures
            Self::decodes(payload@, r),
    {
        if payload.len() < 2 {
            return Err(WireError::payload_too_short("NetConfigReq", 2, payload.len()));
        }
        Ok(NetConfigReq { query_password: payload[1] == 0x08 })
    }

    /// Encodes the message into its payload.
    pub fn encode(&self) -> (buf: Vec<u8>)
        ensures
            buf@ == self.encoded(),
    {
        let mut buf: Vec<u8> = Vec::new();
        buf.push(0x01);
        buf.push(if self.query_password { 0x08 } else { 0x00 });
        assert(buf@ =~= self.encoded());
        buf
    }
}

/// Network configuration. Type `0xDE`.
///
/// Addresses in binary, then a slot of 16 bytes for the network name at 21
/// and one for the password at 37. The answer to the query for the name
/// leaves both slots empty; the answer to the query for the password fills
/// both.
#[derive(Debug, Clone)]
pub struct NetConfigResp {
    /// The texts of the slots that are not empty, joined by a NUL.
    pub text: String,
}

impl NetConfigResp {
    /// The text that the payload `p` holds.
    pub open spec fn text_of(p: Seq<u8>) -> Seq<char> {
        join_part(join_part(Seq::empty(), slot_text(p, 21), "\0"@), slot_text(p, 37), "\0"@)
    }

    /// What decoding the payload `p` gives: always its text.
    pub open spec fn decodes(p: Seq<u8>, r: Result<Self, WireError>) -> bool {
        r matches Ok(v) && v.text@ == Self::text_of(p)
    }

    /// Decodes the message from its payload.
    pub fn decode(payload: &[u8]) -> (r: Result<Self, WireError>)
        ensures
            Self::decodes(payload@, r),
    {
        let mut text = String::new();
        join_slot(&mut text, payload, 21, "\0");
        join_slot(&mut text, payload, 37, "\0");
        Ok(NetConfigResp { text })
    }
}

// ---------------------------------------------------------------------------
// Calibration
// ---------------------------------------------------------------------------

/// Asks for the IF calibration parameters: always `[02 00 08]`. Type
/// `0xD0`.
#[derive(Debug, Clone, Copy)]
pub struct CalParamReq;

impl CalParamReq {
    /// The payload of the message.
    pub open spec fn encoded(self) -> Seq<u8> {
        seq![0x02u8, 0x00u8, 0x08u8]
    }

    /// What decoding a payload gives: always the request.
    pub open spec fn decodes(p: Seq<u8>, r: Result<Self, WireError>) -> bool {
        r is Ok
    }

    /// Decodes the message from its payload.
    pub fn decode(_payload: &[u8]) -> (r: Result<Self, WireError>)
        ensures
            Self::decodes(_payload@, r),
    {
        Ok(CalParamReq)
    }

    /// Encodes the message into its payload.
    pub fn encode(&self) -> (buf: Vec<u8>)
        ensures
            buf@ == self.encoded(),
    {
        let mut buf: Vec<u8> = Vec::new();
        buf.push(0x02);
        buf.push(0x00);
        buf.push(0x08);
        assert(buf@ =~= self.encoded());
        buf
    }
}

/// IF calibration parameters, kept as raw bytes. Type `0xD1`.
#[derive(Debug, Clone)]
pub struct CalParamResp {
    pub payload: Vec<u8>,
}

impl CalParamResp {
    /// What decoding the payload `p` gives: always the bytes themselves.
    pub open spec fn decodes(p: Seq<u8>, r: Result<Self, WireError>) -> bool {
        r matches Ok(v) && v.payload@ == p
    }

    /// Decodes the message from its payload.
    pub fn decode(payload: &[u8]) -> (r: Result<Self, WireError>)
        ensures
            Self::decodes(payload@, r),
    {
        Ok(CalParamResp { payload: slice_to_vec(payload) })
    }
}

/// Asks for calibration data. Type `0xD2`.
///
/// The fourth byte is the sub-command: 3 for the factory calibration, 7 for
/// the parameter dump after a shot.
#[derive(Debug, Clone)]
pub struct CalDataReq {
    pub sub_cmd: u8,
    pub payload: Vec<u8>,
}

impl CalDataReq {
    /// What decoding the payload `p` gives.
    pub open spec fn decodes(p: Seq<u8>, r: Result<Self, WireError>) -> bool {
        match r {
            Ok(v) => p.len() >= 4 && v.sub_cmd == p[3] && v.payload@ == p,
            Err(e) => p.len() < 4 && e@ == too_short("CalDataReq"@, 4, p.len()),
        }
    }

    /// Decodes the message from its payload.
    pub fn decode(payload: &[u8]) -> (r: Result<Self, WireError>)
        ensures
            Self::decodes(payload@, r),
    {
        if payload.len() < 4 {
            return Err(WireError::payload_too_short("CalDataReq", 4, payload.len()));
        }
        Ok(CalDataReq { sub_cmd: payload[3], payload: slice_to_vec(payload) })
    }

    /// The payload of the request for the factory calibration.
    pub open spec fn factory_bytes() -> Seq<u8> {
        seq![0x09u8, 0x00u8, 0x00u8, 0x03u8, 0x00u8, 0x00u8, 0x00u8, 0x00u8, 0x00u8, 0xA5u8]
    }

    /// The payload of the request for the parameter dump after a shot.
    pub open spec fn post_shot_bytes() -> Seq<u8> {
        seq![0x09u8, 0x00u8, 0x00u8, 0x07u8, 0x00u8, 0x00u8, 0x00u8, 0x00u8, 0x00u8, 0x00u8]
    }

    /// The request for the factory calibration, sub-command 3.
    pub fn encode_factory() -> (buf: Vec<u8>)
        ensures
            buf@ == Self::factory_bytes(),
    {
        let buf: Vec<u8> = vec![0x09, 0x00, 0x00, 0x03, 0x00, 0x00, 0x00, 0x00, 0x00, 0xA5];
        assert(buf@ =~= Self::factory_bytes());
        buf
    }

    /// The request for the parameter dump after a shot, sub-command 7.
    pub fn encode_post_shot() -> (buf: Vec<u8>)
        ensures
            buf@ == Self::post_shot_bytes(),
    {
        let buf: Vec<u8> = vec![0x09, 0x00, 0x00, 0x07, 0x00, 0x00, 0x00, 0x00, 0x00, 0x00];
        assert(buf@ =~= Self::post_shot_bytes());
        buf
    }
}

/// Calibration data, kept as raw bytes. Type `0xD3`.
#[derive(Debug, Clone)]
pub struct CalDataResp {
    pub payload: Vec<u8>,
}

impl CalDataResp {
    /// What decoding the payload `p` gives: always the bytes themselves.
    pub open spec fn decodes(p: Seq<u8>, r: Result<Self, WireError>) -> bool {
        r matches Ok(v) && v.payload@ == p
    }

    /// Decodes the message from its payload.
    pub fn decode(payload: &[u8]) -> (r: Result<Self, WireError>)
        ensures
            Self::decodes(payload@, r),
    {
        Ok(CalDataResp { payload: slice_to_vec(payload) })
    }
}

// ---------------------------------------------------------------------------
// Time
// ---------------------------------------------------------------------------

/// Time synchronisation: `[08 00 epoch(4) session tail(2)]`. Type `0x9B`.
#[derive(Debug, Clone, Copy)]
pub struct TimeSync {
    /// Seconds since the Unix epoch.
    pub epoch: u32,
    /// Session byte.
    pub session: u8,
    /// Two bytes that depend on the direction.
    pub tail: [u8; 2],
}

impl TimeSync {
    /// The payload of the message.
    pub open spec fn encoded(self) -> Seq<u8> {
        seq![0x08u8, 0x00u8] + be_bytes4(self.epoch as int) + seq![
            self.session,
            self.tail[0],
            self.tail[1],
        ]
    }

    /// What decoding the payload `p` gives.
    pub open spec fn decodes(p: Seq<u8>, r: Result<Self, WireError>) -> bool {
        match r {
            Ok(v) => p.len() >= 9 && v.epoch == be_u32(p, 2) && v.session == p[6] && v.tail[0]
                == p[7] && v.tail[1] == p[8],
            Err(e) => p.len() < 9 && e@ == too_short("TimeSync"@, 9, p.len()),
        }
    }

    /// Decodes the message from its payload.
    pub fn decode(payload: &[u8]) -> (r: Result<Self, WireError>)
        ensures
            Self::decodes(payload@, r),
    {
        if payload.len() < 9 {
            return Err(WireError::payload_too_short("TimeSync", 9, payload.len()));
        }
        Ok(
            TimeSync {
                epoch: read_uint32(payload, 2)?,
                session: payload[6],
                tail: [payload[7], payload[8]],
            },
        )
    }

    /// Encodes the message into its payload.
    pub fn encode(&self) -> (buf: Vec<u8>)
        ensures
            buf@ == self.encoded(),
    {
        let mut buf: Vec<u8> = Vec::new();
        buf.push(0x08);
        buf.push(0x00);
        write_uint32(&mut buf, self.epoch);
        buf.push(self.session);
        buf.push(self.tail[0]);
        buf.push(self.tail[1]);
        assert(buf@ =~= self.encoded());
        buf
    }
}

// ---------------------------------------------------------------------------
// Laws
// ---------------------------------------------------------------------------

/// Encoding is symmetric: each of these messages decodes from its own
/// payload to itself.
pub proof fn lemma_handshake_round_trip(prod: ProdInfoReq, net: NetConfigReq, time: TimeSync)
    ensures
        ProdInfoReq::decodes(prod.encoded(), Ok(prod)),
        NetConfigReq::decodes(net.encoded(), Ok(net)),
        TimeSync::decodes(time.encoded(), Ok(time)),
{
    crate::codec::lemma_uint32_round_trip(seq![0x08u8, 0x00u8], time.epoch as int);
    let t = time.encoded();
    let front = seq![0x08u8, 0x00u8] + be_bytes4(time.epoch as int);
    assert(t[2] == front[2] && t[3] == front[3] && t[4] == front[4] && t[5] == front[5]);
    assert(t[6] == time.session && t[7] == time.tail[0] && t[8] == time.tail[1]);
}

} // verus!
