//! Configuration and mode messages.

use crate::codec::{
    be_bytes2, be_bytes3, be_i16, be_i24, be_u16, float40_at, read_float40, read_int16,
    read_int24, read_uint16, write_float40, write_int24, write_uint16, Float40,
};
use crate::error::{too_short, unexpected_length, WireError};
use vstd::prelude::*;
use vstd::slice::slice_to_vec;

verus! {

// ---------------------------------------------------------------------------
// Detection modes, as the mode-set payload carries them
// ---------------------------------------------------------------------------

/// Indoor.
pub const MODE_INDOOR: u8 = 1;

/// Long indoor.
pub const MODE_LONG_INDOOR: u8 = 2;

/// Putting.
pub const MODE_PUTTING: u8 = 3;

/// Club swing.
pub const MODE_CLUB_SWING: u8 = 4;

/// Chipping.
pub const MODE_CHIPPING: u8 = 5;

/// Putting in a simulator.
pub const MODE_SIM_PUTTING: u8 = 6;

/// Outdoor.
pub const MODE_OUTDOOR: u8 = 9;

/// Raw sampling.
pub const MODE_RAW_SAMPLING: u8 = 13;

/// Dedicated putting.
pub const MODE_PUTTING_DEDICATED: u8 = 14;

/// Chip in.
pub const MODE_CHIP_IN: u8 = 15;

/// Chip out.
pub const MODE_CHIP_OUT: u8 = 16;

// ---------------------------------------------------------------------------
// Mode set
// ---------------------------------------------------------------------------

/// Sets the detection mode: `[02 00 mode]`. Type `0xA5`.
#[derive(Debug, Clone, Copy)]
pub struct ModeSet {
    /// The detection mode, one of the `MODE_` constants.
    pub mode: u8,
}

impl ModeSet {
    /// The payload of the message.
    pub open spec fn encoded(self) -> Seq<u8> {
        seq![0x02u8, 0x00u8, self.mode]
    }

    /// What decoding the payload `p` gives.
    pub open spec fn decodes(p: Seq<u8>, r: Result<Self, WireError>) -> bool {
        match r {
            Ok(v) => p.len() >= 3 && v.mode == p[2],
            Err(e) => p.len() < 3 && e@ == too_short("ModeSet"@, 3, p.len()),
        }
    }

    /// Decodes the message from its payload.
    pub fn decode(payload: &[u8]) -> (r: Result<Self, WireError>)
        ensures
            Self::decodes(payload@, r),
    {
        if payload.len() < 3 {
            return Err(WireError::payload_too_short("ModeSet", 3, payload.len()));
        }
        Ok(ModeSet { mode: payload[2] })
    }

    /// Encodes the message into its payload.
    pub fn encode(&self) -> (buf: Vec<u8>)
        ensures
            buf@ == self.encoded(),
    {
        let mut buf: Vec<u8> = Vec::new();
        buf.push(0x02);
        buf.push(0x00);
        buf.push(self.mode);
        assert(buf@ =~= self.encoded());
        buf
    }
}

// ---------------------------------------------------------------------------
// Configuration commit and arm
// ---------------------------------------------------------------------------

/// Control of the microcontroller's configuration. Type `0xB0`.
///
/// `[01 00]` commits what was written; `[01 01]` arms the radar.
#[derive(Debug, Clone, Copy)]
pub struct AvrConfigCmd {
    /// True to arm, false to commit.
    pub arm: bool,
}

impl AvrConfigCmd {
    /// The payload of the message.
    pub open spec fn encoded(self) -> Seq<u8> {
        seq![0x01u8, if self.arm { 0x01u8 } else { 0x00u8 }]
    }

    /// What decoding the payload `p` gives.
    pub open spec fn decodes(p: Seq<u8>, r: Result<Self, WireError>) -> bool {
        match r {
            Ok(v) => p.len() >= 2 && v.arm == (p[1] == 0x01),
            Err(e) => p.len() < 2 && e@ == too_short("AvrConfigCmd"@, 2, p.len()),
        }
    }

    /// Decodes the message from its payload.
    pub fn decode(payload: &[u8]) -> (r: Result<Self, WireError>)
        ensures
            Self::decodes(payload@, r),
    {
        if payload.len() < 2 {
            return Err(WireError::payload_too_short("AvrConfigCmd", 2, payload.len()));
        }
        Ok(AvrConfigCmd { arm: payload[1] == 0x01 })
    }

    /// Encodes the message into its payload.
    pub fn encode(&self) -> (buf: Vec<u8>)
        ensures
            buf@ == self.encoded(),
    {
        let mut buf: Vec<u8> = Vec::new();
        buf.push(0x01);
        buf.push(if self.arm { 0x01 } else { 0x00 });
        assert(buf@ =~= self.encoded());
        buf
    }
}

// ---------------------------------------------------------------------------
// Parameters
// ---------------------------------------------------------------------------

/// Asks for the value of a parameter: `[03 00 00 id]`. Type `0xBE`.
#[derive(Debug, Clone, Copy)]
pub struct ParamReadReq {
    pub param_id: u8,
}

impl ParamReadReq {
    /// The payload of the message.
    pub open spec fn encoded(self) -> Seq<u8> {
        seq![0x03u8, 0x00u8, 0x00u8, self.param_id]
    }

    /// What decoding the payload `p` gives.
    pub open spec fn decodes(p: Seq<u8>, r: Result<Self, WireError>) -> bool {
        match r {
            Ok(v) => p.len() >= 4 && v.param_id == p[3],
            Err(e) => p.len() < 4 && e@ == too_short("ParamReadReq"@, 4, p.len()),
        }
    }

    /// Decodes the message from its payload.
    pub fn decode(payload: &[u8]) -> (r: Result<Self, WireError>)
        ensures
            Self::decodes(payload@, r),
    {
        if payload.len() < 4 {
            return Err(WireError::payload_too_short("ParamReadReq", 4, payload.len()));
        }
        Ok(ParamReadReq { param_id: payload[3] })
    }

    /// Encodes the message into its payload.
    pub fn encode(&self) -> (buf: Vec<u8>)
        ensures
            buf@ == self.encoded(),
    {
        let mut buf: Vec<u8> = Vec::new();
        buf.push(0x03);
        buf.push(0x00);
        buf.push(0x00);
        buf.push(self.param_id);
        assert(buf@ =~= self.encoded());
        buf
    }
}

/// The value of a parameter.
#[derive(Debug, Clone, Copy)]
pub enum ParamData {
    /// A signed integer of 24 bits.
    Int24(i32),
    /// A FLOAT40.
    Float40(Float40),
}

/// The value of a parameter: the answer to a read, and the command of a
/// write. Type `0xBF`.
///
/// The first byte tells the layout: `06` for `[06 00 00 id v v v]`, an
/// integer of 24 bits; `08` for `[08 00 00 id e e m m m]`, a FLOAT40.
#[derive(Debug, Clone, Copy)]
pub struct ParamValue {
    pub param_id: u8,
    pub value: ParamData,
}

impl ParamValue {
    /// The payload of the message.
    pub open spec fn encoded(self) -> Seq<u8> {
        match self.value {
            ParamData::Int24(v) => seq![0x06u8, 0x00u8, 0x00u8, self.param_id] + be_bytes3(
                v as int,
            ),
            ParamData::Float40(v) => seq![0x08u8, 0x00u8, 0x00u8, self.param_id] + v.wire_bytes(),
        }
    }

    /// What decoding the payload `p` gives: the value in the layout that
    /// the first byte announces, or a complaint: that the payload is empty,
    /// that it is shorter than its layout, or that the first byte announces
    /// no layout.
    pub open spec fn decodes(p: Seq<u8>, r: Result<Self, WireError>) -> bool {
        if p.len() == 0 {
            r matches Err(e) && e@ == too_short("ParamValue"@, 1, 0)
        } else if p[0] == 0x06 {
            match r {
                Ok(v) => p.len() >= 7 && v.param_id == p[3] && v.value == ParamData::Int24(
                    be_i24(p, 4) as i32,
                ),
                Err(e) => p.len() < 7 && e@ == too_short("ParamValue(INT24)"@, 7, p.len()),
            }
        } else if p[0] == 0x08 {
            match r {
                Ok(v) => p.len() >= 9 && v.param_id == p[3] && v.value == ParamData::Float40(
                    float40_at(p, 4),
                ),
                Err(e) => p.len() < 9 && e@ == too_short("ParamValue(FLOAT40)"@, 9, p.len()),
            }
        } else {
            r matches Err(e) && e@ == unexpected_length("ParamValue"@, 6, p[0] as nat)
        }
    }

    /// Decodes the message from its payload.
    pub fn decode(payload: &[u8]) -> (r: Result<Self, WireError>)
        ensures
            Self::decodes(payload@, r),
    {
        if payload.len() == 0 {
            return Err(WireError::payload_too_short("ParamValue", 1, 0));
        }
        let marker: u8 = payload[0];
        if marker == 0x06 {
            if payload.len() < 7 {
                return Err(
                    WireError::payload_too_short("ParamValue(INT24)", 7, payload.len()),
                );
            }
            Ok(
                ParamValue {
                    param_id: payload[3],
                    value: ParamData::Int24(read_int24(payload, 4)?),
                },
            )
        } else if marker == 0x08 {
            if payload.len() < 9 {
                return Err(
                    WireError::payload_too_short("ParamValue(FLOAT40)", 9, payload.len()),
                );
            }
            Ok(
                ParamValue {
                    param_id: payload[3],
                    value: ParamData::Float40(read_float40(payload, 4)?),
                },
            )
        } else {
            Err(WireError::unexpected_length("ParamValue", 6, marker as usize))
        }
    }

    /// Encodes the message into its payload.
    pub fn encode(&self) -> (buf: Vec<u8>)
        ensures
            buf@ == self.encoded(),
    {
        let mut buf: Vec<u8> = Vec::new();
        match self.value {
            ParamData::Int24(val) => {
                buf.push(0x06);
                buf.push(0x00);
                buf.push(0x00);
                buf.push(self.param_id);
                write_int24(&mut buf, val);
            },
            ParamData::Float40(val) => {
                buf.push(0x08);
                buf.push(0x00);
                buf.push(0x00);
                buf.push(self.param_id);
                write_float40(&mut buf, val);
            },
        }
        assert(buf@ =~= self.encoded());
        buf
    }
}

// ---------------------------------------------------------------------------
// Radar calibration
// ---------------------------------------------------------------------------

/// Radar calibration: `[06 range_hi range_lo 00 height 00 00]`. Type
/// `0xA4`, in both directions.
#[derive(Debug, Clone, Copy)]
pub struct RadarCal {
    /// Distance from the sensor to the tee (mm).
    pub range_mm: u16,
    /// Height of the surface (mm).
    pub height_mm: u8,
}

impl RadarCal {
    /// The payload of the message.
    pub open spec fn encoded(self) -> Seq<u8> {
        seq![0x06u8] + be_bytes2(self.range_mm as int) + seq![
            0x00u8,
            self.height_mm,
            0x00u8,
            0x00u8,
        ]
    }

    /// What decoding the payload `p` gives.
    pub open spec fn decodes(p: Seq<u8>, r: Result<Self, WireError>) -> bool {
        match r {
            Ok(v) => p.len() >= 7 && v.range_mm == be_u16(p, 1) && v.height_mm == p[4],
            Err(e) => p.len() < 7 && e@ == too_short("RadarCal"@, 7, p.len()),
        }
    }

    /// Decodes the message from its payload.
    pub fn decode(payload: &[u8]) -> (r: Result<Self, WireError>)
        ensures
            Self::decodes(payload@, r),
    {
        if payload.len() < 7 {
            return Err(WireError::payload_too_short("RadarCal", 7, payload.len()));
        }
        Ok(RadarCal { range_mm: read_uint16(payload, 1)?, height_mm: payload[4] })
    }

    /// Encodes the message into its payload.
    pub fn encode(&self) -> (buf: Vec<u8>)
        ensures
            buf@ == self.encoded(),
    {
        let mut buf: Vec<u8> = Vec::new();
        buf.push(0x06);
        write_uint16(&mut buf, self.range_mm);
        buf.push(0x00);
        buf.push(self.height_mm);
        buf.push(0x00);
        buf.push(0x00);
        assert(buf@ =~= self.encoded());
        buf
    }
}

// ---------------------------------------------------------------------------
// Configuration read-outs
// ---------------------------------------------------------------------------

/// Radar configuration: a size byte and 34 signed 16-bit parameters. Type
/// `0xA0`.
#[derive(Debug, Clone, Copy)]
pub struct ConfigResp {
    /// The 34 parameter values.
    pub params: [i16; 34],
}

impl ConfigResp {
    /// Whether the parameters are those that the payload `p` lays out.
    pub open spec fn read_from(self, p: Seq<u8>) -> bool {
        forall|i: int| 0 <= i < 34 ==> #[trigger] self.params@[i] == be_i16(p, 1 + 2 * i)
    }

    /// What decoding the payload `p` gives.
    pub open spec fn decodes(p: Seq<u8>, r: Result<Self, WireError>) -> bool {
        match r {
            Ok(v) => p.len() >= 69 && v.read_from(p),
            Err(e) => p.len() < 69 && e@ == too_short("ConfigResp"@, 69, p.len()),
        }
    }

    /// Decodes the message from its payload.
    pub fn decode(payload: &[u8]) -> (r: Result<Self, WireError>)
        ensures
            Self::decodes(payload@, r),
    {
        if payload.len() < 69 {
            return Err(WireError::payload_too_short("ConfigResp", 69, payload.len()));
        }
        let mut params = [0i16; 34];
        let mut i: usize = 0;
        while i < 34
            invariant
                i <= 34,
                payload@.len() >= 69,
                forall|k: int| 0 <= k < i ==> #[trigger] params@[k] == be_i16(payload@, 1 + 2 * k),
            decreases 34 - i,
        {
            params[i] = read_int16(payload, 1 + i * 2)?;
            i += 1;
        }
        Ok(ConfigResp { params })
    }
}

/// Configuration of the microcontroller, kept as raw bytes. Type `0xA2`.
#[derive(Debug, Clone)]
pub struct AvrConfigResp {
    pub payload: Vec<u8>,
}

impl AvrConfigResp {
    /// What decoding the payload `p` gives: always the bytes themselves.
    pub open spec fn decodes(p: Seq<u8>, r: Result<Self, WireError>) -> bool {
        r matches Ok(v) && v.payload@ == p
    }

    /// Decodes the message from its payload.
    pub fn decode(payload: &[u8]) -> (r: Result<Self, WireError>)
        ensures
            Self::decodes(payload@, r),
    {
        Ok(AvrConfigResp { payload: slice_to_vec(payload) })
    }

    /// Version of the layout, the second byte: 1 for the first generation,
    /// 2 for the second; zero where the payload has no second byte.
    pub fn version(&self) -> (v: u8)
        ensures
            v == if self.payload@.len() > 1 {
                self.payload@[1]
            } else {
                0
            },
    {
        if self.payload.len() > 1 {
            self.payload[1]
        } else {
            0
        }
    }
}

// ---------------------------------------------------------------------------
// Laws
// ---------------------------------------------------------------------------

/// Encoding is symmetric: each of these messages decodes from its own
/// payload to itself. For a parameter value that holds a FLOAT40 this asks
/// that the value survives the wire: a mantissa within 24 bits, and a zero
/// exponent where the mantissa is zero.
pub proof fn lemma_config_round_trip(
    mode: ModeSet,
    cmd: AvrConfigCmd,
    req: ParamReadReq,
    value: ParamValue,
    cal: RadarCal,
)
    requires
        value.value matches ParamData::Int24(v) ==> -0x80_0000 <= v < 0x80_0000,
        value.value matches ParamData::Float40(f) ==> f.wf() && (f.mantissa == 0 ==> f.exponent
            == 0),
    ensures
        ModeSet::decodes(mode.encoded(), Ok(mode)),
        AvrConfigCmd::decodes(cmd.encoded(), Ok(cmd)),
        ParamReadReq::decodes(req.encoded(), Ok(req)),
        ParamValue::decodes(value.encoded(), Ok(value)),
        RadarCal::decodes(cal.encoded(), Ok(cal)),
{
    let head = seq![0x06u8, 0x00u8, 0x00u8, value.param_id];
    let fhead = seq![0x08u8, 0x00u8, 0x00u8, value.param_id];
    match value.value {
        ParamData::Int24(v) => {
            crate::codec::lemma_int24_round_trip(head, v as int);
            assert(value.encoded()[0] == 0x06 && value.encoded()[3] == value.param_id);
        },
        ParamData::Float40(f) => {
            crate::codec::lemma_float40_round_trip(fhead, f);
            assert(value.encoded()[0] == 0x08 && value.encoded()[3] == value.param_id);
        },
    }
    crate::codec::lemma_uint16_round_trip(seq![0x06u8], cal.range_mm as int);
    let c = cal.encoded();
    let front = seq![0x06u8] + be_bytes2(cal.range_mm as int);
    assert(c[1] == front[1] && c[2] == front[2]);
    assert(c[4] == cal.height_mm);
}

} // verus!
