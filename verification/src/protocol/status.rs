//! Status, keepalive and acknowledgement messages.

use crate::codec::{
    be_i16, be_i24, float40_at, read_float40, read_int16, read_int24, Float40, Ratio,
};
use crate::error::{too_short, WireError};
use crate::text::{
    decimal, decode_trimmed, hex_byte, hex_bytes, lossy_text, push_decimal, push_hex_byte,
    push_hex_bytes, trim_control,
};
use vstd::prelude::*;
use vstd::utf8::{encode_utf8, valid_utf8};
use vstd::slice::slice_to_vec;
use vstd::string::StringExecFns;

verus! {

// ---------------------------------------------------------------------------
// Status poll
// ---------------------------------------------------------------------------

/// Status poll, sent by the client to every peer. Type `0xAA`.
///
/// Payload `[01 01]` for the signal processor and the microcontroller,
/// `[01 03]` for the camera processor.
#[derive(Debug, Clone, Copy)]
pub struct StatusPoll {
    pub pi_mode: bool,
}

impl StatusPoll {
    /// The payload of the poll.
    pub open spec fn encoded(self) -> Seq<u8> {
        seq![0x01u8, if self.pi_mode { 0x03u8 } else { 0x01u8 }]
    }

    /// What decoding the payload `p` gives.
    pub open spec fn decodes(p: Seq<u8>, r: Result<Self, WireError>) -> bool {
        match r {
            Ok(v) => p.len() >= 2 && v.pi_mode == (p[1] == 0x03),
            Err(e) => p.len() < 2 && e@ == too_short("StatusPoll"@, 2, p.len()),
        }
    }

    /// Decodes the message from its payload.
    pub fn decode(payload: &[u8]) -> (r: Result<Self, WireError>)
        ensures
            Self::decodes(payload@, r),
    {
        if payload.len() < 2 {
            return Err(WireError::payload_too_short("StatusPoll", 2, payload.len()));
        }
        Ok(StatusPoll { pi_mode: payload[1] == 0x03 })
    }

    /// Encodes the message into its payload.
    pub fn encode(&self) -> (buf: Vec<u8>)
        ensures
            buf@ == self.encoded(),
    {
        let mut buf: Vec<u8> = Vec::new();
        buf.push(0x01);
        buf.push(if self.pi_mode { 0x03 } else { 0x01 });
        assert(buf@ =~= self.encoded());
        buf
    }
}

// ---------------------------------------------------------------------------
// Microcontroller status
// ---------------------------------------------------------------------------

/// Status of the radar microcontroller: 25 bytes. Type `0xAA`.
#[derive(Debug, Clone, Copy)]
pub struct AvrStatus {
    /// Version byte.
    pub version: u8,
    /// Radar state: 0 idle, 1 armed, 2 arming, 3 tracking.
    pub state: u8,
    /// Hardware ID, high byte.
    pub hw_id_hi: u8,
    /// Hardware ID, low byte.
    pub hw_id_lo: u8,
    /// Full application ID.
    pub full_app_id: i32,
    /// Temperature of the signal processor (degrees C).
    pub temperature: Float40,
    /// Tilt angle (degrees).
    pub tilt: Float40,
    /// Roll angle (degrees), with the sign opposite to the one displayed.
    pub roll: Float40,
}

impl AvrStatus {
    /// Whether the fields are those that the payload `p` lays out.
    pub open spec fn read_from(self, p: Seq<u8>) -> bool {
        &&& self.version == p[0]
        &&& self.state == p[1]
        &&& self.hw_id_hi == p[2]
        &&& self.hw_id_lo == p[5]
        &&& self.full_app_id == be_i24(p, 8)
        &&& self.temperature == float40_at(p, 10)
        &&& self.tilt == float40_at(p, 15)
        &&& self.roll == float40_at(p, 20)
    }

    /// What decoding the payload `p` gives.
    pub open spec fn decodes(p: Seq<u8>, r: Result<Self, WireError>) -> bool {
        match r {
            Ok(v) => p.len() >= 25 && v.read_from(p),
            Err(e) => p.len() < 25 && e@ == too_short("AvrStatus"@, 25, p.len()),
        }
    }

    /// Decodes the message from its payload.
    pub fn decode(payload: &[u8]) -> (r: Result<Self, WireError>)
        ensures
            Self::decodes(payload@, r),
    {
        if payload.len() < 25 {
            return Err(WireError::payload_too_short("AvrStatus", 25, payload.len()));
        }
        Ok(
            AvrStatus {
                version: payload[0],
                state: payload[1],
                hw_id_hi: payload[2],
                hw_id_lo: payload[5],
                full_app_id: read_int24(payload, 8)?,
                temperature: read_float40(payload, 10)?,
                tilt: read_float40(payload, 15)?,
                roll: read_float40(payload, 20)?,
            },
        )
    }
}

// ---------------------------------------------------------------------------
// Signal processor status
// ---------------------------------------------------------------------------

/// Status of the signal processor. Type `0xAA`.
///
/// The first byte of the payload tells the layout. `0x80` is the layout of
/// the first generation and is decoded in full. Any other, `0x46` of the
/// second generation among them, keeps the raw bytes.
#[derive(Debug, Clone)]
pub enum DspStatus {
    /// First generation: version `0x80`, 129 bytes.
    V80(DspStatus80),
    /// Any other version: layout not mapped, raw bytes kept.
    V46(DspStatus46),
}

/// Status of a first-generation signal processor.
#[derive(Debug, Clone, Copy)]
pub struct DspStatus80 {
    /// State byte.
    pub state: u8,
    /// USB input voltage (mV).
    pub input_voltage_usb: i16,
    /// System voltage (mV).
    pub system_voltage: i16,
    /// Battery current (mA).
    pub battery_current: i16,
    /// Temperature, in hundredths of a degree C.
    pub temperature_raw: i16,
    /// Battery voltage (mV).
    pub battery_voltage: i16,
    /// Second battery voltage (mV).
    pub battery_voltage_2: i16,
    /// Power level: the high byte is the charge in percent.
    pub power_level: i16,
    /// Whether external power is connected.
    pub external_power: bool,
}

/// Status of a signal processor whose layout is not mapped.
///
/// For diagnostics, [`DspStatus46::render`] shows it with its payload as a
/// hex dump.
#[derive(Debug, Clone)]
pub struct DspStatus46 {
    /// State byte.
    pub state: u8,
    /// Version byte.
    pub version: u8,
    /// The payload as it came.
    pub payload: Vec<u8>,
}

impl DspStatus80 {
    /// Whether the fields are those that the payload `p` lays out.
    pub open spec fn read_from(self, p: Seq<u8>) -> bool {
        &&& self.state == p[1]
        &&& self.input_voltage_usb == be_i16(p, 4)
        &&& self.system_voltage == be_i16(p, 8)
        &&& self.battery_current == be_i16(p, 18)
        &&& self.temperature_raw == be_i16(p, 40)
        &&& self.battery_voltage == be_i16(p, 53)
        &&& self.battery_voltage_2 == be_i16(p, 57)
        &&& self.power_level == be_i16(p, 61)
        &&& self.external_power == (p[63] != 0)
    }

    /// What decoding the payload `p` gives.
    pub open spec fn decodes(p: Seq<u8>, r: Result<Self, WireError>) -> bool {
        match r {
            Ok(v) => p.len() >= 64 && v.read_from(p),
            Err(e) => p.len() < 64 && e@ == too_short("DspStatus80"@, 64, p.len()),
        }
    }

    /// Decodes the message from its payload.
    pub fn decode(payload: &[u8]) -> (r: Result<Self, WireError>)
        ensures
            Self::decodes(payload@, r),
    {
        if payload.len() < 64 {
            return Err(WireError::payload_too_short("DspStatus80", 64, payload.len()));
        }
        Ok(
            DspStatus80 {
                state: payload[1],
                input_voltage_usb: read_int16(payload, 4)?,
                system_voltage: read_int16(payload, 8)?,
                battery_current: read_int16(payload, 18)?,
                temperature_raw: read_int16(payload, 40)?,
                battery_voltage: read_int16(payload, 53)?,
                battery_voltage_2: read_int16(payload, 57)?,
                power_level: read_int16(payload, 61)?,
                external_power: payload[63] != 0,
            },
        )
    }

    /// Temperature in degrees C: the raw value over 100.
    pub fn temperature_c(&self) -> (t: Ratio)
        ensures
            t == Ratio::of(self.temperature_raw as int, 100),
    {
        Ratio { num: self.temperature_raw as i64, den: 100 }
    }

    /// The high byte of a 16-bit value in two's complement.
    pub open spec fn high_byte(v: i16) -> u8 {
        (((v as int) % 0x1_0000) / 0x100) as u8
    }

    /// Battery charge in percent: the high byte of the power level.
    pub fn battery_percent(&self) -> (b: u8)
        ensures
            b == Self::high_byte(self.power_level),
    {
        let v: i32 = self.power_level as i32;
        let low: i32 = if v < 0 {
            v + 0x1_0000
        } else {
            v
        };
        assert(low as int == (self.power_level as int) % 0x1_0000);
        (low / 0x100) as u8
    }
}

impl DspStatus46 {
    /// Whether the fields are those that the payload `p` lays out.
    pub open spec fn read_from(self, p: Seq<u8>) -> bool {
        &&& self.state == p[1]
        &&& self.version == p[0]
        &&& self.payload@ == p
    }

    /// What decoding a payload `p` of at least two bytes gives.
    pub open spec fn decodes(p: Seq<u8>, r: Result<Self, WireError>) -> bool {
        r matches Ok(v) && v.read_from(p)
    }

    /// Keeps the payload, and picks out the version and state bytes.
    pub fn decode(payload: &[u8]) -> (r: Result<Self, WireError>)
        requires
            payload@.len() >= 2,
        ensures
            Self::decodes(payload@, r),
    {
        Ok(DspStatus46 { state: payload[1], version: payload[0], payload: slice_to_vec(payload) })
    }

    /// The text of [`DspStatus46::render`].
    pub open spec fn rendered(self) -> Seq<char> {
        "DspStatus46 { version: 0x"@ + hex_byte(self.version) + ", state: 0x"@ + hex_byte(
            self.state,
        ) + ", len: "@ + decimal(self.payload@.len()) + ", payload: "@ + hex_bytes(
            self.payload@,
            " "@,
        ) + " }"@
    }

    /// Renders the status for diagnostics: version, state, length, and the
    /// payload as a hex dump.
    pub fn render(&self) -> (s: String)
        ensures
            s@ == self.rendered(),
    {
        let mut s = String::from_str("DspStatus46 { version: 0x");
        push_hex_byte(&mut s, self.version);
        s.append(", state: 0x");
        push_hex_byte(&mut s, self.state);
        s.append(", len: ");
        push_decimal(&mut s, self.payload.len());
        s.append(", payload: ");
        push_hex_bytes(&mut s, self.payload.as_slice(), self.payload.len(), " ");
        s.append(" }");
        proof {
            assert(self.payload@.take(self.payload@.len() as int) =~= self.payload@);
            assert(s@ =~= self.rendered());
        }
        s
    }
}

impl DspStatus {
    /// What decoding the payload `p` gives: the layout that the first byte
    /// announces, or the complaint of that layout's decoder.
    pub open spec fn decodes(p: Seq<u8>, r: Result<Self, WireError>) -> bool {
        if p.len() < 2 {
            r matches Err(e) && e@ == too_short("DspStatus"@, 2, p.len())
        } else if p[0] == 0x80 {
            match r {
                Ok(DspStatus::V80(v)) => DspStatus80::decodes(p, Ok(v)),
                Ok(_) => false,
                Err(e) => DspStatus80::decodes(p, Err(e)),
            }
        } else {
            r matches Ok(DspStatus::V46(v)) && v.read_from(p)
        }
    }

    /// Decodes the message from its payload.
    pub fn decode(payload: &[u8]) -> (r: Result<Self, WireError>)
        ensures
            Self::decodes(payload@, r),
    {
        if payload.len() < 2 {
            return Err(WireError::payload_too_short("DspStatus", 2, payload.len()));
        }
        if payload[0] == 0x80 {
            match DspStatus80::decode(payload) {
                Ok(v) => Ok(DspStatus::V80(v)),
                Err(e) => Err(e),
            }
        } else {
            match DspStatus46::decode(payload) {
                Ok(v) => Ok(DspStatus::V46(v)),
                Err(e) => Err(e),
            }
        }
    }

    /// The state byte, which every layout has.
    pub fn state(&self) -> (s: u8)
        ensures
            s == match *self {
                DspStatus::V80(v) => v.state,
                DspStatus::V46(v) => v.state,
            },
    {
        match self {
            DspStatus::V80(v) => v.state,
            DspStatus::V46(v) => v.state,
        }
    }

    /// Battery charge in percent; zero for a layout that is not mapped.
    pub fn battery_percent(&self) -> (b: u8)
        ensures
            b == match *self {
                DspStatus::V80(v) => DspStatus80::high_byte(v.power_level),
                DspStatus::V46(_) => 0,
            },
    {
        match self {
            DspStatus::V80(v) => v.battery_percent(),
            DspStatus::V46(_) => 0,
        }
    }

    /// Whether external power is connected; false for a layout that is not
    /// mapped.
    pub fn external_power(&self) -> (on: bool)
        ensures
            on == match *self {
                DspStatus::V80(v) => v.external_power,
                DspStatus::V46(_) => false,
            },
    {
        match self {
            DspStatus::V80(v) => v.external_power,
            DspStatus::V46(_) => false,
        }
    }

    /// Temperature in degrees C; zero for a layout that is not mapped.
    pub fn temperature_c(&self) -> (t: Ratio)
        ensures
            t == match *self {
                DspStatus::V80(v) => Ratio::of(v.temperature_raw as int, 100),
                DspStatus::V46(_) => Ratio::of(0, 1),
            },
    {
        match self {
            DspStatus::V80(v) => v.temperature_c(),
            DspStatus::V46(_) => Ratio::zero(),
        }
    }
}

/// The charge of a first-generation status is byte 61 of its payload.
pub proof fn lemma_battery_percent_is_byte_61(p: Seq<u8>, v: DspStatus80)
    requires
        p.len() >= 64,
        v.read_from(p),
    ensures
        DspStatus80::high_byte(v.power_level) == p[61],
{
}

// ---------------------------------------------------------------------------
// Camera processor status and acknowledgements
// ---------------------------------------------------------------------------

/// Status of the camera processor, kept as raw bytes. Type `0xAA`.
#[derive(Debug, Clone)]
pub struct PiStatus {
    pub payload: Vec<u8>,
}

impl PiStatus {
    /// What decoding the payload `p` gives: always the bytes themselves.
    pub open spec fn decodes(p: Seq<u8>, r: Result<Self, WireError>) -> bool {
        r matches Ok(v) && v.payload@ == p
    }

    /// Decodes the message from its payload.
    pub fn decode(payload: &[u8]) -> (r: Result<Self, WireError>)
        ensures
            Self::decodes(payload@, r),
    {
        Ok(PiStatus { payload: slice_to_vec(payload) })
    }
}

/// Acknowledgement of a command, positive (`0x95`) or negative (`0x94`):
/// `[02 bus_addr acked_cmd]`.
#[derive(Debug, Clone, Copy)]
pub struct ConfigAck {
    /// The subsystem that answers.
    pub bus_addr: u8,
    /// The low seven bits of the command acknowledged.
    pub acked_cmd: u8,
}

impl ConfigAck {
    /// What decoding the payload `p` gives.
    pub open spec fn decodes(p: Seq<u8>, r: Result<Self, WireError>) -> bool {
        match r {
            Ok(v) => p.len() >= 3 && v.bus_addr == p[1] && v.acked_cmd == p[2],
            Err(e) => p.len() < 3 && e@ == too_short("ConfigAck"@, 3, p.len()),
        }
    }

    /// Decodes the message from its payload.
    pub fn decode(payload: &[u8]) -> (r: Result<Self, WireError>)
        ensures
            Self::decodes(payload@, r),
    {
        if payload.len() < 3 {
            return Err(WireError::payload_too_short("ConfigAck", 3, payload.len()));
        }
        Ok(ConfigAck { bus_addr: payload[1], acked_cmd: payload[2] })
    }
}

/// Acknowledgement of a mode reset: three bytes. Type `0xB1`.
#[derive(Debug, Clone, Copy)]
pub struct ModeAck;

impl ModeAck {
    /// What decoding the payload `p` gives.
    pub open spec fn decodes(p: Seq<u8>, r: Result<Self, WireError>) -> bool {
        match r {
            Ok(_) => p.len() >= 3,
            Err(e) => p.len() < 3 && e@ == too_short("ModeAck"@, 3, p.len()),
        }
    }

    /// Decodes the message from its payload.
    pub fn decode(payload: &[u8]) -> (r: Result<Self, WireError>)
        ensures
            Self::decodes(payload@, r),
    {
        if payload.len() < 3 {
            return Err(WireError::payload_too_short("ModeAck", 3, payload.len()));
        }
        Ok(ModeAck)
    }
}

/// Debug or log text from a subsystem of the device. Type `0xE3`.
#[derive(Debug, Clone)]
pub struct Text {
    pub text: String,
}

impl Text {
    /// What decoding the payload `p` gives: always its text, without the
    /// control bytes at either end.
    pub open spec fn decodes(p: Seq<u8>, r: Result<Self, WireError>) -> bool {
        r matches Ok(v) && v.text@ == lossy_text(trim_control(p))
    }

    /// Decodes the message from its payload.
    pub fn decode(payload: &[u8]) -> (r: Result<Self, WireError>)
        ensures
            Self::decodes(payload@, r),
            valid_utf8(trim_control(payload@)) ==> encode_utf8(r->Ok_0.text@) == trim_control(
                payload@,
            ),
    {
        Ok(Text { text: decode_trimmed(payload) })
    }
}

/// Encoding is symmetric: a status poll decodes from its own payload to
/// itself.
pub proof fn lemma_status_poll_round_trip(poll: StatusPoll)
    ensures
        StatusPoll::decodes(poll.encoded(), Ok(poll)),
{
}

} // verus!
