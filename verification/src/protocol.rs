//! Typed messages and their dispatch.
//!
//! - [`Command`]: what the client sends to the device.
//! - [`Message`]: what the device sends to the client.
//!
//! A message whose layout depends on a version byte is a sum type with one
//! variant per layout; accessors on the sum give neutral defaults for the
//! layouts whose fields are not mapped yet.

pub mod camera;
pub mod config;
pub mod handshake;
pub mod shot;
pub mod status;

use crate::addr::BusAddr;
use crate::error::WireError;
use crate::frame::{FrameView, RawFrame};
use crate::text::{decimal, hex_byte, hex_bytes, push_decimal, push_hex_byte, push_hex_bytes};
use vstd::prelude::*;
use vstd::slice::slice_to_vec;
use vstd::string::StringExecFns;

verus! {

// ---------------------------------------------------------------------------
// Type identifiers
// ---------------------------------------------------------------------------

/// Hardware query.
pub const TYPE_DSP_QUERY: u8 = 0x48;

/// Query for the radar configuration.
pub const TYPE_CONFIG_QUERY: u8 = 0x21;

/// Query for the configuration of the microcontroller.
pub const TYPE_AVR_CONFIG_QUERY: u8 = 0x23;

/// Request for device information.
pub const TYPE_DEV_INFO_REQ: u8 = 0x67;

/// Acknowledgement of shot data.
pub const TYPE_SHOT_DATA_ACK: u8 = 0x69;

/// Request for the shot result.
pub const TYPE_SHOT_RESULT_REQ: u8 = 0x6D;

/// Camera state, in both directions.
pub const TYPE_CAM_STATE: u8 = 0x81;

/// Camera configuration, in both directions.
pub const TYPE_CAM_CONFIG: u8 = 0x82;

/// Request for the camera configuration.
pub const TYPE_CAM_CONFIG_REQ: u8 = 0x83;

/// Scan for networks.
pub const TYPE_WIFI_SCAN: u8 = 0x87;

/// Sensor activation.
pub const TYPE_SENSOR_ACT: u8 = 0x90;

/// Time synchronisation, in both directions.
pub const TYPE_TIME_SYNC: u8 = 0x9B;

/// Radar calibration, in both directions.
pub const TYPE_RADAR_CAL: u8 = 0xA4;

/// Mode set, in both directions.
pub const TYPE_MODE_SET: u8 = 0xA5;

/// Status poll and status.
pub const TYPE_STATUS: u8 = 0xAA;

/// Configuration commit and arm.
pub const TYPE_AVR_CONFIG_CMD: u8 = 0xB0;

/// Request for a parameter.
pub const TYPE_PARAM_READ_REQ: u8 = 0xBE;

/// Parameter value, in both directions.
pub const TYPE_PARAM_VALUE: u8 = 0xBF;

/// Request for the IF calibration parameters.
pub const TYPE_CAL_PARAM_REQ: u8 = 0xD0;

/// Request for calibration data.
pub const TYPE_CAL_DATA_REQ: u8 = 0xD2;

/// Network configuration, request and answer.
pub const TYPE_NET_CONFIG: u8 = 0xDE;

/// Product information, request and answer.
pub const TYPE_PROD_INFO: u8 = 0xFD;

/// Camera images are available.
pub const TYPE_CAM_IMAGE_AVAIL: u8 = 0x84;

/// Answer to a sensor activation.
pub const TYPE_SENSOR_ACT_RESP: u8 = 0x89;

/// Negative acknowledgement.
pub const TYPE_CONFIG_NACK: u8 = 0x94;

/// Acknowledgement.
pub const TYPE_CONFIG_ACK: u8 = 0x95;

/// Radar configuration.
pub const TYPE_CONFIG_RESP: u8 = 0xA0;

/// Configuration of the microcontroller.
pub const TYPE_AVR_CONFIG_RESP: u8 = 0xA2;

/// Mode acknowledgement.
pub const TYPE_MODE_ACK: u8 = 0xB1;

/// Answer to the hardware query.
pub const TYPE_DSP_QUERY_RESP: u8 = 0xC8;

/// IF calibration parameters.
pub const TYPE_CAL_PARAM_RESP: u8 = 0xD1;

/// Calibration data.
pub const TYPE_CAL_DATA_RESP: u8 = 0xD3;

/// Primary flight result.
pub const TYPE_FLIGHT_RESULT: u8 = 0xD4;

/// Speed profile.
pub const TYPE_SPEED_PROFILE: u8 = 0xD9;

/// Debug text of the device.
pub const TYPE_TEXT: u8 = 0xE3;

/// Shot state text.
pub const TYPE_SHOT_TEXT: u8 = 0xE5;

/// Device information.
pub const TYPE_DEV_INFO_RESP: u8 = 0xE7;

/// Early flight result.
pub const TYPE_FLIGHT_RESULT_V1: u8 = 0xE8;

/// Tracking status.
pub const TYPE_TRACKING_STATUS: u8 = 0xE9;

/// Ball tracking data.
pub const TYPE_PRC_DATA: u8 = 0xEC;

/// Club result.
pub const TYPE_CLUB_RESULT: u8 = 0xED;

/// Club tracking data.
pub const TYPE_CLUB_PRC: u8 = 0xEE;

/// Spin result.
pub const TYPE_SPIN_RESULT: u8 = 0xEF;

/// Debug text of a second-generation signal processor.
pub const TYPE_DSP_DEBUG: u8 = 0xF0;

// ---------------------------------------------------------------------------
// Commands
// ---------------------------------------------------------------------------

/// A message that the client sends to a peer of the device.
#[derive(Debug, Clone)]
pub enum Command {
    /// Status poll.
    StatusPoll(status::StatusPoll),
    /// Sets the detection mode.
    ModeSet(config::ModeSet),
    /// Commits the configuration, or arms.
    AvrConfigCmd(config::AvrConfigCmd),
    /// Reads a parameter.
    ParamReadReq(config::ParamReadReq),
    /// Writes a parameter.
    ParamValue(config::ParamValue),
    /// Sets the radar calibration.
    RadarCal(config::RadarCal),
    /// Hardware query; no payload.
    DspQuery,
    /// Asks for the radar configuration; no payload.
    ConfigQuery,
    /// Asks for the configuration of the microcontroller; no payload.
    AvrConfigQuery,
    /// Asks for device information; no payload.
    DevInfoReq,
    /// Asks for product information.
    ProdInfoReq(handshake::ProdInfoReq),
    /// Asks for the network configuration.
    NetConfigReq(handshake::NetConfigReq),
    /// Asks for the IF calibration parameters.
    CalParamReq(handshake::CalParamReq),
    /// Asks for calibration data; the payload is sent as it is.
    CalDataReq(handshake::CalDataReq),
    /// Sets the time.
    TimeSync(handshake::TimeSync),
    /// Starts or stops the camera.
    CamState(camera::CamState),
    /// Writes the camera configuration.
    CamConfig(camera::CamConfig),
    /// Asks for the camera configuration.
    CamConfigReq(camera::CamConfigReq),
    /// Sensor activation data.
    SensorAct(camera::SensorAct),
    /// Acknowledges shot data; no payload.
    ShotDataAck,
    /// Asks for the shot result again; no payload.
    ShotResultReq,
}

impl Command {
    /// The type identifier under which the command travels.
    pub open spec fn type_id(self) -> u8 {
        match self {
            Command::StatusPoll(_) => TYPE_STATUS,
            Command::ModeSet(_) => TYPE_MODE_SET,
            Command::AvrConfigCmd(_) => TYPE_AVR_CONFIG_CMD,
            Command::ParamReadReq(_) => TYPE_PARAM_READ_REQ,
            Command::ParamValue(_) => TYPE_PARAM_VALUE,
            Command::RadarCal(_) => TYPE_RADAR_CAL,
            Command::DspQuery => TYPE_DSP_QUERY,
            Command::ConfigQuery => TYPE_CONFIG_QUERY,
            Command::AvrConfigQuery => TYPE_AVR_CONFIG_QUERY,
            Command::DevInfoReq => TYPE_DEV_INFO_REQ,
            Command::ProdInfoReq(_) => TYPE_PROD_INFO,
            Command::NetConfigReq(_) => TYPE_NET_CONFIG,
            Command::CalParamReq(_) => TYPE_CAL_PARAM_REQ,
            Command::CalDataReq(_) => TYPE_CAL_DATA_REQ,
            Command::TimeSync(_) => TYPE_TIME_SYNC,
            Command::CamState(_) => TYPE_CAM_STATE,
            Command::CamConfig(_) => TYPE_CAM_CONFIG,
            Command::CamConfigReq(_) => TYPE_CAM_CONFIG_REQ,
            Command::SensorAct(_) => TYPE_SENSOR_ACT,
            Command::ShotDataAck => TYPE_SHOT_DATA_ACK,
            Command::ShotResultReq => TYPE_SHOT_RESULT_REQ,
        }
    }

    /// The payload of the command.
    pub open spec fn payload(self) -> Seq<u8> {
        match self {
            Command::StatusPoll(m) => m.encoded(),
            Command::ModeSet(m) => m.encoded(),
            Command::AvrConfigCmd(m) => m.encoded(),
            Command::ParamReadReq(m) => m.encoded(),
            Command::ParamValue(m) => m.encoded(),
            Command::RadarCal(m) => m.encoded(),
            Command::DspQuery => Seq::empty(),
            Command::ConfigQuery => Seq::empty(),
            Command::AvrConfigQuery => Seq::empty(),
            Command::DevInfoReq => Seq::empty(),
            Command::ProdInfoReq(m) => m.encoded(),
            Command::NetConfigReq(m) => m.encoded(),
            Command::CalParamReq(m) => m.encoded(),
            Command::CalDataReq(m) => m.payload@,
            Command::TimeSync(m) => m.encoded(),
            Command::CamState(m) => m.encoded(),
            Command::CamConfig(m) => m.encoded(),
            Command::CamConfigReq(m) => m.encoded(),
            Command::SensorAct(m) => m.payload@,
            Command::ShotDataAck => Seq::empty(),
            Command::ShotResultReq => Seq::empty(),
        }
    }

    /// The frame that carries the command to `dest`: the client is always
    /// the source.
    pub open spec fn frame_to(self, dest: BusAddr) -> FrameView {
        FrameView { dest, src: BusAddr::App, type_id: self.type_id(), payload: self.payload() }
    }

    /// Encodes the command into a frame addressed to `dest`.
    pub fn encode(&self, dest: BusAddr) -> (frame: RawFrame)
        ensures
            frame@ == self.frame_to(dest),
    {
        let (type_id, payload): (u8, Vec<u8>) = match self {
            Command::StatusPoll(m) => (TYPE_STATUS, m.encode()),
            Command::ModeSet(m) => (TYPE_MODE_SET, m.encode()),
            Command::AvrConfigCmd(m) => (TYPE_AVR_CONFIG_CMD, m.encode()),
            Command::ParamReadReq(m) => (TYPE_PARAM_READ_REQ, m.encode()),
            Command::ParamValue(m) => (TYPE_PARAM_VALUE, m.encode()),
            Command::RadarCal(m) => (TYPE_RADAR_CAL, m.encode()),
            Command::DspQuery => (TYPE_DSP_QUERY, Vec::new()),
            Command::ConfigQuery => (TYPE_CONFIG_QUERY, Vec::new()),
            Command::AvrConfigQuery => (TYPE_AVR_CONFIG_QUERY, Vec::new()),
            Command::DevInfoReq => (TYPE_DEV_INFO_REQ, Vec::new()),
            Command::ProdInfoReq(m) => (TYPE_PROD_INFO, m.encode()),
            Command::NetConfigReq(m) => (TYPE_NET_CONFIG, m.encode()),
            Command::CalParamReq(m) => (TYPE_CAL_PARAM_REQ, m.encode()),
            Command::CalDataReq(m) => (TYPE_CAL_DATA_REQ, slice_to_vec(m.payload.as_slice())),
            Command::TimeSync(m) => (TYPE_TIME_SYNC, m.encode()),
            Command::CamState(m) => (TYPE_CAM_STATE, m.encode()),
            Command::CamConfig(m) => (TYPE_CAM_CONFIG, m.encode()),
            Command::CamConfigReq(m) => (TYPE_CAM_CONFIG_REQ, m.encode()),
            Command::SensorAct(m) => (TYPE_SENSOR_ACT, m.encode()),
            Command::ShotDataAck => (TYPE_SHOT_DATA_ACK, Vec::new()),
            Command::ShotResultReq => (TYPE_SHOT_RESULT_REQ, Vec::new()),
        };
        RawFrame { dest, src: BusAddr::App, type_id, payload }
    }

    /// The text of [`Command::debug_hex`] for a frame.
    pub open spec fn debug_text(f: FrameView) -> Seq<char> {
        let head = "APP→"@ + f.dest.name_text() + " 0x"@ + hex_byte(f.type_id) + " "@
            + decimal(f.payload.len()) + "B"@;
        if f.payload.len() == 0 {
            head
        } else if f.payload.len() <= 20 {
            head + " | "@ + hex_bytes(f.payload, Seq::empty())
        } else {
            head + " | "@ + hex_bytes(f.payload.take(20), Seq::empty()) + "..."@
        }
    }

    /// Renders the command as one line for a trace, such as
    /// `APP→DSP 0xAA 2B | 0101`: the destination, the type, the length of
    /// the payload, and up to twenty bytes of it in hexadecimal.
    pub fn debug_hex(&self, dest: BusAddr) -> (s: String)
        ensures
            s@ == Self::debug_text(self.frame_to(dest)),
    {
        let frame = self.encode(dest);
        let mut s = String::from_str("APP→");
        s.append(dest.name());
        s.append(" 0x");
        push_hex_byte(&mut s, frame.type_id);
        s.append(" ");
        push_decimal(&mut s, frame.payload.len());
        s.append("B");
        if frame.payload.len() > 0 {
            s.append(" | ");
            push_hex_bytes(&mut s, frame.payload.as_slice(), 20, "");
            if frame.payload.len() > 20 {
                s.append("...");
            }
        }
        proof {
            reveal_strlit("");
            assert(""@ =~= Seq::<char>::empty());
            assert(frame.payload@.take(frame.payload@.len() as int) =~= frame.payload@);
            assert(s@ =~= Self::debug_text(self.frame_to(dest)));
        }
        s
    }
}

// ---------------------------------------------------------------------------
// Messages
// ---------------------------------------------------------------------------

/// A message that a peer of the device sends to the client: an answer that
/// was asked for, or something the device pushes by itself.
#[derive(Debug, Clone)]
pub enum Message {
    /// Status of the microcontroller.
    AvrStatus(status::AvrStatus),
    /// Status of the signal processor.
    DspStatus(status::DspStatus),
    /// Status of the camera processor.
    PiStatus(status::PiStatus),
    /// A command was accepted.
    ConfigAck(status::ConfigAck),
    /// A command was refused.
    ConfigNack(status::ConfigAck),
    /// The mode was reset.
    ModeAck(status::ModeAck),
    /// Debug text.
    Text(status::Text),
    /// Echo of a mode set.
    ModeSet(config::ModeSet),
    /// Value of a parameter.
    ParamValue(config::ParamValue),
    /// Echo of a radar calibration.
    RadarCal(config::RadarCal),
    /// Radar configuration.
    ConfigResp(config::ConfigResp),
    /// Configuration of the microcontroller.
    AvrConfigResp(config::AvrConfigResp),
    /// Answer to the hardware query.
    DspQueryResp(handshake::DspQueryResp),
    /// Device information.
    DevInfoResp(handshake::DevInfoResp),
    /// Product information.
    ProdInfoResp(handshake::ProdInfoResp),
    /// Network configuration.
    NetConfigResp(handshake::NetConfigResp),
    /// IF calibration parameters.
    CalParamResp(handshake::CalParamResp),
    /// Calibration data.
    CalDataResp(handshake::CalDataResp),
    /// Echo of a time synchronisation.
    TimeSync(handshake::TimeSync),
    /// State of the camera.
    CamState(camera::CamState),
    /// Camera configuration.
    CamConfig(camera::CamConfig),
    /// Camera images are available.
    CamImageAvail(camera::CamImageAvail),
    /// Answer to a sensor activation.
    SensorActResp(camera::SensorActResp),
    /// Primary flight result.
    FlightResult(shot::FlightResult),
    /// Early flight result.
    FlightResultV1(shot::FlightResultV1),
    /// Club result.
    ClubResult(shot::ClubResult),
    /// Spin result.
    SpinResult(shot::SpinResult),
    /// Speed profile.
    SpeedProfile(shot::SpeedProfile),
    /// Tracking status.
    TrackingStatus(shot::TrackingStatus),
    /// Ball tracking data.
    PrcData(shot::PrcData),
    /// Club tracking data.
    ClubPrc(shot::ClubPrc),
    /// Shot state text.
    ShotText(shot::ShotText),
    /// Result of a scan for networks, kept as raw bytes.
    WifiScan { payload: Vec<u8> },
    /// Debug output of a second-generation signal processor: terminal text,
    /// kept as raw bytes.
    DspDebug(Vec<u8>),
    /// A message of a type that is not known, or a status that claims to
    /// come from the client itself: kept whole, never an error.
    Unknown { type_id: u8, src: BusAddr, payload: Vec<u8> },
}

impl Message {
    /// Whether `type_id` is one of the types that have a decoder.
    pub open spec fn is_known_type(type_id: u8) -> bool {
        ||| type_id == TYPE_STATUS
        ||| type_id == TYPE_WIFI_SCAN
        ||| type_id == TYPE_DSP_DEBUG
        ||| type_id == TYPE_CONFIG_ACK
        ||| type_id == TYPE_CONFIG_NACK
        ||| type_id == TYPE_MODE_ACK
        ||| type_id == TYPE_TEXT
        ||| type_id == TYPE_MODE_SET
        ||| type_id == TYPE_PARAM_VALUE
        ||| type_id == TYPE_RADAR_CAL
        ||| type_id == TYPE_CONFIG_RESP
        ||| type_id == TYPE_AVR_CONFIG_RESP
        ||| type_id == TYPE_DSP_QUERY_RESP
        ||| type_id == TYPE_DEV_INFO_RESP
        ||| type_id == TYPE_PROD_INFO
        ||| type_id == TYPE_NET_CONFIG
        ||| type_id == TYPE_CAL_PARAM_RESP
        ||| type_id == TYPE_CAL_DATA_RESP
        ||| type_id == TYPE_TIME_SYNC
        ||| type_id == TYPE_CAM_STATE
        ||| type_id == TYPE_CAM_CONFIG
        ||| type_id == TYPE_CAM_IMAGE_AVAIL
        ||| type_id == TYPE_SENSOR_ACT_RESP
        ||| type_id == TYPE_FLIGHT_RESULT
        ||| type_id == TYPE_FLIGHT_RESULT_V1
        ||| type_id == TYPE_CLUB_RESULT
        ||| type_id == TYPE_SPIN_RESULT
        ||| type_id == TYPE_SPEED_PROFILE
        ||| type_id == TYPE_TRACKING_STATUS
        ||| type_id == TYPE_PRC_DATA
        ||| type_id == TYPE_CLUB_PRC
        ||| type_id == TYPE_SHOT_TEXT
    }

    /// Whether `r` is the frame `f` kept whole as an unknown message.
    pub open spec fn is_kept_unknown(f: FrameView, r: Result<Message, WireError>) -> bool {
        r matches Ok(Message::Unknown { type_id, src, payload }) && type_id == f.type_id && src
            == f.src && payload@ == f.payload
    }

    /// What decoding the frame `f` gives.
    ///
    /// The type identifier picks the decoder; for a status the source picks
    /// it. The result is what that decoder makes of the payload, in the
    /// variant of the same name, or the decoder's error. A type without a
    /// decoder gives the frame back as [`Message::Unknown`].
    pub open spec fn decodes(f: FrameView, r: Result<Message, WireError>) -> bool {
        let p = f.payload;
        if f.type_id == TYPE_STATUS {
            match f.src {
                BusAddr::Avr => match r {
                    Ok(Message::AvrStatus(m)) => status::AvrStatus::decodes(p, Ok(m)),
                    Ok(_) => false,
                    Err(e) => status::AvrStatus::decodes(p, Err(e)),
                },
                BusAddr::Dsp => match r {
                    Ok(Message::DspStatus(m)) => status::DspStatus::decodes(p, Ok(m)),
                    Ok(_) => false,
                    Err(e) => status::DspStatus::decodes(p, Err(e)),
                },
                BusAddr::Pi => match r {
                    Ok(Message::PiStatus(m)) => status::PiStatus::decodes(p, Ok(m)),
                    Ok(_) => false,
                    Err(e) => status::PiStatus::decodes(p, Err(e)),
                },
                BusAddr::App => Self::is_kept_unknown(f, r),
            }
        } else if f.type_id == TYPE_CONFIG_ACK {
            match r {
                Ok(Message::ConfigAck(m)) => status::ConfigAck::decodes(p, Ok(m)),
                Ok(_) => false,
                Err(e) => status::ConfigAck::decodes(p, Err(e)),
            }
        } else if f.type_id == TYPE_CONFIG_NACK {
            match r {
                Ok(Message::ConfigNack(m)) => status::ConfigAck::decodes(p, Ok(m)),
                Ok(_) => false,
                Err(e) => status::ConfigAck::decodes(p, Err(e)),
            }
        } else if f.type_id == TYPE_MODE_ACK {
            match r {
                Ok(Message::ModeAck(m)) => status::ModeAck::decodes(p, Ok(m)),
                Ok(_) => false,
                Err(e) => status::ModeAck::decodes(p, Err(e)),
            }
        } else if f.type_id == TYPE_TEXT {
            match r {
                Ok(Message::Text(m)) => status::Text::decodes(p, Ok(m)),
                Ok(_) => false,
                Err(e) => status::Text::decodes(p, Err(e)),
            }
        } else if f.type_id == TYPE_MODE_SET {
            match r {
                Ok(Message::ModeSet(m)) => config::ModeSet::decodes(p, Ok(m)),
                Ok(_) => false,
                Err(e) => config::ModeSet::decodes(p, Err(e)),
            }
        } else if f.type_id == TYPE_PARAM_VALUE {
            match r {
                Ok(Message::ParamValue(m)) => config::ParamValue::decodes(p, Ok(m)),
                Ok(_) => false,
                Err(e) => config::ParamValue::decodes(p, Err(e)),
            }
        } else if f.type_id == TYPE_RADAR_CAL {
            match r {
                Ok(Message::RadarCal(m)) => config::RadarCal::decodes(p, Ok(m)),
                Ok(_) => false,
                Err(e) => config::RadarCal::decodes(p, Err(e)),
            }
        } else if f.type_id == TYPE_CONFIG_RESP {
            match r {
                Ok(Message::ConfigResp(m)) => config::ConfigResp::decodes(p, Ok(m)),
                Ok(_) => false,
                Err(e) => config::ConfigResp::decodes(p, Err(e)),
            }
        } else if f.type_id == TYPE_AVR_CONFIG_RESP {
            match r {
                Ok(Message::AvrConfigResp(m)) => config::AvrConfigResp::decodes(p, Ok(m)),
                Ok(_) => false,
                Err(e) => config::AvrConfigResp::decodes(p, Err(e)),
            }
        } else if f.type_id == TYPE_DSP_QUERY_RESP {
            match r {
                Ok(Message::DspQueryResp(m)) => handshake::DspQueryResp::decodes(p, Ok(m)),
                Ok(_) => false,
                Err(e) => handshake::DspQueryResp::decodes(p, Err(e)),
            }
        } else if f.type_id == TYPE_DEV_INFO_RESP {
            match r {
                Ok(Message::DevInfoResp(m)) => handshake::DevInfoResp::decodes(p, Ok(m)),
                Ok(_) => false,
                Err(e) => handshake::DevInfoResp::decodes(p, Err(e)),
            }
        } else if f.type_id == TYPE_PROD_INFO {
            match r {
                Ok(Message::ProdInfoResp(m)) => handshake::ProdInfoResp::decodes(p, Ok(m)),
                Ok(_) => false,
                Err(e) => handshake::ProdInfoResp::decodes(p, Err(e)),
            }
        } else if f.type_id == TYPE_NET_CONFIG {
            match r {
                Ok(Message::NetConfigResp(m)) => handshake::NetConfigResp::decodes(p, Ok(m)),
                Ok(_) => false,
                Err(e) => handshake::NetConfigResp::decodes(p, Err(e)),
            }
        } else if f.type_id == TYPE_CAL_PARAM_RESP {
            match r {
                Ok(Message::CalParamResp(m)) => handshake::CalParamResp::decodes(p, Ok(m)),
                Ok(_) => false,
                Err(e) => handshake::CalParamResp::decodes(p, Err(e)),
            }
        } else if f.type_id == TYPE_CAL_DATA_RESP {
            match r {
                Ok(Message::CalDataResp(m)) => handshake::CalDataResp::decodes(p, Ok(m)),
                Ok(_) => false,
                Err(e) => handshake::CalDataResp::decodes(p, Err(e)),
            }
        } else if f.type_id == TYPE_TIME_SYNC {
            match r {
                Ok(Message::TimeSync(m)) => handshake::TimeSync::decodes(p, Ok(m)),
                Ok(_) => false,
                Err(e) => handshake::TimeSync::decodes(p, Err(e)),
            }
        } else if f.type_id == TYPE_CAM_STATE {
            match r {
                Ok(Message::CamState(m)) => camera::CamState::decodes(p, Ok(m)),
                Ok(_) => false,
                Err(e) => camera::CamState::decodes(p, Err(e)),
            }
        } else if f.type_id == TYPE_CAM_CONFIG {
            match r {
                Ok(Message::CamConfig(m)) => camera::CamConfig::decodes(p, Ok(m)),
                Ok(_) => false,
                Err(e) => camera::CamConfig::decodes(p, Err(e)),
            }
        } else if f.type_id == TYPE_CAM_IMAGE_AVAIL {
            match r {
                Ok(Message::CamImageAvail(m)) => camera::CamImageAvail::decodes(p, Ok(m)),
                Ok(_) => false,
                Err(e) => camera::CamImageAvail::decodes(p, Err(e)),
            }
        } else if f.type_id == TYPE_SENSOR_ACT_RESP {
            match r {
                Ok(Message::SensorActResp(m)) => camera::SensorActResp::decodes(p, Ok(m)),
                Ok(_) => false,
                Err(e) => camera::SensorActResp::decodes(p, Err(e)),
            }
        } else if f.type_id == TYPE_FLIGHT_RESULT {
            match r {
                Ok(Message::FlightResult(m)) => shot::FlightResult::decodes(p, Ok(m)),
                Ok(_) => false,
                Err(e) => shot::FlightResult::decodes(p, Err(e)),
            }
        } else if f.type_id == TYPE_FLIGHT_RESULT_V1 {
            match r {
                Ok(Message::FlightResultV1(m)) => shot::FlightResultV1::decodes(p, Ok(m)),
                Ok(_) => false,
                Err(e) => shot::FlightResultV1::decodes(p, Err(e)),
            }
        } else if f.type_id == TYPE_CLUB_RESULT {
            match r {
                Ok(Message::ClubResult(m)) => shot::ClubResult::decodes(p, Ok(m)),
                Ok(_) => false,
                Err(e) => shot::ClubResult::decodes(p, Err(e)),
            }
        } else if f.type_id == TYPE_SPIN_RESULT {
            match r {
                Ok(Message::SpinResult(m)) => shot::SpinResult::decodes(p, Ok(m)),
                Ok(_) => false,
                Err(e) => shot::SpinResult::decodes(p, Err(e)),
            }
        } else if f.type_id == TYPE_SPEED_PROFILE {
            match r {
                Ok(Message::SpeedProfile(m)) => shot::SpeedProfile::decodes(p, Ok(m)),
                Ok(_) => false,
                Err(e) => shot::SpeedProfile::decodes(p, Err(e)),
            }
        } else if f.type_id == TYPE_TRACKING_STATUS {
            match r {
                Ok(Message::TrackingStatus(m)) => shot::TrackingStatus::decodes(p, Ok(m)),
                Ok(_) => false,
                Err(e) => shot::TrackingStatus::decodes(p, Err(e)),
            }
        } else if f.type_id == TYPE_PRC_DATA {
            match r {
                Ok(Message::PrcData(m)) => shot::PrcData::decodes(p, Ok(m)),
                Ok(_) => false,
                Err(e) => shot::PrcData::decodes(p, Err(e)),
            }
        } else if f.type_id == TYPE_CLUB_PRC {
            match r {
                Ok(Message::ClubPrc(m)) => shot::ClubPrc::decodes(p, Ok(m)),
                Ok(_) => false,
                Err(e) => shot::ClubPrc::decodes(p, Err(e)),
            }
        } else if f.type_id == TYPE_SHOT_TEXT {
            match r {
                Ok(Message::ShotText(m)) => shot::ShotText::decodes(p, Ok(m)),
                Ok(_) => false,
                Err(e) => shot::ShotText::decodes(p, Err(e)),
            }
        } else if f.type_id == TYPE_WIFI_SCAN {
            r matches Ok(Message::WifiScan { payload }) && payload@ == p
        } else if f.type_id == TYPE_DSP_DEBUG {
            r matches Ok(Message::DspDebug(payload)) && payload@ == p
        } else {
            Self::is_kept_unknown(f, r)
        }
    }

    /// Decodes a frame into a typed message.
    ///
    /// A frame of a type that is not known never fails: it comes back as
    /// [`Message::Unknown`] with its type, source and payload.
    pub fn decode(frame: &RawFrame) -> (r: Result<Message, WireError>)
        ensures
            Self::decodes(frame@, r),
            !Self::is_known_type(frame.type_id) ==> Self::is_kept_unknown(frame@, r),
    {
        let p = frame.payload.as_slice();
        let type_id: u8 = frame.type_id;
        if type_id == TYPE_STATUS {
            match frame.src {
                BusAddr::Avr => match status::AvrStatus::decode(p) {
                    Ok(m) => Ok(Message::AvrStatus(m)),
                    Err(e) => Err(e),
                },
                BusAddr::Dsp => match status::DspStatus::decode(p) {
                    Ok(m) => Ok(Message::DspStatus(m)),
                    Err(e) => Err(e),
                },
                BusAddr::Pi => match status::PiStatus::decode(p) {
                    Ok(m) => Ok(Message::PiStatus(m)),
                    Err(e) => Err(e),
                },
                BusAddr::App => Ok(
                    Message::Unknown { type_id, src: frame.src, payload: slice_to_vec(p) },
                ),
            }
        } else if type_id == TYPE_CONFIG_ACK {
            match status::ConfigAck::decode(p) {
                Ok(m) => Ok(Message::ConfigAck(m)),
                Err(e) => Err(e),
            }
        } else if type_id == TYPE_CONFIG_NACK {
            match status::ConfigAck::decode(p) {
                Ok(m) => Ok(Message::ConfigNack(m)),
                Err(e) => Err(e),
            }
        } else if type_id == TYPE_MODE_ACK {
            match status::ModeAck::decode(p) {
                Ok(m) => Ok(Message::ModeAck(m)),
                Err(e) => Err(e),
            }
        } else if type_id == TYPE_TEXT {
            match status::Text::decode(p) {
                Ok(m) => Ok(Message::Text(m)),
                Err(e) => Err(e),
            }
        } else if type_id == TYPE_MODE_SET {
            match config::ModeSet::decode(p) {
                Ok(m) => Ok(Message::ModeSet(m)),
                Err(e) => Err(e),
            }
        } else if type_id == TYPE_PARAM_VALUE {
            match config::ParamValue::decode(p) {
                Ok(m) => Ok(Message::ParamValue(m)),
                Err(e) => Err(e),
            }
        } else if type_id == TYPE_RADAR_CAL {
            match config::RadarCal::decode(p) {
                Ok(m) => Ok(Message::RadarCal(m)),
                Err(e) => Err(e),
            }
        } else if type_id == TYPE_CONFIG_RESP {
            match config::ConfigResp::decode(p) {
                Ok(m) => Ok(Message::ConfigResp(m)),
                Err(e) => Err(e),
            }
        } else if type_id == TYPE_AVR_CONFIG_RESP {
            match config::AvrConfigResp::decode(p) {
                Ok(m) => Ok(Message::AvrConfigResp(m)),
                Err(e) => Err(e),
            }
        } else if type_id == TYPE_DSP_QUERY_RESP {
            match handshake::DspQueryResp::decode(p) {
                Ok(m) => Ok(Message::DspQueryResp(m)),
                Err(e) => Err(e),
            }
        } else if type_id == TYPE_DEV_INFO_RESP {
            match handshake::DevInfoResp::decode(p) {
                Ok(m) => Ok(Message::DevInfoResp(m)),
                Err(e) => Err(e),
            }
        } else if type_id == TYPE_PROD_INFO {
            match handshake::ProdInfoResp::decode(p) {
                Ok(m) => Ok(Message::ProdInfoResp(m)),
                Err(e) => Err(e),
            }
        } else if type_id == TYPE_NET_CONFIG {
            match handshake::NetConfigResp::decode(p) {
                Ok(m) => Ok(Message::NetConfigResp(m)),
                Err(e) => Err(e),
            }
        } else if type_id == TYPE_CAL_PARAM_RESP {
            match handshake::CalParamResp::decode(p) {
                Ok(m) => Ok(Message::CalParamResp(m)),
                Err(e) => Err(e),
            }
        } else if type_id == TYPE_CAL_DATA_RESP {
            match handshake::CalDataResp::decode(p) {
                Ok(m) => Ok(Message::CalDataResp(m)),
                Err(e) => Err(e),
            }
        } else if type_id == TYPE_TIME_SYNC {
            match handshake::TimeSync::decode(p) {
                Ok(m) => Ok(Message::TimeSync(m)),
                Err(e) => Err(e),
            }
        } else if type_id == TYPE_CAM_STATE {
            match camera::CamState::decode(p) {
                Ok(m) => Ok(Message::CamState(m)),
                Err(e) => Err(e),
            }
        } else if type_id == TYPE_CAM_CONFIG {
            match camera::CamConfig::decode(p) {
                Ok(m) => Ok(Message::CamConfig(m)),
                Err(e) => Err(e),
            }
        } else if type_id == TYPE_CAM_IMAGE_AVAIL {
            match camera::CamImageAvail::decode(p) {
                Ok(m) => Ok(Message::CamImageAvail(m)),
                Err(e) => Err(e),
            }
        } else if type_id == TYPE_SENSOR_ACT_RESP {
            match camera::SensorActResp::decode(p) {
                Ok(m) => Ok(Message::SensorActResp(m)),
                Err(e) => Err(e),
            }
        } else if type_id == TYPE_FLIGHT_RESULT {
            match shot::FlightResult::decode(p) {
                Ok(m) => Ok(Message::FlightResult(m)),
                Err(e) => Err(e),
            }
        } else if type_id == TYPE_FLIGHT_RESULT_V1 {
            match shot::FlightResultV1::decode(p) {
                Ok(m) => Ok(Message::FlightResultV1(m)),
                Err(e) => Err(e),
            }
        } else if type_id == TYPE_CLUB_RESULT {
            match shot::ClubResult::decode(p) {
                Ok(m) => Ok(Message::ClubResult(m)),
                Err(e) => Err(e),
            }
        } else if type_id == TYPE_SPIN_RESULT {
            match shot::SpinResult::decode(p) {
                Ok(m) => Ok(Message::SpinResult(m)),
                Err(e) => Err(e),
            }
        } else if type_id == TYPE_SPEED_PROFILE {
            match shot::SpeedProfile::decode(p) {
                Ok(m) => Ok(Message::SpeedProfile(m)),
                Err(e) => Err(e),
            }
        } else if type_id == TYPE_TRACKING_STATUS {
            match shot::TrackingStatus::decode(p) {
                Ok(m) => Ok(Message::TrackingStatus(m)),
                Err(e) => Err(e),
            }
        } else if type_id == TYPE_PRC_DATA {
            match shot::PrcData::decode(p) {
                Ok(m) => Ok(Message::PrcData(m)),
                Err(e) => Err(e),
            }
        } else if type_id == TYPE_CLUB_PRC {
            match shot::ClubPrc::decode(p) {
                Ok(m) => Ok(Message::ClubPrc(m)),
                Err(e) => Err(e),
            }
        } else if type_id == TYPE_SHOT_TEXT {
            match shot::ShotText::decode(p) {
                Ok(m) => Ok(Message::ShotText(m)),
                Err(e) => Err(e),
            }
        } else if type_id == TYPE_WIFI_SCAN {
            Ok(Message::WifiScan { payload: slice_to_vec(p) })
        } else if type_id == TYPE_DSP_DEBUG {
            Ok(Message::DspDebug(slice_to_vec(p)))
        } else {
            Ok(Message::Unknown { type_id, src: frame.src, payload: slice_to_vec(p) })
        }
    }
}

/// Decoding is total on unknown types: whatever the decoder gives for a
/// frame whose type has no decoder is that frame, kept whole, and never an
/// error.
pub proof fn lemma_unknown_type_never_fails(f: FrameView, r: Result<Message, WireError>)
    requires
        !Message::is_known_type(f.type_id),
        Message::decodes(f, r),
    ensures
        r is Ok,
        Message::is_kept_unknown(f, r),
{
}

// ---------------------------------------------------------------------------
// Kinds of messages
// ---------------------------------------------------------------------------

/// Which variant a [`Message`] is, without what it holds.
#[derive(Debug, Clone, Copy, PartialEq, Eq, Structural)]
pub enum MessageKind {
    AvrStatus,
    DspStatus,
    PiStatus,
    ConfigAck,
    ConfigNack,
    ModeAck,
    Text,
    ModeSet,
    ParamValue,
    RadarCal,
    ConfigResp,
    AvrConfigResp,
    DspQueryResp,
    DevInfoResp,
    ProdInfoResp,
    NetConfigResp,
    CalParamResp,
    CalDataResp,
    TimeSync,
    CamState,
    CamConfig,
    CamImageAvail,
    SensorActResp,
    FlightResult,
    FlightResultV1,
    ClubResult,
    SpinResult,
    SpeedProfile,
    TrackingStatus,
    PrcData,
    ClubPrc,
    ShotText,
    WifiScan,
    DspDebug,
    Unknown,
}

impl MessageKind {
    /// The text of [`MessageKind::name`].
    pub open spec fn name_text(self) -> Seq<char> {
        match self {
            MessageKind::AvrStatus => "Message::AvrStatus"@,
            MessageKind::DspStatus => "Message::DspStatus"@,
            MessageKind::PiStatus => "Message::PiStatus"@,
            MessageKind::ConfigAck => "Message::ConfigAck"@,
            MessageKind::ConfigNack => "Message::ConfigNack"@,
            MessageKind::ModeAck => "Message::ModeAck"@,
            MessageKind::Text => "Message::Text"@,
            MessageKind::ModeSet => "Message::ModeSet"@,
            MessageKind::ParamValue => "Message::ParamValue"@,
            MessageKind::RadarCal => "Message::RadarCal"@,
            MessageKind::ConfigResp => "Message::ConfigResp"@,
            MessageKind::AvrConfigResp => "Message::AvrConfigResp"@,
            MessageKind::DspQueryResp => "Message::DspQueryResp"@,
            MessageKind::DevInfoResp => "Message::DevInfoResp"@,
            MessageKind::ProdInfoResp => "Message::ProdInfoResp"@,
            MessageKind::NetConfigResp => "Message::NetConfigResp"@,
            MessageKind::CalParamResp => "Message::CalParamResp"@,
            MessageKind::CalDataResp => "Message::CalDataResp"@,
            MessageKind::TimeSync => "Message::TimeSync"@,
            MessageKind::CamState => "Message::CamState"@,
            MessageKind::CamConfig => "Message::CamConfig"@,
            MessageKind::CamImageAvail => "Message::CamImageAvail"@,
            MessageKind::SensorActResp => "Message::SensorActResp"@,
            MessageKind::FlightResult => "Message::FlightResult"@,
            MessageKind::FlightResultV1 => "Message::FlightResultV1"@,
            MessageKind::ClubResult => "Message::ClubResult"@,
            MessageKind::SpinResult => "Message::SpinResult"@,
            MessageKind::SpeedProfile => "Message::SpeedProfile"@,
            MessageKind::TrackingStatus => "Message::TrackingStatus"@,
            MessageKind::PrcData => "Message::PrcData"@,
            MessageKind::ClubPrc => "Message::ClubPrc"@,
            MessageKind::ShotText => "Message::ShotText"@,
            MessageKind::WifiScan => "Message::WifiScan"@,
            MessageKind::DspDebug => "Message::DspDebug"@,
            MessageKind::Unknown => "Message::Unknown"@,
        }
    }

    /// The name of the variant, as it is written in a program.
    pub fn name(self) -> (s: &'static str)
        ensures
            s@ == self.name_text(),
    {
        match self {
            MessageKind::AvrStatus => "Message::AvrStatus",
            MessageKind::DspStatus => "Message::DspStatus",
            MessageKind::PiStatus => "Message::PiStatus",
            MessageKind::ConfigAck => "Message::ConfigAck",
            MessageKind::ConfigNack => "Message::ConfigNack",
            MessageKind::ModeAck => "Message::ModeAck",
            MessageKind::Text => "Message::Text",
            MessageKind::ModeSet => "Message::ModeSet",
            MessageKind::ParamValue => "Message::ParamValue",
            MessageKind::RadarCal => "Message::RadarCal",
            MessageKind::ConfigResp => "Message::ConfigResp",
            MessageKind::AvrConfigResp => "Message::AvrConfigResp",
            MessageKind::DspQueryResp => "Message::DspQueryResp",
            MessageKind::DevInfoResp => "Message::DevInfoResp",
            MessageKind::ProdInfoResp => "Message::ProdInfoResp",
            MessageKind::NetConfigResp => "Message::NetConfigResp",
            MessageKind::CalParamResp => "Message::CalParamResp",
            MessageKind::CalDataResp => "Message::CalDataResp",
            MessageKind::TimeSync => "Message::TimeSync",
            MessageKind::CamState => "Message::CamState",
            MessageKind::CamConfig => "Message::CamConfig",
            MessageKind::CamImageAvail => "Message::CamImageAvail",
            MessageKind::SensorActResp => "Message::SensorActResp",
            MessageKind::FlightResult => "Message::FlightResult",
            MessageKind::FlightResultV1 => "Message::FlightResultV1",
            MessageKind::ClubResult => "Message::ClubResult",
            MessageKind::SpinResult => "Message::SpinResult",
            MessageKind::SpeedProfile => "Message::SpeedProfile",
            MessageKind::TrackingStatus => "Message::TrackingStatus",
            MessageKind::PrcData => "Message::PrcData",
            MessageKind::ClubPrc => "Message::ClubPrc",
            MessageKind::ShotText => "Message::ShotText",
            MessageKind::WifiScan => "Message::WifiScan",
            MessageKind::DspDebug => "Message::DspDebug",
            MessageKind::Unknown => "Message::Unknown",
        }
    }
}

impl Message {
    /// Which variant the message is.
    pub open spec fn kind(self) -> MessageKind {
        match self {
            Message::AvrStatus(_) => MessageKind::AvrStatus,
            Message::DspStatus(_) => MessageKind::DspStatus,
            Message::PiStatus(_) => MessageKind::PiStatus,
            Message::ConfigAck(_) => MessageKind::ConfigAck,
            Message::ConfigNack(_) => MessageKind::ConfigNack,
            Message::ModeAck(_) => MessageKind::ModeAck,
            Message::Text(_) => MessageKind::Text,
            Message::ModeSet(_) => MessageKind::ModeSet,
            Message::ParamValue(_) => MessageKind::ParamValue,
            Message::RadarCal(_) => MessageKind::RadarCal,
            Message::ConfigResp(_) => MessageKind::ConfigResp,
            Message::AvrConfigResp(_) => MessageKind::AvrConfigResp,
            Message::DspQueryResp(_) => MessageKind::DspQueryResp,
            Message::DevInfoResp(_) => MessageKind::DevInfoResp,
            Message::ProdInfoResp(_) => MessageKind::ProdInfoResp,
            Message::NetConfigResp(_) => MessageKind::NetConfigResp,
            Message::CalParamResp(_) => MessageKind::CalParamResp,
            Message::CalDataResp(_) => MessageKind::CalDataResp,
            Message::TimeSync(_) => MessageKind::TimeSync,
            Message::CamState(_) => MessageKind::CamState,
            Message::CamConfig(_) => MessageKind::CamConfig,
            Message::CamImageAvail(_) => MessageKind::CamImageAvail,
            Message::SensorActResp(_) => MessageKind::SensorActResp,
            Message::FlightResult(_) => MessageKind::FlightResult,
            Message::FlightResultV1(_) => MessageKind::FlightResultV1,
            Message::ClubResult(_) => MessageKind::ClubResult,
            Message::SpinResult(_) => MessageKind::SpinResult,
            Message::SpeedProfile(_) => MessageKind::SpeedProfile,
            Message::TrackingStatus(_) => MessageKind::TrackingStatus,
            Message::PrcData(_) => MessageKind::PrcData,
            Message::ClubPrc(_) => MessageKind::ClubPrc,
            Message::ShotText(_) => MessageKind::ShotText,
            Message::WifiScan { .. } => MessageKind::WifiScan,
            Message::DspDebug(_) => MessageKind::DspDebug,
            Message::Unknown { .. } => MessageKind::Unknown,
        }
    }

    /// Which variant the message is.
    pub fn kind_of(&self) -> (k: MessageKind)
        ensures
            k == self.kind(),
    {
        match self {
            Message::AvrStatus(_) => MessageKind::AvrStatus,
            Message::DspStatus(_) => MessageKind::DspStatus,
            Message::PiStatus(_) => MessageKind::PiStatus,
            Message::ConfigAck(_) => MessageKind::ConfigAck,
            Message::ConfigNack(_) => MessageKind::ConfigNack,
            Message::ModeAck(_) => MessageKind::ModeAck,
            Message::Text(_) => MessageKind::Text,
            Message::ModeSet(_) => MessageKind::ModeSet,
            Message::ParamValue(_) => MessageKind::ParamValue,
            Message::RadarCal(_) => MessageKind::RadarCal,
            Message::ConfigResp(_) => MessageKind::ConfigResp,
            Message::AvrConfigResp(_) => MessageKind::AvrConfigResp,
            Message::DspQueryResp(_) => MessageKind::DspQueryResp,
            Message::DevInfoResp(_) => MessageKind::DevInfoResp,
            Message::ProdInfoResp(_) => MessageKind::ProdInfoResp,
            Message::NetConfigResp(_) => MessageKind::NetConfigResp,
            Message::CalParamResp(_) => MessageKind::CalParamResp,
            Message::CalDataResp(_) => MessageKind::CalDataResp,
            Message::TimeSync(_) => MessageKind::TimeSync,
            Message::CamState(_) => MessageKind::CamState,
            Message::CamConfig(_) => MessageKind::CamConfig,
            Message::CamImageAvail(_) => MessageKind::CamImageAvail,
            Message::SensorActResp(_) => MessageKind::SensorActResp,
            Message::FlightResult(_) => MessageKind::FlightResult,
            Message::FlightResultV1(_) => MessageKind::FlightResultV1,
            Message::ClubResult(_) => MessageKind::ClubResult,
            Message::SpinResult(_) => MessageKind::SpinResult,
            Message::SpeedProfile(_) => MessageKind::SpeedProfile,
            Message::TrackingStatus(_) => MessageKind::TrackingStatus,
            Message::PrcData(_) => MessageKind::PrcData,
            Message::ClubPrc(_) => MessageKind::ClubPrc,
            Message::ShotText(_) => MessageKind::ShotText,
            Message::WifiScan { .. } => MessageKind::WifiScan,
            Message::DspDebug(_) => MessageKind::DspDebug,
            Message::Unknown { .. } => MessageKind::Unknown,
        }
    }
}

} // verus!
