//! Camera messages, exchanged with the camera processor.

use crate::codec::{
    be_bytes2, be_i16, float40_at, read_float40, read_int16, write_float40, write_int16, Float40,
};
use crate::error::{too_short, WireError};
use crate::text::{cstr_bytes, decode_cstr, lossy_text};
use vstd::prelude::*;
use vstd::slice::{slice_subrange, slice_to_vec};

verus! {

// ---------------------------------------------------------------------------
// Camera state
// ---------------------------------------------------------------------------

/// Starts or stops the camera, or reports its state: `[01 state]`. Type
/// `0x81`.
///
/// To the device: 0 stops, 1 starts, 3 starts with streaming. From the
/// device: 0 is off, 1 is on.
#[derive(Debug, Clone, Copy)]
pub struct CamState {
    pub state: u8,
}

impl CamState {
    /// The payload of the message.
    pub open spec fn encoded(self) -> Seq<u8> {
        seq![0x01u8, self.state]
    }

    /// What decoding the payload `p` gives.
    pub open spec fn decodes(p: Seq<u8>, r: Result<Self, WireError>) -> bool {
        match r {
            Ok(v) => p.len() >= 2 && v.state == p[1],
            Err(e) => p.len() < 2 && e@ == too_short("CamState"@, 2, p.len()),
        }
    }

    /// Decodes the message from its payload.
    pub fn decode(payload: &[u8]) -> (r: Result<Self, WireError>)
        ensures
            Self::decodes(payload@, r),
    {
        if payload.len() < 2 {
            return Err(WireError::payload_too_short("CamState", 2, payload.len()));
        }
        Ok(CamState { state: payload[1] })
    }

    /// Encodes the message into its payload.
    pub fn encode(&self) -> (buf: Vec<u8>)
        ensures
            buf@ == self.encoded(),
    {
        let mut buf: Vec<u8> = Vec::new();
        buf.push(0x01);
        buf.push(self.state);
        assert(buf@ =~= self.encoded());
        buf
    }
}

// ---------------------------------------------------------------------------
// Camera configuration
// ---------------------------------------------------------------------------

/// A flag as it is written: one for true, zero for false.
pub open spec fn flag_byte(b: bool) -> u8 {
    if b {
        1
    } else {
        0
    }
}

/// Camera configuration: 52 bytes that begin with the size marker `0x33`.
/// Type `0x82`.
#[derive(Debug, Clone, Copy)]
pub struct CamConfig {
    /// Whether the configuration is dynamic.
    pub dynamic_config: bool,
    /// Capture width, in pixels.
    pub resolution_width: i16,
    /// Capture height, in pixels.
    pub resolution_height: i16,
    /// Rotation.
    pub rotation: i16,
    /// Exposure value.
    pub ev: i16,
    /// JPEG quality.
    pub quality: u8,
    /// Frame rate of the camera.
    pub framerate: u8,
    /// Frame rate of the stream.
    pub streaming_framerate: u8,
    /// Time kept in the ring buffer before the trigger (ms).
    pub ringbuffer_pretime_ms: i16,
    /// Time kept in the ring buffer after the trigger (ms).
    pub ringbuffer_posttime_ms: i16,
    /// Raw camera mode.
    pub raw_camera_mode: u8,
    /// Whether the camera works in fusion mode.
    pub fusion_camera_mode: bool,
    /// Longest raw shutter speed.
    pub raw_shutter_speed_max: Float40,
    /// Region of interest for exposure: x.
    pub raw_ev_roi_x: i16,
    /// Region of interest for exposure: y.
    pub raw_ev_roi_y: i16,
    /// Region of interest for exposure: width.
    pub raw_ev_roi_width: i16,
    /// Region of interest for exposure: height.
    pub raw_ev_roi_height: i16,
    /// Raw x offset.
    pub raw_x_offset: i16,
    /// Whether raw frames are binned four by four.
    pub raw_bin44: bool,
    /// Interval between writes of the live preview (ms).
    pub raw_live_preview_write_interval_ms: i16,
    /// Raw y offset.
    pub raw_y_offset: i16,
    /// Sub-sampling divisor before the trigger.
    pub buffer_sub_sampling_pre_trigger_div: i16,
    /// Sub-sampling divisor after the trigger.
    pub buffer_sub_sampling_post_trigger_div: i16,
    /// Offset of the time at which sub-sampling switches.
    pub buffer_sub_sampling_switch_time_offset: Float40,
    /// Total size of the sub-sampling buffer.
    pub buffer_sub_sampling_total_buffer_size: i16,
    /// Size of the sub-sampling buffer before the trigger.
    pub buffer_sub_sampling_pre_trigger_buffer_size: i16,
}

impl CamConfig {
    /// Whether the fields are those that the payload `p` lays out.
    pub open spec fn read_from(self, p: Seq<u8>) -> bool {
        &&& self.dynamic_config == (p[1] != 0)
        &&& self.resolution_width == be_i16(p, 2)
        &&& self.resolution_height == be_i16(p, 4)
        &&& self.rotation == be_i16(p, 6)
        &&& self.ev == be_i16(p, 8)
        &&& self.quality == p[10]
        &&& self.framerate == p[11]
        &&& self.streaming_framerate == p[12]
        &&& self.ringbuffer_pretime_ms == be_i16(p, 13)
        &&& self.ringbuffer_posttime_ms == be_i16(p, 15)
        &&& self.raw_camera_mode == p[17]
        &&& self.fusion_camera_mode == (p[18] != 0)
        &&& self.raw_shutter_speed_max == float40_at(p, 19)
        &&& self.raw_ev_roi_x == be_i16(p, 24)
        &&& self.raw_ev_roi_y == be_i16(p, 26)
        &&& self.raw_ev_roi_width == be_i16(p, 28)
        &&& self.raw_ev_roi_height == be_i16(p, 30)
        &&& self.raw_x_offset == be_i16(p, 32)
        &&& self.raw_bin44 == (p[34] != 0)
        &&& self.raw_live_preview_write_interval_ms == be_i16(p, 35)
        &&& self.raw_y_offset == be_i16(p, 37)
        &&& self.buffer_sub_sampling_pre_trigger_div == be_i16(p, 39)
        &&& self.buffer_sub_sampling_post_trigger_div == be_i16(p, 41)
        &&& self.buffer_sub_sampling_switch_time_offset == float40_at(p, 43)
        &&& self.buffer_sub_sampling_total_buffer_size == be_i16(p, 48)
        &&& self.buffer_sub_sampling_pre_trigger_buffer_size == be_i16(p, 50)
    }

    /// What decoding the payload `p` gives.
    pub open spec fn decodes(p: Seq<u8>, r: Result<Self, WireError>) -> bool {
        match r {
            Ok(v) => p.len() >= 52 && v.read_from(p),
            Err(e) => p.len() < 52 && e@ == too_short("CamConfig"@, 52, p.len()),
        }
    }

    /// Decodes the message from its payload.
    pub fn decode(payload: &[u8]) -> (r: Result<Self, WireError>)
        ensures
            Self::decodes(payload@, r),
    {
        if payload.len() < 52 {
            return Err(WireError::payload_too_short("CamConfig", 52, payload.len()));
        }
        Ok(
            CamConfig {
                dynamic_config: payload[1] != 0,
                resolution_width: read_int16(payload, 2)?,
                resolution_height: read_int16(payload, 4)?,
                rotation: read_int16(payload, 6)?,
                ev: read_int16(payload, 8)?,
                quality: payload[10],
                framerate: payload[11],
                streaming_framerate: payload[12],
                ringbuffer_pretime_ms: read_int16(payload, 13)?,
                ringbuffer_posttime_ms: read_int16(payload, 15)?,
                raw_camera_mode: payload[17],
                fusion_camera_mode: payload[18] != 0,
                raw_shutter_speed_max: read_float40(payload, 19)?,
                raw_ev_roi_x: read_int16(payload, 24)?,
                raw_ev_roi_y: read_int16(payload, 26)?,
                raw_ev_roi_width: read_int16(payload, 28)?,
                raw_ev_roi_height: read_int16(payload, 30)?,
                raw_x_offset: read_int16(payload, 32)?,
                raw_bin44: payload[34] != 0,
                raw_live_preview_write_interval_ms: read_int16(payload, 35)?,
                raw_y_offset: read_int16(payload, 37)?,
                buffer_sub_sampling_pre_trigger_div: read_int16(payload, 39)?,
                buffer_sub_sampling_post_trigger_div: read_int16(payload, 41)?,
                buffer_sub_sampling_switch_time_offset: read_float40(payload, 43)?,
                buffer_sub_sampling_total_buffer_size: read_int16(payload, 48)?,
                buffer_sub_sampling_pre_trigger_buffer_size: read_int16(payload, 50)?,
            },
        )
    }

    /// The payload of the message: the size marker, then the fields in the
    /// order of the layout.
    pub open spec fn encoded(self) -> Seq<u8> {
        seq![0x33u8, flag_byte(self.dynamic_config)]
            + be_bytes2(self.resolution_width as int)
            + be_bytes2(self.resolution_height as int)
            + be_bytes2(self.rotation as int)
            + be_bytes2(self.ev as int)
            + seq![self.quality]
            + seq![self.framerate]
            + seq![self.streaming_framerate]
            + be_bytes2(self.ringbuffer_pretime_ms as int)
            + be_bytes2(self.ringbuffer_posttime_ms as int)
            + seq![self.raw_camera_mode]
            + seq![flag_byte(self.fusion_camera_mode)]
            + self.raw_shutter_speed_max.wire_bytes()
            + be_bytes2(self.raw_ev_roi_x as int)
            + be_bytes2(self.raw_ev_roi_y as int)
            + be_bytes2(self.raw_ev_roi_width as int)
            + be_bytes2(self.raw_ev_roi_height as int)
            + be_bytes2(self.raw_x_offset as int)
            + seq![flag_byte(self.raw_bin44)]
            + be_bytes2(self.raw_live_preview_write_interval_ms as int)
            + be_bytes2(self.raw_y_offset as int)
            + be_bytes2(self.buffer_sub_sampling_pre_trigger_div as int)
            + be_bytes2(self.buffer_sub_sampling_post_trigger_div as int)
            + self.buffer_sub_sampling_switch_time_offset.wire_bytes()
            + be_bytes2(self.buffer_sub_sampling_total_buffer_size as int)
            + be_bytes2(self.buffer_sub_sampling_pre_trigger_buffer_size as int)
    }

    /// Encodes the message into its payload.
    pub fn encode(&self) -> (buf: Vec<u8>)
        ensures
            buf@ == self.encoded(),
            buf@.len() == 52,
    {
        let mut buf: Vec<u8> = Vec::new();
        buf.push(0x33);
        buf.push(if self.dynamic_config { 1 } else { 0 });
        write_int16(&mut buf, self.resolution_width);
        write_int16(&mut buf, self.resolution_height);
        write_int16(&mut buf, self.rotation);
        write_int16(&mut buf, self.ev);
        buf.push(self.quality);
        buf.push(self.framerate);
        buf.push(self.streaming_framerate);
        write_int16(&mut buf, self.ringbuffer_pretime_ms);
        write_int16(&mut buf, self.ringbuffer_posttime_ms);
        buf.push(self.raw_camera_mode);
        buf.push(if self.fusion_camera_mode { 1 } else { 0 });
        write_float40(&mut buf, self.raw_shutter_speed_max);
        write_int16(&mut buf, self.raw_ev_roi_x);
        write_int16(&mut buf, self.raw_ev_roi_y);
        write_int16(&mut buf, self.raw_ev_roi_width);
        write_int16(&mut buf, self.raw_ev_roi_height);
        write_int16(&mut buf, self.raw_x_offset);
        buf.push(if self.raw_bin44 { 1 } else { 0 });
        write_int16(&mut buf, self.raw_live_preview_write_interval_ms);
        write_int16(&mut buf, self.raw_y_offset);
        write_int16(&mut buf, self.buffer_sub_sampling_pre_trigger_div);
        write_int16(&mut buf, self.buffer_sub_sampling_post_trigger_div);
        write_float40(&mut buf, self.buffer_sub_sampling_switch_time_offset);
        write_int16(&mut buf, self.buffer_sub_sampling_total_buffer_size);
        write_int16(&mut buf, self.buffer_sub_sampling_pre_trigger_buffer_size);
        assert(buf@ =~= self.encoded());
        buf
    }
}

/// Asks for the camera configuration: always `[02 01 05]`. Type `0x83`.
#[derive(Debug, Clone, Copy)]
pub struct CamConfigReq;

impl CamConfigReq {
    /// The payload of the message.
    pub open spec fn encoded(self) -> Seq<u8> {
        seq![0x02u8, 0x01u8, 0x05u8]
    }

    /// What decoding a payload gives: always the request.
    pub open spec fn decodes(p: Seq<u8>, r: Result<Self, WireError>) -> bool {
        r is Ok
    }

    /// Decodes the message from its payload.
    pub fn decode(_payload: &[u8]) -> (r: Result<Self, WireError>)
        ensures
            Self::decodes(_payload@, r),
    {
        Ok(CamConfigReq)
    }

    /// Encodes the message into its payload.
    pub fn encode(&self) -> (buf: Vec<u8>)
        ensures
            buf@ == self.encoded(),
    {
        let mut buf: Vec<u8> = Vec::new();
        buf.push(0x02);
        buf.push(0x01);
        buf.push(0x05);
        assert(buf@ =~= self.encoded());
        buf
    }
}

// ---------------------------------------------------------------------------
// Image availability
// ---------------------------------------------------------------------------

/// Tells after a shot which camera images are there. Type `0x84`.
///
/// It comes in two forms. The long form begins with `0x42` and has 67
/// bytes: two flag bytes and two time stamps in null-padded slots of 32
/// bytes. The short form has the flags of the stream in its second byte
/// and nothing else.
#[derive(Debug, Clone)]
pub struct CamImageAvail {
    /// Whether a stream is available.
    pub streaming_available: bool,
    /// Whether fusion data is available.
    pub fusion_available: bool,
    /// Whether a video is available.
    pub video_available: bool,
    /// Time stamp of the stream, where the slot is not empty.
    pub streaming_timestamp: Option<String>,
    /// Time stamp of the fusion data, where the slot is not empty.
    pub fusion_timestamp: Option<String>,
}

/// Whether the lowest bit of `flags` is set.
pub open spec fn bit0(flags: u8) -> bool {
    flags % 2 == 1
}

/// Whether the second lowest bit of `flags` is set.
pub open spec fn bit1(flags: u8) -> bool {
    (flags / 2) % 2 == 1
}

/// Whether `t` is the text of the null-padded slot `slot`: none where the
/// slot begins with a zero byte.
pub open spec fn is_slot_text(t: Option<String>, slot: Seq<u8>) -> bool {
    if cstr_bytes(slot).len() == 0 {
        t is None
    } else {
        t matches Some(s) && s@ == lossy_text(cstr_bytes(slot))
    }
}

/// Reads a null-padded string of fixed width; an empty one gives nothing.
fn parse_null_padded_string(data: &[u8]) -> (t: Option<String>)
    ensures
        is_slot_text(t, data@),
{
    proof {
        crate::bytes::lemma_find_byte(data@, 0, 0);
    }
    if data.len() == 0 || data[0] == 0 {
        None
    } else {
        Some(decode_cstr(data))
    }
}

impl CamImageAvail {
    /// Whether the fields are those that the payload `p` lays out.
    pub open spec fn read_from(self, p: Seq<u8>) -> bool {
        if p[0] == 0x42 {
            &&& self.streaming_available == bit0(p[1])
            &&& self.fusion_available == bit0(p[2])
            &&& self.video_available == bit1(p[2])
            &&& is_slot_text(self.streaming_timestamp, p.subrange(3, 35))
            &&& is_slot_text(self.fusion_timestamp, p.subrange(35, 67))
        } else {
            &&& self.streaming_available == (p.len() > 1 && bit0(p[1]))
            &&& !self.fusion_available
            &&& !self.video_available
            &&& self.streaming_timestamp is None
            &&& self.fusion_timestamp is None
        }
    }

    /// What decoding the payload `p` gives: the notice, or a complaint:
    /// that the payload is empty, or that the long form is cut short.
    pub open spec fn decodes(p: Seq<u8>, r: Result<Self, WireError>) -> bool {
        if p.len() == 0 {
            r matches Err(e) && e@ == too_short("CamImageAvail"@, 1, 0)
        } else if p[0] == 0x42 && p.len() < 67 {
            r matches Err(e) && e@ == too_short("CamImageAvail(long)"@, 67, p.len())
        } else {
            r matches Ok(v) && v.read_from(p)
        }
    }

    /// Decodes the message from its payload.
    pub fn decode(payload: &[u8]) -> (r: Result<Self, WireError>)
        ensures
            Self::decodes(payload@, r),
    {
        if payload.len() == 0 {
            return Err(WireError::payload_too_short("CamImageAvail", 1, 0));
        }
        if payload[0] == 0x42 {
            if payload.len() < 67 {
                return Err(
                    WireError::payload_too_short("CamImageAvail(long)", 67, payload.len()),
                );
            }
            let streaming_flags: u8 = payload[1];
            let fusion_flags: u8 = payload[2];
            let streaming_timestamp = parse_null_padded_string(slice_subrange(payload, 3, 35));
            let fusion_timestamp = parse_null_padded_string(slice_subrange(payload, 35, 67));
            Ok(
                CamImageAvail {
                    streaming_available: streaming_flags % 2 == 1,
                    fusion_available: fusion_flags % 2 == 1,
                    video_available: (fusion_flags / 2) % 2 == 1,
                    streaming_timestamp,
                    fusion_timestamp,
                },
            )
        } else {
            let flags: u8 = if payload.len() > 1 {
                payload[1]
            } else {
                0
            };
            Ok(
                CamImageAvail {
                    streaming_available: flags % 2 == 1,
                    fusion_available: false,
                    video_available: false,
                    streaming_timestamp: None,
                    fusion_timestamp: None,
                },
            )
        }
    }
}

// ---------------------------------------------------------------------------
// Sensor activation
// ---------------------------------------------------------------------------

/// Sensor activation data, sent to the camera processor as opaque bytes.
/// Type `0x90`.
#[derive(Debug, Clone)]
pub struct SensorAct {
    pub payload: Vec<u8>,
}

impl SensorAct {
    /// What decoding the payload `p` gives: always the bytes themselves.
    pub open spec fn decodes(p: Seq<u8>, r: Result<Self, WireError>) -> bool {
        r matches Ok(v) && v.payload@ == p
    }

    /// Decodes the message from its payload.
    pub fn decode(payload: &[u8]) -> (r: Result<Self, WireError>)
        ensures
            Self::decodes(payload@, r),
    {
        Ok(SensorAct { payload: slice_to_vec(payload) })
    }

    /// Encodes the message into its payload.
    pub fn encode(&self) -> (buf: Vec<u8>)
        ensures
            buf@ == self.payload@,
    {
        slice_to_vec(self.payload.as_slice())
    }
}

/// Answer to a sensor activation: the certificate of the device, as opaque
/// bytes. Type `0x89`.
#[derive(Debug, Clone)]
pub struct SensorActResp {
    pub payload: Vec<u8>,
}

impl SensorActResp {
    /// What decoding the payload `p` gives: always the bytes themselves.
    pub open spec fn decodes(p: Seq<u8>, r: Result<Self, WireError>) -> bool {
        r matches Ok(v) && v.payload@ == p
    }

    /// Decodes the message from its payload.
    pub fn decode(payload: &[u8]) -> (r: Result<Self, WireError>)
        ensures
            Self::decodes(payload@, r),
    {
        Ok(SensorActResp { payload: slice_to_vec(payload) })
    }
}

// ---------------------------------------------------------------------------
// Laws
// ---------------------------------------------------------------------------

/// Whether a FLOAT40 survives the wire: its mantissa fits 24 bits, and its
/// exponent is zero where it is the number zero.
pub open spec fn survives_wire(v: Float40) -> bool {
    v.wf() && (v.mantissa == 0 ==> v.exponent == 0)
}

/// A signed 16-bit field that ends a prefix of `e` reads back from `e`.
proof fn lemma_int16_inside(e: Seq<u8>, before: Seq<u8>, v: i16)
    requires
        before.len() + 2 <= e.len(),
        e.subrange(0, before.len() as int + 2) == before + be_bytes2(v as int),
    ensures
        be_i16(e, before.len() as int) == v,
{
    let n = before.len() as int;
    crate::codec::lemma_int16_round_trip(before, v as int);
    assert(e[n] == e.subrange(0, n + 2)[n]);
    assert(e[n + 1] == e.subrange(0, n + 2)[n + 1]);
}

/// A FLOAT40 field that ends a prefix of `e` reads back from `e`.
proof fn lemma_float40_inside(e: Seq<u8>, before: Seq<u8>, v: Float40)
    requires
        survives_wire(v),
        before.len() + 5 <= e.len(),
        e.subrange(0, before.len() as int + 5) == before + v.wire_bytes(),
    ensures
        float40_at(e, before.len() as int) == v,
{
    let n = before.len() as int;
    crate::codec::lemma_float40_round_trip(before, v);
    assert forall|k: int| n <= k < n + 5 implies e[k] == (before + v.wire_bytes())[k] by {
        assert(e[k] == e.subrange(0, n + 5)[k]);
    }
}

/// A byte that ends a prefix of `e` is that byte of `e`.
proof fn lemma_byte_inside(e: Seq<u8>, before: Seq<u8>, b: u8)
    requires
        before.len() + 1 <= e.len(),
        e.subrange(0, before.len() as int + 1) == before + seq![b],
    ensures
        e[before.len() as int] == b,
{
    let n = before.len() as int;
    assert(e[n] == e.subrange(0, n + 1)[n]);
}

/// The bytes of field `i` of a camera configuration, counted from one.
spec fn field_bytes(c: CamConfig, i: int) -> Seq<u8> {
    if i <= 1 {
        seq![flag_byte(c.dynamic_config)]
    } else if i == 2 {
        be_bytes2(c.resolution_width as int)
    } else if i == 3 {
        be_bytes2(c.resolution_height as int)
    } else if i == 4 {
        be_bytes2(c.rotation as int)
    } else if i == 5 {
        be_bytes2(c.ev as int)
    } else if i == 6 {
        seq![c.quality]
    } else if i == 7 {
        seq![c.framerate]
    } else if i == 8 {
        seq![c.streaming_framerate]
    } else if i == 9 {
        be_bytes2(c.ringbuffer_pretime_ms as int)
    } else if i == 10 {
        be_bytes2(c.ringbuffer_posttime_ms as int)
    } else if i == 11 {
        seq![c.raw_camera_mode]
    } else if i == 12 {
        seq![flag_byte(c.fusion_camera_mode)]
    } else if i == 13 {
        c.raw_shutter_speed_max.wire_bytes()
    } else if i == 14 {
        be_bytes2(c.raw_ev_roi_x as int)
    } else if i == 15 {
        be_bytes2(c.raw_ev_roi_y as int)
    } else if i == 16 {
        be_bytes2(c.raw_ev_roi_width as int)
    } else if i == 17 {
        be_bytes2(c.raw_ev_roi_height as int)
    } else if i == 18 {
        be_bytes2(c.raw_x_offset as int)
    } else if i == 19 {
        seq![flag_byte(c.raw_bin44)]
    } else if i == 20 {
        be_bytes2(c.raw_live_preview_write_interval_ms as int)
    } else if i == 21 {
        be_bytes2(c.raw_y_offset as int)
    } else if i == 22 {
        be_bytes2(c.buffer_sub_sampling_pre_trigger_div as int)
    } else if i == 23 {
        be_bytes2(c.buffer_sub_sampling_post_trigger_div as int)
    } else if i == 24 {
        c.buffer_sub_sampling_switch_time_offset.wire_bytes()
    } else if i == 25 {
        be_bytes2(c.buffer_sub_sampling_total_buffer_size as int)
    } else if i == 26 {
        be_bytes2(c.buffer_sub_sampling_pre_trigger_buffer_size as int)
    } else {
        Seq::empty()
    }
}

/// The payload of a camera configuration up to and including its first
/// `n` fields.
spec fn encoded_fields(c: CamConfig, n: int) -> Seq<u8>
    decreases n,
{
    if n <= 0 {
        seq![0x33u8]
    } else {
        encoded_fields(c, n - 1) + field_bytes(c, n)
    }
}

/// Fewer fields are a prefix of more fields.
proof fn lemma_fields_prefix(c: CamConfig, n: int, m: int)
    requires
        0 <= n <= m,
    ensures
        encoded_fields(c, n).len() <= encoded_fields(c, m).len(),
        encoded_fields(c, m).subrange(0, encoded_fields(c, n).len() as int) == encoded_fields(
            c,
            n,
        ),
    decreases m - n,
{
    if n == m {
        assert(encoded_fields(c, m).subrange(0, encoded_fields(c, n).len() as int)
            =~= encoded_fields(c, n));
    } else {
        lemma_fields_prefix(c, n, m - 1);
        let a = encoded_fields(c, m - 1);
        let k = encoded_fields(c, n).len() as int;
        assert((a + field_bytes(c, m)).subrange(0, k) =~= a.subrange(0, k));
    }
}

/// The payload is its fields one after the other.
proof fn lemma_encoded_is_fields(c: CamConfig)
    ensures
        c.encoded() == encoded_fields(c, 26),
{
    let e1 = seq![0x33u8, flag_byte(c.dynamic_config)];
    assert(encoded_fields(c, 0) == seq![0x33u8]);
    assert(encoded_fields(c, 1) =~= e1);
    let e2 = e1 + be_bytes2(c.resolution_width as int);
    assert(encoded_fields(c, 2) == e2);
    let e3 = e2 + be_bytes2(c.resolution_height as int);
    assert(encoded_fields(c, 3) == e3);
    let e4 = e3 + be_bytes2(c.rotation as int);
    assert(encoded_fields(c, 4) == e4);
    let e5 = e4 + be_bytes2(c.ev as int);
    assert(encoded_fields(c, 5) == e5);
    let e6 = e5 + seq![c.quality];
    assert(encoded_fields(c, 6) == e6);
    let e7 = e6 + seq![c.framerate];
    assert(encoded_fields(c, 7) == e7);
    let e8 = e7 + seq![c.streaming_framerate];
    assert(encoded_fields(c, 8) == e8);
    let e9 = e8 + be_bytes2(c.ringbuffer_pretime_ms as int);
    assert(encoded_fields(c, 9) == e9);
    let e10 = e9 + be_bytes2(c.ringbuffer_posttime_ms as int);
    assert(encoded_fields(c, 10) == e10);
    let e11 = e10 + seq![c.raw_camera_mode];
    assert(encoded_fields(c, 11) == e11);
    let e12 = e11 + seq![flag_byte(c.fusion_camera_mode)];
    assert(encoded_fields(c, 12) == e12);
    let e13 = e12 + c.raw_shutter_speed_max.wire_bytes();
    assert(encoded_fields(c, 13) == e13);
    let e14 = e13 + be_bytes2(c.raw_ev_roi_x as int);
    assert(encoded_fields(c, 14) == e14);
    let e15 = e14 + be_bytes2(c.raw_ev_roi_y as int);
    assert(encoded_fields(c, 15) == e15);
    let e16 = e15 + be_bytes2(c.raw_ev_roi_width as int);
    assert(encoded_fields(c, 16) == e16);
    let e17 = e16 + be_bytes2(c.raw_ev_roi_height as int);
    assert(encoded_fields(c, 17) == e17);
    let e18 = e17 + be_bytes2(c.raw_x_offset as int);
    assert(encoded_fields(c, 18) == e18);
    let e19 = e18 + seq![flag_byte(c.raw_bin44)];
    assert(encoded_fields(c, 19) == e19);
    let e20 = e19 + be_bytes2(c.raw_live_preview_write_interval_ms as int);
    assert(encoded_fields(c, 20) == e20);
    let e21 = e20 + be_bytes2(c.raw_y_offset as int);
    assert(encoded_fields(c, 21) == e21);
    let e22 = e21 + be_bytes2(c.buffer_sub_sampling_pre_trigger_div as int);
    assert(encoded_fields(c, 22) == e22);
    let e23 = e22 + be_bytes2(c.buffer_sub_sampling_post_trigger_div as int);
    assert(encoded_fields(c, 23) == e23);
    let e24 = e23 + c.buffer_sub_sampling_switch_time_offset.wire_bytes();
    assert(encoded_fields(c, 24) == e24);
    let e25 = e24 + be_bytes2(c.buffer_sub_sampling_total_buffer_size as int);
    assert(encoded_fields(c, 25) == e25);
    let e26 = e25 + be_bytes2(c.buffer_sub_sampling_pre_trigger_buffer_size as int);
    assert(encoded_fields(c, 26) == e26);
}

/// Where each prefix of fields ends.
proof fn lemma_field_ends(c: CamConfig)
    ensures
        encoded_fields(c, 0).len() == 1,
        encoded_fields(c, 1).len() == 2,
        encoded_fields(c, 2).len() == 4,
        encoded_fields(c, 3).len() == 6,
        encoded_fields(c, 4).len() == 8,
        encoded_fields(c, 5).len() == 10,
        encoded_fields(c, 6).len() == 11,
        encoded_fields(c, 7).len() == 12,
        encoded_fields(c, 8).len() == 13,
        encoded_fields(c, 9).len() == 15,
        encoded_fields(c, 10).len() == 17,
        encoded_fields(c, 11).len() == 18,
        encoded_fields(c, 12).len() == 19,
        encoded_fields(c, 13).len() == 24,
        encoded_fields(c, 14).len() == 26,
        encoded_fields(c, 15).len() == 28,
        encoded_fields(c, 16).len() == 30,
        encoded_fields(c, 17).len() == 32,
        encoded_fields(c, 18).len() == 34,
        encoded_fields(c, 19).len() == 35,
        encoded_fields(c, 20).len() == 37,
        encoded_fields(c, 21).len() == 39,
        encoded_fields(c, 22).len() == 41,
        encoded_fields(c, 23).len() == 43,
        encoded_fields(c, 24).len() == 48,
        encoded_fields(c, 25).len() == 50,
        encoded_fields(c, 26).len() == 52,
{
    assert(encoded_fields(c, 0).len() == 1);
    assert(encoded_fields(c, 1).len() == encoded_fields(c, 0).len() + field_bytes(c, 1).len());
    assert(encoded_fields(c, 2).len() == encoded_fields(c, 1).len() + field_bytes(c, 2).len());
    assert(encoded_fields(c, 3).len() == encoded_fields(c, 2).len() + field_bytes(c, 3).len());
    assert(encoded_fields(c, 4).len() == encoded_fields(c, 3).len() + field_bytes(c, 4).len());
    assert(encoded_fields(c, 5).len() == encoded_fields(c, 4).len() + field_bytes(c, 5).len());
    assert(encoded_fields(c, 6).len() == encoded_fields(c, 5).len() + field_bytes(c, 6).len());
    assert(encoded_fields(c, 7).len() == encoded_fields(c, 6).len() + field_bytes(c, 7).len());
    assert(encoded_fields(c, 8).len() == encoded_fields(c, 7).len() + field_bytes(c, 8).len());
    assert(encoded_fields(c, 9).len() == encoded_fields(c, 8).len() + field_bytes(c, 9).len());
    assert(encoded_fields(c, 10).len() == encoded_fields(c, 9).len() + field_bytes(c, 10).len());
    assert(encoded_fields(c, 11).len() == encoded_fields(c, 10).len() + field_bytes(c, 11).len());
    assert(encoded_fields(c, 12).len() == encoded_fields(c, 11).len() + field_bytes(c, 12).len());
    assert(encoded_fields(c, 13).len() == encoded_fields(c, 12).len() + field_bytes(c, 13).len());
    assert(encoded_fields(c, 14).len() == encoded_fields(c, 13).len() + field_bytes(c, 14).len());
    assert(encoded_fields(c, 15).len() == encoded_fields(c, 14).len() + field_bytes(c, 15).len());
    assert(encoded_fields(c, 16).len() == encoded_fields(c, 15).len() + field_bytes(c, 16).len());
    assert(encoded_fields(c, 17).len() == encoded_fields(c, 16).len() + field_bytes(c, 17).len());
    assert(encoded_fields(c, 18).len() == encoded_fields(c, 17).len() + field_bytes(c, 18).len());
    assert(encoded_fields(c, 19).len() == encoded_fields(c, 18).len() + field_bytes(c, 19).len());
    assert(encoded_fields(c, 20).len() == encoded_fields(c, 19).len() + field_bytes(c, 20).len());
    assert(encoded_fields(c, 21).len() == encoded_fields(c, 20).len() + field_bytes(c, 21).len());
    assert(encoded_fields(c, 22).len() == encoded_fields(c, 21).len() + field_bytes(c, 22).len());
    assert(encoded_fields(c, 23).len() == encoded_fields(c, 22).len() + field_bytes(c, 23).len());
    assert(encoded_fields(c, 24).len() == encoded_fields(c, 23).len() + field_bytes(c, 24).len());
    assert(encoded_fields(c, 25).len() == encoded_fields(c, 24).len() + field_bytes(c, 25).len());
    assert(encoded_fields(c, 26).len() == encoded_fields(c, 25).len() + field_bytes(c, 26).len());
}

/// Encoding is symmetric: a camera state decodes from its own payload to
/// itself, and so does a camera configuration whose two FLOAT40 fields
/// survive the wire.
pub proof fn lemma_camera_round_trip(state: CamState, c: CamConfig)
    requires
        survives_wire(c.raw_shutter_speed_max),
        survives_wire(c.buffer_sub_sampling_switch_time_offset),
    ensures
        CamState::decodes(state.encoded(), Ok(state)),
        CamConfig::decodes(c.encoded(), Ok(c)),
{
    let e = c.encoded();
    lemma_encoded_is_fields(c);
    lemma_field_ends(c);
    lemma_fields_prefix(c, 1, 26);
    assert(encoded_fields(c, 1) == encoded_fields(c, 0) + field_bytes(c, 1));
    lemma_byte_inside(e, encoded_fields(c, 0), flag_byte(c.dynamic_config));
    lemma_fields_prefix(c, 2, 26);
    assert(encoded_fields(c, 2) == encoded_fields(c, 1) + field_bytes(c, 2));
    lemma_int16_inside(e, encoded_fields(c, 1), c.resolution_width);
    lemma_fields_prefix(c, 3, 26);
    assert(encoded_fields(c, 3) == encoded_fields(c, 2) + field_bytes(c, 3));
    lemma_int16_inside(e, encoded_fields(c, 2), c.resolution_height);
    lemma_fields_prefix(c, 4, 26);
    assert(encoded_fields(c, 4) == encoded_fields(c, 3) + field_bytes(c, 4));
    lemma_int16_inside(e, encoded_fields(c, 3), c.rotation);
    lemma_fields_prefix(c, 5, 26);
    assert(encoded_fields(c, 5) == encoded_fields(c, 4) + field_bytes(c, 5));
    lemma_int16_inside(e, encoded_fields(c, 4), c.ev);
    lemma_fields_prefix(c, 6, 26);
    assert(encoded_fields(c, 6) == encoded_fields(c, 5) + field_bytes(c, 6));
    lemma_byte_inside(e, encoded_fields(c, 5), c.quality);
    lemma_fields_prefix(c, 7, 26);
    assert(encoded_fields(c, 7) == encoded_fields(c, 6) + field_bytes(c, 7));
    lemma_byte_inside(e, encoded_fields(c, 6), c.framerate);
    lemma_fields_prefix(c, 8, 26);
    assert(encoded_fields(c, 8) == encoded_fields(c, 7) + field_bytes(c, 8));
    lemma_byte_inside(e, encoded_fields(c, 7), c.streaming_framerate);
    lemma_fields_prefix(c, 9, 26);
    assert(encoded_fields(c, 9) == encoded_fields(c, 8) + field_bytes(c, 9));
    lemma_int16_inside(e, encoded_fields(c, 8), c.ringbuffer_pretime_ms);
    lemma_fields_prefix(c, 10, 26);
    assert(encoded_fields(c, 10) == encoded_fields(c, 9) + field_bytes(c, 10));
    lemma_int16_inside(e, encoded_fields(c, 9), c.ringbuffer_posttime_ms);
    lemma_fields_prefix(c, 11, 26);
    assert(encoded_fields(c, 11) == encoded_fields(c, 10) + field_bytes(c, 11));
    lemma_byte_inside(e, encoded_fields(c, 10), c.raw_camera_mode);
    lemma_fields_prefix(c, 12, 26);
    assert(encoded_fields(c, 12) == encoded_fields(c, 11) + field_bytes(c, 12));
    lemma_byte_inside(e, encoded_fields(c, 11), flag_byte(c.fusion_camera_mode));
    lemma_fields_prefix(c, 13, 26);
    assert(encoded_fields(c, 13) == encoded_fields(c, 12) + field_bytes(c, 13));
    lemma_float40_inside(e, encoded_fields(c, 12), c.raw_shutter_speed_max);
    lemma_fields_prefix(c, 14, 26);
    assert(encoded_fields(c, 14) == encoded_fields(c, 13) + field_bytes(c, 14));
    lemma_int16_inside(e, encoded_fields(c, 13), c.raw_ev_roi_x);
    lemma_fields_prefix(c, 15, 26);
    assert(encoded_fields(c, 15) == encoded_fields(c, 14) + field_bytes(c, 15));
    lemma_int16_inside(e, encoded_fields(c, 14), c.raw_ev_roi_y);
    lemma_fields_prefix(c, 16, 26);
    assert(encoded_fields(c, 16) == encoded_fields(c, 15) + field_bytes(c, 16));
    lemma_int16_inside(e, encoded_fields(c, 15), c.raw_ev_roi_width);
    lemma_fields_prefix(c, 17, 26);
    assert(encoded_fields(c, 17) == encoded_fields(c, 16) + field_bytes(c, 17));
    lemma_int16_inside(e, encoded_fields(c, 16), c.raw_ev_roi_height);
    lemma_fields_prefix(c, 18, 26);
    assert(encoded_fields(c, 18) == encoded_fields(c, 17) + field_bytes(c, 18));
    lemma_int16_inside(e, encoded_fields(c, 17), c.raw_x_offset);
    lemma_fields_prefix(c, 19, 26);
    assert(encoded_fields(c, 19) == encoded_fields(c, 18) + field_bytes(c, 19));
    lemma_byte_inside(e, encoded_fields(c, 18), flag_byte(c.raw_bin44));
    lemma_fields_prefix(c, 20, 26);
    assert(encoded_fields(c, 20) == encoded_fields(c, 19) + field_bytes(c, 20));
    lemma_int16_inside(e, encoded_fields(c, 19), c.raw_live_preview_write_interval_ms);
    lemma_fields_prefix(c, 21, 26);
    assert(encoded_fields(c, 21) == encoded_fields(c, 20) + field_bytes(c, 21));
    lemma_int16_inside(e, encoded_fields(c, 20), c.raw_y_offset);
    lemma_fields_prefix(c, 22, 26);
    assert(encoded_fields(c, 22) == encoded_fields(c, 21) + field_bytes(c, 22));
    lemma_int16_inside(e, encoded_fields(c, 21), c.buffer_sub_sampling_pre_trigger_div);
    lemma_fields_prefix(c, 23, 26);
    assert(encoded_fields(c, 23) == encoded_fields(c, 22) + field_bytes(c, 23));
    lemma_int16_inside(e, encoded_fields(c, 22), c.buffer_sub_sampling_post_trigger_div);
    lemma_fields_prefix(c, 24, 26);
    assert(encoded_fields(c, 24) == encoded_fields(c, 23) + field_bytes(c, 24));
    lemma_float40_inside(e, encoded_fields(c, 23), c.buffer_sub_sampling_switch_time_offset);
    lemma_fields_prefix(c, 25, 26);
    assert(encoded_fields(c, 25) == encoded_fields(c, 24) + field_bytes(c, 25));
    lemma_int16_inside(e, encoded_fields(c, 24), c.buffer_sub_sampling_total_buffer_size);
    lemma_fields_prefix(c, 26, 26);
    assert(encoded_fields(c, 26) == encoded_fields(c, 25) + field_bytes(c, 26));
    lemma_int16_inside(e, encoded_fields(c, 25), c.buffer_sub_sampling_pre_trigger_buffer_size);
}

} // verus!
