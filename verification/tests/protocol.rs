use ironsight::addr::BusAddr;
use ironsight::codec::{Float40, Ratio};
use ironsight::error::{format_raw_suffix, WireError};
use ironsight::frame::RawFrame;
use ironsight::protocol::camera::{
    CamConfig, CamConfigReq, CamImageAvail, CamState, SensorAct, SensorActResp,
};
use ironsight::protocol::config::{
    AvrConfigCmd, AvrConfigResp, ConfigResp, ModeSet, ParamData, ParamReadReq, ParamValue,
    RadarCal, MODE_CHIP_IN, MODE_CHIP_OUT, MODE_CHIPPING, MODE_CLUB_SWING, MODE_INDOOR,
    MODE_LONG_INDOOR, MODE_OUTDOOR, MODE_PUTTING, MODE_PUTTING_DEDICATED, MODE_RAW_SAMPLING,
    MODE_SIM_PUTTING,
};
use ironsight::protocol::handshake::{
    CalDataReq, CalDataResp, CalParamReq, CalParamResp, DevInfoResp, DeviceGen, DspQueryResp,
    NetConfigReq, NetConfigResp, ProdInfoReq, ProdInfoResp, TimeSync,
};
use ironsight::protocol::status::{
    AvrStatus, ConfigAck, DspStatus, DspStatus46, DspStatus80, ModeAck, PiStatus, StatusPoll,
    Text,
};
use ironsight::protocol::{Command, Message, MessageKind};

fn to_f64(v: Float40) -> f64 {
    if v.mantissa == 0 {
        0.0
    } else {
        f64::from(v.mantissa) * f64::exp2(f64::from(v.exponent) - 23.0)
    }
}

fn frame(src: BusAddr, type_id: u8, payload: Vec<u8>) -> RawFrame {
    RawFrame { dest: BusAddr::App, src, type_id, payload }
}

fn too_short(err: WireError) -> (&'static str, usize, usize) {
    match err {
        WireError::PayloadTooShort { msg_type, need, got, raw } => {
            assert!(raw.is_empty());
            (msg_type, need, got)
        }
        other => panic!("unexpected error {other:?}"),
    }
}

// ---------------------------------------------------------------------------
// Status
// ---------------------------------------------------------------------------

#[test]
fn status_poll_both_ways() {
    assert_eq!(StatusPoll { pi_mode: false }.encode(), vec![0x01, 0x01]);
    assert_eq!(StatusPoll { pi_mode: true }.encode(), vec![0x01, 0x03]);
    assert!(StatusPoll::decode(&[0x01, 0x03]).unwrap().pi_mode);
    assert!(!StatusPoll::decode(&[0x01, 0x01]).unwrap().pi_mode);
    assert_eq!(too_short(StatusPoll::decode(&[0x01]).unwrap_err()), ("StatusPoll", 2, 1));
}

#[test]
fn avr_status_fields() {
    let mut p = vec![0u8; 25];
    p[0] = 0x18;
    p[1] = 0x01;
    p[2] = 0xAB;
    p[5] = 0xCD;
    p[8..11].copy_from_slice(&[0xFF, 0xFF, 0xFE]);
    p[10..15].copy_from_slice(&[0x00, 0x04, 0x64, 0x00, 0x00]);
    p[15..20].copy_from_slice(&[0x00, 0x01, 0x40, 0x00, 0x00]);
    p[20..25].copy_from_slice(&[0x00, 0x02, 0xB6, 0x66, 0x67]);
    let s = AvrStatus::decode(&p).unwrap();
    assert_eq!(s.version, 0x18);
    assert_eq!(s.state, 1);
    assert_eq!(s.hw_id_hi, 0xAB);
    assert_eq!(s.hw_id_lo, 0xCD);
    // bytes 8..11 are FF FF 00 once the temperature overwrote byte 10
    assert_eq!(s.full_app_id, -256);
    assert_eq!(s.temperature, Float40 { exponent: 4, mantissa: 0x64_0000 });
    assert!((to_f64(s.temperature) - 12.5).abs() < 1e-10);
    assert!((to_f64(s.tilt) - 1.0).abs() < 1e-10);
    assert!((to_f64(s.roll) + 2.3).abs() < 1e-6);
    assert_eq!(too_short(AvrStatus::decode(&p[..24]).unwrap_err()), ("AvrStatus", 25, 24));
}

fn gen1_status() -> Vec<u8> {
    let mut p = vec![0u8; 129];
    p[0] = 0x80;
    p[1] = 0x07;
    p[4..6].copy_from_slice(&[0x13, 0x24]);
    p[8..10].copy_from_slice(&[0x0C, 0xE4]);
    p[18..20].copy_from_slice(&[0xFF, 0x38]);
    p[40..42].copy_from_slice(&[0x0A, 0x8C]);
    p[53..55].copy_from_slice(&[0x0F, 0xA0]);
    p[57..59].copy_from_slice(&[0x0F, 0xA1]);
    p[61..63].copy_from_slice(&[0x57, 0x10]);
    p[63] = 0x01;
    p
}

#[test]
fn dsp_status_versioning() {
    let full = DspStatus::decode(&gen1_status()).unwrap();
    match &full {
        DspStatus::V80(s) => {
            assert_eq!(s.state, 0x07);
            assert_eq!(s.input_voltage_usb, 4900);
            assert_eq!(s.system_voltage, 3300);
            assert_eq!(s.battery_current, -200);
            assert_eq!(s.temperature_raw, 2700);
            assert_eq!(s.battery_voltage, 4000);
            assert_eq!(s.battery_voltage_2, 4001);
            assert_eq!(s.power_level, 0x5710);
            assert!(s.external_power);
            assert_eq!(s.battery_percent(), 0x57);
            assert_eq!(s.temperature_c(), Ratio { num: 2700, den: 100 });
        }
        other => panic!("unexpected variant {other:?}"),
    }
    assert_eq!(full.state(), 0x07);
    assert_eq!(full.battery_percent(), 87);
    assert!(full.external_power());
    assert_eq!(full.temperature_c(), Ratio { num: 2700, den: 100 });

    let mut p = vec![0u8; 71];
    p[0] = 0x46;
    p[1] = 0x02;
    p[61] = 0x63;
    let placeholder = DspStatus::decode(&p).unwrap();
    match &placeholder {
        DspStatus::V46(s) => {
            assert_eq!(s.version, 0x46);
            assert_eq!(s.state, 0x02);
            assert_eq!(s.payload, p);
        }
        other => panic!("unexpected variant {other:?}"),
    }
    assert_eq!(placeholder.state(), 0x02);
    assert_eq!(placeholder.battery_percent(), 0);
    assert!(!placeholder.external_power());
    assert_eq!(placeholder.temperature_c(), Ratio { num: 0, den: 1 });
}

#[test]
fn dsp_status_placeholder_renders_as_hex_dump() {
    let s = DspStatus46::decode(&[0x46, 0x0A, 0xFF, 0x00]).unwrap();
    assert_eq!(
        s.render(),
        "DspStatus46 { version: 0x46, state: 0x0A, len: 4, payload: 46 0A FF 00 }"
    );
    let long = DspStatus46::decode(&vec![0x46; 123]).unwrap().render();
    assert!(long.starts_with("DspStatus46 { version: 0x46, state: 0x46, len: 123, payload: 46 46"));
}

#[test]
fn dsp_status_errors() {
    assert_eq!(too_short(DspStatus::decode(&[0x80]).unwrap_err()), ("DspStatus", 2, 1));
    assert_eq!(too_short(DspStatus::decode(&[0x80; 63]).unwrap_err()), ("DspStatus80", 64, 63));
    assert_eq!(too_short(DspStatus80::decode(&[]).unwrap_err()), ("DspStatus80", 64, 0));
    assert!(matches!(DspStatus::decode(&[0x00, 0x00]), Ok(DspStatus::V46(_))));
}

#[test]
fn negative_power_level_gives_its_high_byte() {
    let mut p = gen1_status();
    p[61..63].copy_from_slice(&[0xFF, 0x10]);
    let s = DspStatus80::decode(&p).unwrap();
    assert_eq!(s.power_level, -240);
    assert_eq!(s.battery_percent(), 0xFF);
}

#[test]
fn acks_and_raw_status() {
    let ack = ConfigAck::decode(&[0x02, 0x30, 0x3F]).unwrap();
    assert_eq!((ack.bus_addr, ack.acked_cmd), (0x30, 0x3F));
    assert_eq!(too_short(ConfigAck::decode(&[0x02, 0x30]).unwrap_err()), ("ConfigAck", 3, 2));
    assert!(ModeAck::decode(&[0x02, 0x00, 0x00]).is_ok());
    assert_eq!(too_short(ModeAck::decode(&[]).unwrap_err()), ("ModeAck", 3, 0));
    assert_eq!(PiStatus::decode(&[1, 2, 3]).unwrap().payload, vec![1, 2, 3]);
    assert!(PiStatus::decode(&[]).unwrap().payload.is_empty());
}

#[test]
fn text_is_trimmed_of_control_bytes() {
    assert_eq!(Text::decode(b"\x00\x01 ARMED \r\n\x00").unwrap().text, " ARMED ");
    assert_eq!(Text::decode(b"\r\nradar: ARMED\r\n").unwrap().text, "radar: ARMED");
    assert_eq!(Text::decode(b"a\x00b").unwrap().text, "a\u{0}b");
    assert_eq!(Text::decode(b"\x00\x00").unwrap().text, "");
    assert_eq!(Text::decode(b"").unwrap().text, "");
    assert_eq!(Text::decode(&[b'o', b'k', 0xFF, b'!']).unwrap().text, "ok\u{FFFD}!");
    assert_eq!(Text::decode("h\u{e9}llo".as_bytes()).unwrap().text, "h\u{e9}llo");
}

// ---------------------------------------------------------------------------
// Configuration
// ---------------------------------------------------------------------------

#[test]
fn detection_modes() {
    assert_eq!(
        [
            MODE_INDOOR,
            MODE_LONG_INDOOR,
            MODE_PUTTING,
            MODE_CLUB_SWING,
            MODE_CHIPPING,
            MODE_SIM_PUTTING,
            MODE_OUTDOOR,
            MODE_RAW_SAMPLING,
            MODE_PUTTING_DEDICATED,
            MODE_CHIP_IN,
            MODE_CHIP_OUT
        ],
        [1, 2, 3, 4, 5, 6, 9, 13, 14, 15, 16]
    );
}

#[test]
fn small_config_messages() {
    assert_eq!(ModeSet { mode: MODE_OUTDOOR }.encode(), vec![0x02, 0x00, 0x09]);
    assert_eq!(ModeSet::decode(&[0x02, 0x00, 0x0D]).unwrap().mode, 13);
    assert_eq!(too_short(ModeSet::decode(&[0x02, 0x00]).unwrap_err()), ("ModeSet", 3, 2));

    assert_eq!(AvrConfigCmd { arm: false }.encode(), vec![0x01, 0x00]);
    assert_eq!(AvrConfigCmd { arm: true }.encode(), vec![0x01, 0x01]);
    assert!(AvrConfigCmd::decode(&[0x01, 0x01]).unwrap().arm);
    assert!(!AvrConfigCmd::decode(&[0x01, 0x02]).unwrap().arm);
    assert_eq!(too_short(AvrConfigCmd::decode(&[]).unwrap_err()), ("AvrConfigCmd", 2, 0));

    assert_eq!(ParamReadReq { param_id: 0x64 }.encode(), vec![0x03, 0x00, 0x00, 0x64]);
    assert_eq!(ParamReadReq::decode(&[0x03, 0x00, 0x00, 0x0C]).unwrap().param_id, 0x0C);
    assert_eq!(too_short(ParamReadReq::decode(&[3, 0, 0]).unwrap_err()), ("ParamReadReq", 4, 3));
}

#[test]
fn param_value_float40_scaled_field() {
    let v = ParamValue::decode(&[0x08, 0x00, 0x00, 0x26, 0xFF, 0xFB, 0x68, 0x09, 0xE2]).unwrap();
    assert_eq!(v.param_id, 0x26);
    match v.value {
        ParamData::Float40(f) => {
            assert_eq!(f, Float40 { exponent: -5, mantissa: 6818274 });
            assert!((to_f64(f) - 0.0254).abs() < 1e-6);
        }
        other => panic!("unexpected value {other:?}"),
    }
    assert_eq!(v.encode(), vec![0x08, 0x00, 0x00, 0x26, 0xFF, 0xFB, 0x68, 0x09, 0xE2]);
}

#[test]
fn param_value_int24() {
    let v = ParamValue::decode(&[0x06, 0x00, 0x00, 0x06, 0xFF, 0xFF, 0xF6]).unwrap();
    assert_eq!(v.param_id, 0x06);
    assert!(matches!(v.value, ParamData::Int24(-10)));
    assert_eq!(v.encode(), vec![0x06, 0x00, 0x00, 0x06, 0xFF, 0xFF, 0xF6]);
    assert_eq!(
        ParamValue { param_id: 2, value: ParamData::Int24(10) }.encode(),
        vec![0x06, 0x00, 0x00, 0x02, 0x00, 0x00, 0x0A]
    );
}

#[test]
fn param_value_errors() {
    assert_eq!(too_short(ParamValue::decode(&[]).unwrap_err()), ("ParamValue", 1, 0));
    assert_eq!(
        too_short(ParamValue::decode(&[0x06, 0, 0, 1, 2, 3]).unwrap_err()),
        ("ParamValue(INT24)", 7, 6)
    );
    assert_eq!(
        too_short(ParamValue::decode(&[0x08, 0, 0, 1, 2, 3, 4, 5]).unwrap_err()),
        ("ParamValue(FLOAT40)", 9, 8)
    );
    match ParamValue::decode(&[0x07, 0, 0, 1, 2, 3, 4, 5, 6]).unwrap_err() {
        WireError::UnexpectedLength { msg_type, expected, got, raw } => {
            assert_eq!((msg_type, expected, got), ("ParamValue", 6, 7));
            assert!(raw.is_empty());
        }
        other => panic!("unexpected error {other:?}"),
    }
}

#[test]
fn radar_cal_both_ways() {
    let cal = RadarCal { range_mm: 2743, height_mm: 25 };
    assert_eq!(cal.encode(), vec![0x06, 0x0A, 0xB7, 0x00, 0x19, 0x00, 0x00]);
    let back = RadarCal::decode(&cal.encode()).unwrap();
    assert_eq!((back.range_mm, back.height_mm), (2743, 25));
    assert_eq!(too_short(RadarCal::decode(&[6, 0, 0, 0, 0, 0]).unwrap_err()), ("RadarCal", 7, 6));
}

#[test]
fn config_resp_reads_34_parameters() {
    let mut p = vec![0x44u8];
    for i in 0..34i16 {
        p.extend_from_slice(&(i * 100 - 1000).to_be_bytes());
    }
    let c = ConfigResp::decode(&p).unwrap();
    for i in 0..34usize {
        assert_eq!(c.params[i], i as i16 * 100 - 1000);
    }
    assert_eq!(too_short(ConfigResp::decode(&p[..68]).unwrap_err()), ("ConfigResp", 69, 68));
}

#[test]
fn avr_config_resp_version() {
    assert_eq!(AvrConfigResp::decode(&[0x10, 0x02, 0x00]).unwrap().version(), 2);
    assert_eq!(AvrConfigResp::decode(&[0x10]).unwrap().version(), 0);
    assert_eq!(AvrConfigResp::decode(&[]).unwrap().version(), 0);
    assert_eq!(AvrConfigResp::decode(&[1, 2, 3]).unwrap().payload, vec![1, 2, 3]);
}

// ---------------------------------------------------------------------------
// Handshake
// ---------------------------------------------------------------------------

#[test]
fn device_generation() {
    assert_eq!(DeviceGen::from_dsp_type(0x80), DeviceGen::MevoPlus);
    assert_eq!(DeviceGen::from_dsp_type(0xC0), DeviceGen::Gen2);
    assert_eq!(DeviceGen::from_dsp_type(0x0A), DeviceGen::Unknown(0x0A));
    assert_eq!(DeviceGen::MevoPlus.label(), "Mevo+");
    assert_eq!(DeviceGen::Gen2.label(), "Mevo Gen2");
    assert_eq!(DeviceGen::Unknown(7).label(), "Unknown");
    assert_eq!(DeviceGen::MevoPlus.describe(), "Mevo+ (0x80)");
    assert_eq!(DeviceGen::Gen2.describe(), "Mevo Gen2 (0xC0)");
    assert_eq!(DeviceGen::Unknown(0x0A).describe(), "Unknown (0x0A)");
    let resp = DspQueryResp::decode(&[0x02, 0xC0, 0x0E]).unwrap();
    assert_eq!((resp.version, resp.dsp_type, resp.pcb), (2, 0xC0, 14));
    assert_eq!(resp.device_gen(), DeviceGen::Gen2);
    assert_eq!(too_short(DspQueryResp::decode(&[2, 0x80]).unwrap_err()), ("DspQueryResp", 3, 2));
}

fn slots(len: usize, at: usize, texts: [&str; 3]) -> Vec<u8> {
    let mut p = vec![0u8; len];
    p[0] = (len - 1) as u8;
    for (i, t) in texts.iter().enumerate() {
        p[at + 16 * i..at + 16 * i + t.len()].copy_from_slice(t.as_bytes());
    }
    p
}

#[test]
fn dev_info_joins_the_slots_that_are_not_empty() {
    let avr = slots(75, 27, ["v1.2 MEVO+", "Jan 02 2024", "12:34:56"]);
    assert_eq!(DevInfoResp::decode(&avr).unwrap().text, "v1.2 MEVO+ Jan 02 2024 12:34:56");
    let dsp = slots(76, 28, ["3.01", "SN0012345", "fw-tag"]);
    assert_eq!(DevInfoResp::decode(&dsp).unwrap().text, "3.01 SN0012345 fw-tag");
    let gap = slots(75, 27, ["first", "", "third"]);
    assert_eq!(DevInfoResp::decode(&gap).unwrap().text, "first third");
    let full = slots(75, 27, ["0123456789ABCDEF", "x", ""]);
    assert_eq!(DevInfoResp::decode(&full).unwrap().text, "0123456789ABCDEF x");
    // the third slot does not fit into 74 bytes
    assert_eq!(DevInfoResp::decode(&avr[..74]).unwrap().text, "v1.2 MEVO+ Jan 02 2024");
    assert_eq!(DevInfoResp::decode(&[]).unwrap().text, "");
}

#[test]
fn product_info_is_a_cstring() {
    assert_eq!(ProdInfoResp::decode(b"PI4-CAM IMX296\0\0junk").unwrap().text, "PI4-CAM IMX296");
    assert_eq!(ProdInfoResp::decode(b"no terminator").unwrap().text, "no terminator");
    assert_eq!(ProdInfoResp::decode(b"\0abc").unwrap().text, "");
    assert_eq!(ProdInfoReq { sub_query: 0x09 }.encode(), vec![0x01, 0x09]);
    assert_eq!(ProdInfoReq::decode(&[0x01, 0x08]).unwrap().sub_query, 8);
    assert_eq!(too_short(ProdInfoReq::decode(&[1]).unwrap_err()), ("ProdInfoReq", 2, 1));
}

fn net_config(ssid: &str, password: &str) -> Vec<u8> {
    let mut p = vec![0u8; 54];
    p[2..6].copy_from_slice(&[192, 168, 2, 1]);
    p[6..10].copy_from_slice(&[255, 255, 255, 0]);
    p[21..21 + ssid.len()].copy_from_slice(ssid.as_bytes());
    p[37..37 + password.len()].copy_from_slice(password.as_bytes());
    p
}

#[test]
fn net_config_joins_name_and_password_with_a_nul() {
    assert_eq!(NetConfigResp::decode(&net_config("FS M2-012345", "s3cret")).unwrap().text, "FS M2-012345\0s3cret");
    assert_eq!(NetConfigResp::decode(&net_config("", "")).unwrap().text, "");
    assert_eq!(NetConfigResp::decode(&net_config("only", "")).unwrap().text, "only");
    assert_eq!(NetConfigResp::decode(&net_config("", "pw")).unwrap().text, "pw");
    assert_eq!(NetConfigResp::decode(&net_config("abc", "pw")[..52]).unwrap().text, "abc");
    assert_eq!(NetConfigReq { query_password: false }.encode(), vec![0x01, 0x00]);
    assert_eq!(NetConfigReq { query_password: true }.encode(), vec![0x01, 0x08]);
    assert!(NetConfigReq::decode(&[0x01, 0x08]).unwrap().query_password);
    assert!(!NetConfigReq::decode(&[0x01, 0x00]).unwrap().query_password);
    assert_eq!(too_short(NetConfigReq::decode(&[]).unwrap_err()), ("NetConfigReq", 2, 0));
}

#[test]
fn calibration_messages() {
    assert_eq!(CalParamReq.encode(), vec![0x02, 0x00, 0x08]);
    assert!(CalParamReq::decode(&[]).is_ok());
    assert_eq!(CalParamResp::decode(&[9, 8, 7]).unwrap().payload, vec![9, 8, 7]);
    assert_eq!(CalDataResp::decode(&[1]).unwrap().payload, vec![1]);
    assert_eq!(
        CalDataReq::encode_factory(),
        vec![0x09, 0x00, 0x00, 0x03, 0x00, 0x00, 0x00, 0x00, 0x00, 0xA5]
    );
    assert_eq!(
        CalDataReq::encode_post_shot(),
        vec![0x09, 0x00, 0x00, 0x07, 0x00, 0x00, 0x00, 0x00, 0x00, 0x00]
    );
    let req = CalDataReq::decode(&CalDataReq::encode_post_shot()).unwrap();
    assert_eq!(req.sub_cmd, 7);
    assert_eq!(req.payload, CalDataReq::encode_post_shot());
    assert_eq!(too_short(CalDataReq::decode(&[9, 0, 0]).unwrap_err()), ("CalDataReq", 4, 3));
}

#[test]
fn time_sync_both_ways() {
    let t = TimeSync { epoch: 0x6543_21FE, session: 0x07, tail: [0x00, 0x01] };
    assert_eq!(t.encode(), vec![0x08, 0x00, 0x65, 0x43, 0x21, 0xFE, 0x07, 0x00, 0x01]);
    let back = TimeSync::decode(&t.encode()).unwrap();
    assert_eq!((back.epoch, back.session, back.tail), (0x6543_21FE, 7, [0, 1]));
    assert_eq!(too_short(TimeSync::decode(&[8, 0, 1, 2, 3, 4, 5, 6]).unwrap_err()), ("TimeSync", 9, 8));
}

// ---------------------------------------------------------------------------
// Camera
// ---------------------------------------------------------------------------

fn sample_cam_config() -> CamConfig {
    CamConfig {
        dynamic_config: true,
        resolution_width: 1024,
        resolution_height: 768,
        rotation: -90,
        ev: 3,
        quality: 80,
        framerate: 20,
        streaming_framerate: 1,
        ringbuffer_pretime_ms: 1000,
        ringbuffer_posttime_ms: 4000,
        raw_camera_mode: 2,
        fusion_camera_mode: true,
        raw_shutter_speed_max: Float40 { exponent: 4, mantissa: 0x64_0000 },
        raw_ev_roi_x: 1,
        raw_ev_roi_y: 2,
        raw_ev_roi_width: 3,
        raw_ev_roi_height: 4,
        raw_x_offset: -5,
        raw_bin44: true,
        raw_live_preview_write_interval_ms: 6,
        raw_y_offset: 7,
        buffer_sub_sampling_pre_trigger_div: 1,
        buffer_sub_sampling_post_trigger_div: 2,
        buffer_sub_sampling_switch_time_offset: Float40 { exponent: 2, mantissa: -4823449 },
        buffer_sub_sampling_total_buffer_size: 300,
        buffer_sub_sampling_pre_trigger_buffer_size: 100,
    }
}

#[test]
fn cam_config_layout() {
    let bytes = sample_cam_config().encode();
    assert_eq!(
        bytes,
        vec![
            0x33, 0x01, 0x04, 0x00, 0x03, 0x00, 0xFF, 0xA6, 0x00, 0x03, 80, 20, 1, 0x03, 0xE8,
            0x0F, 0xA0, 2, 1, 0x00, 0x04, 0x64, 0x00, 0x00, 0x00, 0x01, 0x00, 0x02, 0x00, 0x03,
            0x00, 0x04, 0xFF, 0xFB, 1, 0x00, 0x06, 0x00, 0x07, 0x00, 0x01, 0x00, 0x02, 0x00, 0x02,
            0xB6, 0x66, 0x67, 0x01, 0x2C, 0x00, 0x64
        ]
    );
    assert_eq!(bytes.len(), 52);
}

#[test]
fn cam_config_round_trip() {
    let c = sample_cam_config();
    let back = CamConfig::decode(&c.encode()).unwrap();
    assert_eq!(format!("{back:?}"), format!("{c:?}"));
    assert_eq!(too_short(CamConfig::decode(&c.encode()[..51]).unwrap_err()), ("CamConfig", 52, 51));
    let mut flags = c.encode();
    flags[1] = 0x02;
    flags[18] = 0x00;
    let d = CamConfig::decode(&flags).unwrap();
    assert!(d.dynamic_config);
    assert!(!d.fusion_camera_mode);
}

#[test]
fn cam_state_and_requests() {
    assert_eq!(CamState { state: 3 }.encode(), vec![0x01, 0x03]);
    assert_eq!(CamState::decode(&[0x01, 0x01]).unwrap().state, 1);
    assert_eq!(too_short(CamState::decode(&[1]).unwrap_err()), ("CamState", 2, 1));
    assert_eq!(CamConfigReq.encode(), vec![0x02, 0x01, 0x05]);
    assert!(CamConfigReq::decode(&[0xFF]).is_ok());
    let act = SensorAct::decode(&[1, 2, 3]).unwrap();
    assert_eq!(act.encode(), vec![1, 2, 3]);
    assert_eq!(SensorActResp::decode(&[4, 5]).unwrap().payload, vec![4, 5]);
}

#[test]
fn cam_image_avail_long_and_short() {
    let mut p = vec![0u8; 67];
    p[0] = 0x42;
    p[1] = 0x01;
    p[2] = 0x02;
    p[3..22].copy_from_slice(b"2024-01-02T03:04:05");
    let a = CamImageAvail::decode(&p).unwrap();
    assert!(a.streaming_available);
    assert!(!a.fusion_available);
    assert!(a.video_available);
    assert_eq!(a.streaming_timestamp.as_deref(), Some("2024-01-02T03:04:05"));
    assert_eq!(a.fusion_timestamp, None);

    p[2] = 0x01;
    p[35..67].copy_from_slice(b"0123456789abcdef0123456789abcdef");
    let b = CamImageAvail::decode(&p).unwrap();
    assert!(b.fusion_available);
    assert!(!b.video_available);
    assert_eq!(b.fusion_timestamp.as_deref(), Some("0123456789abcdef0123456789abcdef"));

    let s = CamImageAvail::decode(&[0x01, 0x03]).unwrap();
    assert!(s.streaming_available);
    assert!(!s.fusion_available && !s.video_available);
    assert!(s.streaming_timestamp.is_none() && s.fusion_timestamp.is_none());
    assert!(!CamImageAvail::decode(&[0x01, 0x02]).unwrap().streaming_available);
    assert!(!CamImageAvail::decode(&[0x01]).unwrap().streaming_available);

    assert_eq!(too_short(CamImageAvail::decode(&[]).unwrap_err()), ("CamImageAvail", 1, 0));
    assert_eq!(
        too_short(CamImageAvail::decode(&p[..66]).unwrap_err()),
        ("CamImageAvail(long)", 67, 66)
    );
}

// ---------------------------------------------------------------------------
// Dispatch
// ---------------------------------------------------------------------------

#[test]
fn unknown_type_id_passes_through() {
    for src in [BusAddr::Dsp, BusAddr::Avr, BusAddr::Pi, BusAddr::App] {
        match Message::decode(&frame(src, 0x77, vec![0xAA, 0x55, 0xAA])).unwrap() {
            Message::Unknown { type_id, src: s, payload } => {
                assert_eq!(type_id, 0x77);
                assert_eq!(s, src);
                assert_eq!(payload, vec![0xAA, 0x55, 0xAA]);
            }
            other => panic!("unexpected message {other:?}"),
        }
    }
}

const KNOWN: [u8; 34] = [
    0xAA, 0x87, 0xF0, 0x95, 0x94, 0xB1, 0xE3, 0xA5, 0xBF, 0xA4, 0xA0, 0xA2, 0xC8, 0xE7, 0xFD,
    0xDE, 0xD1, 0xD3, 0x9B, 0x81, 0x82, 0x84, 0x89, 0xD4, 0xE8, 0xED, 0xEF, 0xD9, 0xE9, 0xEC,
    0xEE, 0xE5, 0x00, 0x00,
];

#[test]
fn every_type_without_decoder_is_unknown_and_never_fails() {
    for type_id in 0u8..=255 {
        if KNOWN[..32].contains(&type_id) {
            continue;
        }
        for payload in [vec![], vec![0u8; 1], vec![0xFFu8; 200]] {
            let m = Message::decode(&frame(BusAddr::Avr, type_id, payload.clone())).unwrap();
            assert_eq!(m.kind_of(), MessageKind::Unknown);
            assert!(matches!(m, Message::Unknown { type_id: t, payload: p, .. } if t == type_id && p == payload));
        }
    }
}

#[test]
fn status_dispatches_on_the_source() {
    let avr = Message::decode(&frame(BusAddr::Avr, 0xAA, vec![0u8; 25])).unwrap();
    assert_eq!(avr.kind_of(), MessageKind::AvrStatus);
    let dsp = Message::decode(&frame(BusAddr::Dsp, 0xAA, gen1_status())).unwrap();
    assert!(matches!(dsp, Message::DspStatus(DspStatus::V80(_))));
    let dsp2 = Message::decode(&frame(BusAddr::Dsp, 0xAA, vec![0x46; 71])).unwrap();
    assert!(matches!(dsp2, Message::DspStatus(DspStatus::V46(_))));
    let pi = Message::decode(&frame(BusAddr::Pi, 0xAA, vec![1, 2])).unwrap();
    assert!(matches!(pi, Message::PiStatus(s) if s.payload == vec![1, 2]));
    let app = Message::decode(&frame(BusAddr::App, 0xAA, vec![1, 1])).unwrap();
    assert!(matches!(app, Message::Unknown { type_id: 0xAA, src: BusAddr::App, .. }));
    // a short status of a known peer fails closed
    assert_eq!(
        too_short(Message::decode(&frame(BusAddr::Avr, 0xAA, vec![0u8; 24])).unwrap_err()),
        ("AvrStatus", 25, 24)
    );
}

#[test]
fn dispatch_by_type() {
    let cases: Vec<(u8, Vec<u8>, MessageKind)> = vec![
        (0x95, vec![2, 0x30, 0x3F], MessageKind::ConfigAck),
        (0x94, vec![2, 0x30, 0x3F], MessageKind::ConfigNack),
        (0xB1, vec![2, 0, 0], MessageKind::ModeAck),
        (0xE3, b"hello".to_vec(), MessageKind::Text),
        (0xA5, vec![2, 0, 9], MessageKind::ModeSet),
        (0xBF, vec![6, 0, 0, 1, 0, 0, 1], MessageKind::ParamValue),
        (0xA4, vec![6, 0, 1, 0, 2, 0, 0], MessageKind::RadarCal),
        (0xA0, vec![0; 69], MessageKind::ConfigResp),
        (0xA2, vec![0; 17], MessageKind::AvrConfigResp),
        (0xC8, vec![2, 0x80, 14], MessageKind::DspQueryResp),
        (0xE7, vec![0; 75], MessageKind::DevInfoResp),
        (0xFD, b"abc\0".to_vec(), MessageKind::ProdInfoResp),
        (0xDE, vec![0; 54], MessageKind::NetConfigResp),
        (0xD1, vec![0; 242], MessageKind::CalParamResp),
        (0xD3, vec![0; 10], MessageKind::CalDataResp),
        (0x9B, vec![8, 0, 0, 0, 0, 1, 0, 0, 1], MessageKind::TimeSync),
        (0x81, vec![1, 1], MessageKind::CamState),
        (0x82, vec![0; 52], MessageKind::CamConfig),
        (0x84, vec![1, 1], MessageKind::CamImageAvail),
        (0x89, vec![1, 2, 3], MessageKind::SensorActResp),
        (0x87, vec![1, 2, 3], MessageKind::WifiScan),
        (0xD4, vec![0; 158], MessageKind::FlightResult),
        (0xE8, vec![0; 94], MessageKind::FlightResultV1),
        (0xED, vec![0; 167], MessageKind::ClubResult),
        (0xEF, vec![0; 138], MessageKind::SpinResult),
        (0xD9, vec![0; 172], MessageKind::SpeedProfile),
        (0xE9, vec![0; 82], MessageKind::TrackingStatus),
        (0xEC, vec![0; 4], MessageKind::PrcData),
        (0xEE, vec![], MessageKind::ClubPrc),
        (0xE5, b"IDLE".to_vec(), MessageKind::ShotText),
        (0xF0, vec![0x1B, b'[', b'H'], MessageKind::DspDebug),
    ];
    for (type_id, payload, kind) in cases {
        let m = Message::decode(&frame(BusAddr::Avr, type_id, payload)).unwrap();
        assert_eq!(m.kind_of(), kind, "type 0x{type_id:02X}");
    }
    assert!(matches!(
        Message::decode(&frame(BusAddr::Pi, 0x87, vec![7, 7])).unwrap(),
        Message::WifiScan { payload } if payload == vec![7, 7]
    ));
    assert!(matches!(
        Message::decode(&frame(BusAddr::Dsp, 0xF0, vec![7])).unwrap(),
        Message::DspDebug(payload) if payload == vec![7]
    ));
}

#[test]
fn malformed_known_types_fail_closed() {
    let cases: Vec<(u8, usize, &str, usize)> = vec![
        (0x95, 2, "ConfigAck", 3),
        (0x94, 2, "ConfigAck", 3),
        (0xB1, 2, "ModeAck", 3),
        (0xA5, 2, "ModeSet", 3),
        (0xA4, 6, "RadarCal", 7),
        (0xA0, 68, "ConfigResp", 69),
        (0xC8, 2, "DspQueryResp", 3),
        (0x9B, 8, "TimeSync", 9),
        (0x81, 1, "CamState", 2),
        (0x82, 51, "CamConfig", 52),
        (0xD4, 156, "FlightResult", 157),
        (0xE8, 93, "FlightResultV1", 94),
        (0xED, 166, "ClubResult", 167),
        (0xEF, 137, "SpinResult", 138),
        (0xE9, 81, "TrackingStatus", 82),
        (0xEC, 3, "PrcData", 4),
    ];
    for (type_id, len, name, need) in cases {
        let err = Message::decode(&frame(BusAddr::Avr, type_id, vec![0; len])).unwrap_err();
        assert_eq!(too_short(err), (name, need, len), "type 0x{type_id:02X}");
    }
}

#[test]
fn message_kind_names() {
    assert_eq!(MessageKind::DspStatus.name(), "Message::DspStatus");
    assert_eq!(MessageKind::ConfigNack.name(), "Message::ConfigNack");
    assert_eq!(MessageKind::Unknown.name(), "Message::Unknown");
}

// ---------------------------------------------------------------------------
// Commands
// ---------------------------------------------------------------------------

#[test]
fn commands_encode_with_the_client_as_source() {
    let cases: Vec<(Command, u8, Vec<u8>)> = vec![
        (Command::StatusPoll(StatusPoll { pi_mode: false }), 0xAA, vec![1, 1]),
        (Command::StatusPoll(StatusPoll { pi_mode: true }), 0xAA, vec![1, 3]),
        (Command::ModeSet(ModeSet { mode: 9 }), 0xA5, vec![2, 0, 9]),
        (Command::AvrConfigCmd(AvrConfigCmd { arm: true }), 0xB0, vec![1, 1]),
        (Command::ParamReadReq(ParamReadReq { param_id: 0x0C }), 0xBE, vec![3, 0, 0, 0x0C]),
        (
            Command::ParamValue(ParamValue { param_id: 6, value: ParamData::Int24(0) }),
            0xBF,
            vec![6, 0, 0, 6, 0, 0, 0],
        ),
        (
            Command::RadarCal(RadarCal { range_mm: 2743, height_mm: 25 }),
            0xA4,
            vec![6, 0x0A, 0xB7, 0, 25, 0, 0],
        ),
        (Command::DspQuery, 0x48, vec![]),
        (Command::ConfigQuery, 0x21, vec![]),
        (Command::AvrConfigQuery, 0x23, vec![]),
        (Command::DevInfoReq, 0x67, vec![]),
        (Command::ProdInfoReq(ProdInfoReq { sub_query: 8 }), 0xFD, vec![1, 8]),
        (Command::NetConfigReq(NetConfigReq { query_password: true }), 0xDE, vec![1, 8]),
        (Command::CalParamReq(CalParamReq), 0xD0, vec![2, 0, 8]),
        (
            Command::CalDataReq(CalDataReq { sub_cmd: 3, payload: CalDataReq::encode_factory() }),
            0xD2,
            vec![9, 0, 0, 3, 0, 0, 0, 0, 0, 0xA5],
        ),
        (
            Command::TimeSync(TimeSync { epoch: 1, session: 0, tail: [0, 1] }),
            0x9B,
            vec![8, 0, 0, 0, 0, 1, 0, 0, 1],
        ),
        (Command::CamState(CamState { state: 1 }), 0x81, vec![1, 1]),
        (Command::CamConfig(sample_cam_config()), 0x82, sample_cam_config().encode()),
        (Command::CamConfigReq(CamConfigReq), 0x83, vec![2, 1, 5]),
        (Command::SensorAct(SensorAct { payload: vec![9, 9] }), 0x90, vec![9, 9]),
        (Command::ShotDataAck, 0x69, vec![]),
        (Command::ShotResultReq, 0x6D, vec![]),
    ];
    for (cmd, type_id, payload) in cases {
        for dest in [BusAddr::Dsp, BusAddr::Avr, BusAddr::Pi] {
            let f = cmd.encode(dest);
            assert_eq!(f.dest, dest);
            assert_eq!(f.src, BusAddr::App);
            assert_eq!(f.type_id, type_id, "{cmd:?}");
            assert_eq!(f.payload, payload, "{cmd:?}");
        }
    }
}

#[test]
fn command_debug_hex() {
    assert_eq!(
        Command::StatusPoll(StatusPoll { pi_mode: false }).debug_hex(BusAddr::Dsp),
        "APP\u{2192}DSP 0xAA 2B | 0101"
    );
    assert_eq!(Command::DspQuery.debug_hex(BusAddr::Avr), "APP\u{2192}AVR 0x48 0B");
    let twenty = Command::SensorAct(SensorAct { payload: (0u8..20).collect() });
    assert_eq!(
        twenty.debug_hex(BusAddr::Pi),
        "APP\u{2192}PI 0x90 20B | 000102030405060708090A0B0C0D0E0F10111213"
    );
    let long = Command::SensorAct(SensorAct { payload: (0u8..=255).collect() });
    assert_eq!(
        long.debug_hex(BusAddr::Pi),
        "APP\u{2192}PI 0x90 256B | 000102030405060708090A0B0C0D0E0F10111213..."
    );
}

// ---------------------------------------------------------------------------
// Errors
// ---------------------------------------------------------------------------

#[test]
fn with_raw_attaches_the_payload_to_payload_errors_only() {
    let e = StatusPoll::decode(&[0x01]).unwrap_err().with_raw(&[0x01]);
    assert!(matches!(
        e,
        WireError::PayloadTooShort { msg_type: "StatusPoll", need: 2, got: 1, raw } if raw == vec![0x01]
    ));
    let e = ParamValue::decode(&[0x07, 1]).unwrap_err().with_raw(&[0x07, 1]);
    assert!(matches!(
        e,
        WireError::UnexpectedLength { msg_type: "ParamValue", expected: 6, got: 7, raw } if raw == vec![0x07, 1]
    ));
    assert!(matches!(WireError::MissingEnd.with_raw(&[1, 2]), WireError::MissingEnd));
    assert!(matches!(
        WireError::ChecksumMismatch { expected: 1, computed: 2 }.with_raw(&[1]),
        WireError::ChecksumMismatch { expected: 1, computed: 2 }
    ));
    assert!(matches!(WireError::InvalidFloat40.with_raw(&[1]), WireError::InvalidFloat40));
    let invalid = String::from_utf8(vec![0xFF]).unwrap_err();
    assert!(matches!(WireError::InvalidString(invalid).with_raw(&[1]), WireError::InvalidString(_)));
}

#[test]
fn raw_suffix_rendering() {
    assert_eq!(format_raw_suffix(&[]), "");
    assert_eq!(format_raw_suffix(&[0x9E, 0x00, 0x03]), " | 9E0003");
    let sixteen: Vec<u8> = (0xF0u8..=0xFF).collect();
    assert_eq!(format_raw_suffix(&sixteen), " | F0F1F2F3F4F5F6F7F8F9FAFBFCFDFEFF");
    let seventeen: Vec<u8> = (0u8..17).collect();
    assert_eq!(format_raw_suffix(&seventeen), " | 000102030405060708090A0B0C0D0E0F...");
}
