use ironsight::codec::{Float40, Ratio};
use ironsight::error::WireError;
use ironsight::protocol::shot::{
    AntennaElement, ClubPrc, ClubResult, FlightResult, FlightResultV1, PrcData, ShotText,
    SpeedProfile, SpinResult, TrackingStatus,
};

fn put24(p: &mut [u8], at: usize, v: i32) {
    p[at..at + 3].copy_from_slice(&v.to_be_bytes()[1..4]);
}

fn put16(p: &mut [u8], at: usize, v: i16) {
    p[at..at + 2].copy_from_slice(&v.to_be_bytes());
}

fn milli(num: i64) -> Ratio {
    Ratio { num, den: 1000 }
}

fn centi(num: i64) -> Ratio {
    Ratio { num, den: 100 }
}

fn value(r: Ratio) -> f64 {
    r.num as f64 / r.den as f64
}

#[test]
fn flight_result_layout() {
    let mut p = vec![0u8; 158];
    p[0] = 0x9D;
    put24(&mut p, 1, 3);
    put24(&mut p, 4, 6_250);
    put24(&mut p, 7, 100);
    put24(&mut p, 10, -200);
    put24(&mut p, 13, 300);
    put24(&mut p, 16, 67_056);
    put24(&mut p, 19, -1_500);
    put24(&mut p, 22, 12_300);
    put24(&mut p, 25, 201_168);
    put24(&mut p, 28, 6_100);
    put24(&mut p, 31, 28_000);
    put24(&mut p, 34, 201_000);
    put24(&mut p, 37, 0);
    put24(&mut p, 40, -4_500);
    put24(&mut p, 43, 2_650);
    put24(&mut p, 46, -320);
    put24(&mut p, 49, 15);
    put24(&mut p, 52, 1_000);
    put24(&mut p, 55, -2_000);
    put24(&mut p, 58, 3_000);
    put24(&mut p, 61, 20_000);
    put24(&mut p, 64, -15_000);
    put24(&mut p, 67, 500);
    put24(&mut p, 70, 123);
    put24(&mut p, 73, 0);
    put24(&mut p, 76, 1);
    put24(&mut p, 79, 2);
    put24(&mut p, 82, 3);
    put24(&mut p, 85, 46_000);
    put24(&mut p, 88, -2_100);
    put24(&mut p, 91, -3_300);
    put24(&mut p, 94, 38_000);
    put24(&mut p, 97, 55_000);
    put24(&mut p, 100, -4_000);
    put24(&mut p, 103, 14_500);
    put24(&mut p, 106, 1_200);
    put24(&mut p, 109, 1_000);
    for i in 0..5 {
        put24(&mut p, 112 + 3 * i, 10 + i as i32);
        put24(&mut p, 127 + 3 * i, -(20 + i as i32));
        put24(&mut p, 142 + 3 * i, 30 + i as i32);
    }
    let r = FlightResult::decode(&p).unwrap();
    assert_eq!(r.total, 3);
    assert_eq!(r.track_time, milli(6_250));
    assert_eq!(r.start_position, [milli(100), milli(-200), milli(300)]);
    assert_eq!(r.launch_speed, milli(67_056));
    assert!((value(r.launch_speed) - 67.056).abs() < 1e-12);
    assert_eq!(r.launch_azimuth, milli(-1_500));
    assert_eq!(r.launch_elevation, milli(12_300));
    assert_eq!(r.carry_distance, milli(201_168));
    assert_eq!(r.flight_time, milli(6_100));
    assert_eq!(r.max_height, milli(28_000));
    assert_eq!(r.landing_position, [milli(201_000), milli(0), milli(-4_500)]);
    assert_eq!(r.backspin_rpm, 2_650);
    assert_eq!(r.sidespin_rpm, -320);
    assert_eq!(r.riflespin_rpm, 15);
    assert_eq!(r.landing_spin_rpm, [1_000, -2_000, 3_000]);
    assert_eq!(r.landing_velocity, [milli(20_000), milli(-15_000), milli(500)]);
    assert_eq!(r.total_distance, milli(123));
    assert_eq!(r.roll_distance, milli(0));
    assert_eq!(r.final_position, [milli(1), milli(2), milli(3)]);
    assert_eq!(r.clubhead_speed, milli(46_000));
    assert_eq!(r.club_strike_direction, milli(-2_100));
    assert_eq!(r.club_attack_angle, milli(-3_300));
    assert_eq!(r.clubhead_speed_post, milli(38_000));
    assert_eq!(r.club_swing_plane_tilt, milli(55_000));
    assert_eq!(r.club_swing_plane_rotation, milli(-4_000));
    assert_eq!(r.club_effective_loft, milli(14_500));
    assert_eq!(r.club_face_angle, milli(1_200));
    assert_eq!(r.poly_scale, 1_000);
    for i in 0..5 {
        assert_eq!(r.poly_x[i], milli(10 + i as i64));
        assert_eq!(r.poly_y[i], milli(-(20 + i as i64)));
        assert_eq!(r.poly_z[i], milli(30 + i as i64));
    }
    // 157 bytes are enough
    assert!(FlightResult::decode(&p[..157]).is_ok());
    assert!(matches!(
        FlightResult::decode(&p[..156]),
        Err(WireError::PayloadTooShort { msg_type: "FlightResult", need: 157, got: 156, .. })
    ));
}

#[test]
fn flight_result_scale_of_zero_divides_by_one_and_negative_scale_is_kept() {
    let mut p = vec![0u8; 157];
    put24(&mut p, 112, 77);
    let r = FlightResult::decode(&p).unwrap();
    assert_eq!(r.poly_scale, 0);
    assert_eq!(r.poly_x[0], Ratio { num: 77, den: 1 });
    put24(&mut p, 109, -4);
    let r = FlightResult::decode(&p).unwrap();
    assert_eq!(r.poly_scale, -4);
    assert_eq!(r.poly_x[0], Ratio { num: 77, den: -4 });
}

#[test]
fn flight_result_v1_layout() {
    let mut p = vec![0u8; 94];
    put24(&mut p, 1, 7);
    put24(&mut p, 4, 45_000);
    put24(&mut p, 7, 66_000);
    put24(&mut p, 10, 6_000);
    put24(&mut p, 13, 200_000);
    put24(&mut p, 16, 27_000);
    put24(&mut p, 19, -3_000);
    put24(&mut p, 22, 12_000);
    put24(&mut p, 25, -1_000);
    put24(&mut p, 28, 5_900);
    put24(&mut p, 31, 250_000);
    put24(&mut p, 34, 2_700);
    put24(&mut p, 37, -300);
    put24(&mut p, 40, -9_810);
    put24(&mut p, 43, 2_000);
    put24(&mut p, 46, 100);
    for i in 0..5 {
        put24(&mut p, 49 + 3 * i, 1 + i as i32);
        put24(&mut p, 64 + 3 * i, 11 + i as i32);
        put24(&mut p, 79 + 3 * i, -(21 + i as i32));
    }
    let r = FlightResultV1::decode(&p).unwrap();
    assert_eq!(r.total, 7);
    assert_eq!(r.club_velocity, milli(45_000));
    assert_eq!(r.ball_velocity, milli(66_000));
    assert_eq!(r.flight_time, milli(6_000));
    assert_eq!(r.distance, milli(200_000));
    assert_eq!(r.height, milli(27_000));
    assert_eq!(r.lateral, milli(-3_000));
    assert_eq!(r.elevation, milli(12_000));
    assert_eq!(r.azimuth, milli(-1_000));
    assert_eq!(r.tracked_time, milli(5_900));
    assert_eq!(r.drag, Ratio { num: 250_000, den: 1_000_000 });
    assert_eq!(r.backspin_rpm, 2_700);
    assert_eq!(r.sidespin_rpm, -300);
    assert_eq!(r.acceleration, milli(-9_810));
    assert_eq!(r.club_strike_direction, milli(2_000));
    assert_eq!(r.poly_scale, 100);
    for i in 0..5 {
        assert_eq!(r.poly_x[i], centi(1 + i as i64));
        assert_eq!(r.poly_y[i], centi(11 + i as i64));
        assert_eq!(r.poly_z[i], centi(-(21 + i as i64)));
    }
    // a scale below one divides by one
    put24(&mut p, 46, -5);
    let r = FlightResultV1::decode(&p).unwrap();
    assert_eq!(r.poly_scale, -5);
    assert_eq!(r.poly_x[0], Ratio { num: 1, den: 1 });
    assert!(matches!(
        FlightResultV1::decode(&p[..93]),
        Err(WireError::PayloadTooShort { msg_type: "FlightResultV1", need: 94, got: 93, .. })
    ));
}

#[test]
fn club_result_layout() {
    let mut p = vec![0u8; 167];
    p[1] = 42;
    put24(&mut p, 2, -1);
    put24(&mut p, 5, 4_612);
    put24(&mut p, 8, 3_800);
    put24(&mut p, 11, -210);
    put24(&mut p, 14, -330);
    put24(&mut p, 17, 120);
    put24(&mut p, 20, 1_450);
    put24(&mut p, 23, 1_480);
    put24(&mut p, 26, -12);
    put24(&mut p, 29, 5_500);
    put24(&mut p, 32, -400);
    put24(&mut p, 35, 90);
    put24(&mut p, 38, -80);
    put24(&mut p, 41, 25);
    put24(&mut p, 44, -30);
    put24(&mut p, 47, 10);
    for arr in 0..12 {
        for c in 0..3 {
            put24(&mut p, 50 + arr * 9 + c * 3, (arr * 10 + c) as i32 - 50);
        }
    }
    put24(&mut p, 158, 1_234);
    put24(&mut p, 161, -5_678);
    put24(&mut p, 164, 42);
    let r = ClubResult::decode(&p).unwrap();
    assert_eq!(r.num_club_prc_points, 42);
    assert_eq!(r.flags, -1);
    assert_eq!(r.pre_club_speed, centi(4_612));
    assert_eq!(r.post_club_speed, centi(3_800));
    assert_eq!(r.strike_direction, centi(-210));
    assert_eq!(r.attack_angle, centi(-330));
    assert_eq!(r.face_angle, centi(120));
    assert_eq!(r.dynamic_loft, centi(1_450));
    assert_eq!(r.smash_factor, milli(1_480));
    assert_eq!(r.dispersion_correction, milli(-12));
    assert_eq!(r.swing_plane_horizontal, centi(5_500));
    assert_eq!(r.swing_plane_vertical, centi(-400));
    assert_eq!(r.club_azimuth, centi(90));
    assert_eq!(r.club_elevation, centi(-80));
    assert_eq!(r.club_offset, milli(25));
    assert_eq!(r.club_height, milli(-30));
    assert_eq!(r.poly_scale, 10);
    for arr in 0..12 {
        for c in 0..3 {
            assert_eq!(r.poly_coeffs[arr][c], Ratio { num: (arr * 10 + c) as i64 - 50, den: 10 });
        }
    }
    assert_eq!(r.pre_impact_time, centi(1_234));
    assert_eq!(r.post_impact_time, centi(-5_678));
    assert_eq!(r.club_to_ball_time, centi(42));
    assert!(matches!(
        ClubResult::decode(&p[..166]),
        Err(WireError::PayloadTooShort { msg_type: "ClubResult", need: 167, got: 166, .. })
    ));
}

#[test]
fn spin_result_layout() {
    let mut p = vec![0u8; 138];
    p[0] = 0x89;
    for g in 0..5usize {
        for b in 0..3usize {
            let base = 1 + (g * 3 + b) * 7;
            put16(&mut p, base, (g * 100 + b) as i16);
            put24(&mut p, base + 2, -((g * 1000 + b) as i32));
            put16(&mut p, base + 5, -((g + b) as i16));
        }
    }
    put16(&mut p, 106, 2_801);
    put16(&mut p, 108, 2_802);
    put16(&mut p, 110, 95);
    put16(&mut p, 112, 2_700);
    put16(&mut p, 114, 2_750);
    put16(&mut p, 116, 2_000);
    put16(&mut p, 118, 3_500);
    put16(&mut p, 120, 100);
    p[122] = 3;
    put24(&mut p, 123, 0x01_0203);
    put16(&mut p, 126, 2_900);
    put16(&mut p, 128, 2_600);
    put16(&mut p, 130, 2_810);
    put16(&mut p, 132, -35);
    put16(&mut p, 134, 2_790);
    put16(&mut p, 136, -1);
    let r = SpinResult::decode(&p).unwrap();
    assert_eq!(r.version, 0x89);
    for g in 0..5usize {
        for b in 0..3usize {
            let e = r.antenna_data[g][b];
            assert_eq!(e.spin_rpm, (g * 100 + b) as i16);
            assert_eq!(e.peak, milli(-((g * 1000 + b) as i64)));
            assert_eq!(e.snr, -((g + b) as i16));
        }
    }
    assert_eq!(r.pm_spin_raw, 2_801);
    assert_eq!(r.pm_spin_final, 2_802);
    assert_eq!(r.pm_spin_confidence, 95);
    assert_eq!(r.lift_spin, 2_700);
    assert_eq!(r.spin_validate_expected, 2_750);
    assert_eq!(r.spin_validate_low, 2_000);
    assert_eq!(r.spin_validate_high, 3_500);
    assert_eq!(r.spin_validate_scaling, 100);
    assert_eq!(r.spin_method, 3);
    assert_eq!(r.spin_flags, 0x01_0203);
    assert_eq!(r.launch_spin, 2_900);
    assert_eq!(r.am_spin, 2_600);
    assert_eq!(r.pm_spin, 2_810);
    assert_eq!(r.spin_axis, Ratio { num: -35, den: 10 });
    assert_eq!(r.aod_spin, 2_790);
    assert_eq!(r.pll_spin, -1);
    assert!(matches!(
        SpinResult::decode(&p[..137]),
        Err(WireError::PayloadTooShort { msg_type: "SpinResult", need: 138, got: 137, .. })
    ));
    let d = AntennaElement::default();
    assert_eq!((d.spin_rpm, d.peak, d.snr), (0, Ratio { num: 0, den: 1 }, 0));
}

#[test]
fn speed_profile_samples() {
    let mut p = vec![0u8; 12];
    p[1] = 0x01;
    p[2] = 2;
    p[3] = 1;
    put24(&mut p, 4, 100);
    p[7..12].copy_from_slice(&[0xFF, 0xF6, 0x6F, 0xCD, 0x5A]);
    for v in [4_500i16, 4_612, -3] {
        p.extend_from_slice(&v.to_be_bytes());
    }
    p.push(0x7F); // half a sample is left out
    let r = SpeedProfile::decode(&p).unwrap();
    assert_eq!((r.flags, r.num_pre, r.num_post, r.scale_factor), (1, 2, 1, 100));
    assert_eq!(r.time_interval, Float40 { exponent: -10, mantissa: 0x6F_CD5A });
    assert_eq!(r.speeds, vec![centi(4_500), centi(4_612), centi(-3)]);
    put24(&mut p, 4, 0);
    let r = SpeedProfile::decode(&p).unwrap();
    assert_eq!(r.scale_factor, 0);
    assert_eq!(r.speeds[0], Ratio { num: 4_500, den: 1 });
}

#[test]
fn speed_profile_stub() {
    let r = SpeedProfile::decode(&[0x01, 0x05]).unwrap();
    assert_eq!((r.flags, r.num_pre, r.num_post, r.scale_factor), (5, 0, 0, 0));
    assert!(r.time_interval.is_zero());
    assert!(r.speeds.is_empty());
    assert_eq!(SpeedProfile::decode(&[0x01]).unwrap().flags, 0);
    assert_eq!(SpeedProfile::decode(&[]).unwrap().flags, 0);
    assert_eq!(SpeedProfile::decode(&[9; 11]).unwrap().flags, 9);
    assert!(SpeedProfile::decode(&[9; 11]).unwrap().speeds.is_empty());
}

#[test]
fn tracking_status_layout() {
    let mut p = vec![0u8; 82];
    p[1] = 3;
    p[2] = 0x80;
    p[22..25].copy_from_slice(&[0x01, 0x02, 0x03]);
    p[25..28].copy_from_slice(&[0xFF, 0xFF, 0xFF]);
    p[28..31].copy_from_slice(&[0x03, 0x00, 0x01]);
    p[32..35].copy_from_slice(&[0x00, 0x10, 0x00]);
    p[35..38].copy_from_slice(&[0x00, 0x10, 0x01]);
    p[38..40].copy_from_slice(&[0xAB, 0xCD]);
    p[47] = 2;
    p[48] = 9;
    p[51] = 4;
    p[54] = 7;
    p[56..58].copy_from_slice(&[0x12, 0x34]);
    p[59] = 0x55;
    p[62..64].copy_from_slice(&[0xFF, 0xFE]);
    put24(&mut p, 67, -5);
    put24(&mut p, 70, 1);
    put24(&mut p, 73, -2);
    put24(&mut p, 76, 3);
    p[80..82].copy_from_slice(&[0x00, 0x2A]);
    let r = TrackingStatus::decode(&p).unwrap();
    assert_eq!((r.state, r.flags), (3, 0x80));
    assert_eq!(r.pre_trig_buf_start, 0x01_0203);
    assert_eq!(r.club_impact_idx, 0xFF_FFFF);
    assert_eq!(r.trigger_idx, 0x03_0001);
    assert_eq!((r.radar_cal1, r.radar_cal2, r.radar_cal_avr), (0x1000, 0x1001, 0xABCD));
    assert_eq!((r.processing_iteration, r.result_quality), (2, 9));
    assert_eq!((r.detection_subtype, r.prc_tracking_count), (4, 7));
    assert_eq!((r.radar_measurement, r.trigger_flags, r.event_counter), (0x1234, 0x55, 0xFFFE));
    assert_eq!(r.radar_baseline, -5);
    assert_eq!(r.track_measure, [1, -2, 3]);
    assert_eq!(r.track_measure4, 42);
    assert!(matches!(
        TrackingStatus::decode(&p[..81]),
        Err(WireError::PayloadTooShort { msg_type: "TrackingStatus", need: 82, got: 81, .. })
    ));
}

fn prc_record(seed: i16) -> Vec<u8> {
    let mut d = vec![0u8; 60];
    put16(&mut d, 0, seed);
    put16(&mut d, 2, seed + 1);
    put24(&mut d, 4, -(seed as i32) - 2);
    put16(&mut d, 7, seed + 3);
    d[9] = 0x0F;
    put24(&mut d, 10, 123_456);
    put24(&mut d, 13, 100_029);
    put16(&mut d, 16, -150);
    put16(&mut d, 18, 1_230);
    put24(&mut d, 20, 6_705);
    put24(&mut d, 23, 12_345);
    put24(&mut d, 26, 11);
    put24(&mut d, 29, -12);
    put16(&mut d, 32, 1);
    put16(&mut d, 34, 2);
    put16(&mut d, 36, 3);
    put16(&mut d, 38, -4);
    put16(&mut d, 40, 5);
    for j in 0..6 {
        put24(&mut d, 42 + 3 * j, (j as i32 - 2) * 0x10_0000);
    }
    d
}

#[test]
fn prc_data_records() {
    let mut p = vec![123, 0x00, 0x2A, 3];
    p.extend_from_slice(&prc_record(10));
    p.extend_from_slice(&prc_record(20));
    p.extend_from_slice(&prc_record(30)[..59]); // the third record is cut short
    let r = PrcData::decode(&p).unwrap();
    assert_eq!(r.sequence, 42);
    assert_eq!(r.points.len(), 2);
    for (k, seed) in [(0usize, 10i16), (1, 20)] {
        let pt = &r.points[k];
        assert_eq!((pt.index, pt.peak, pt.buf_idx), (seed, seed + 1, seed + 3));
        assert_eq!(pt.snr, -(seed as i32) - 2);
        assert_eq!(pt.flags, 0x0F);
        assert_eq!(pt.time, 123_456);
        assert_eq!(pt.n, Ratio { num: 100_029, den: 100_000 });
        assert_eq!(pt.az, centi(-150));
        assert_eq!(pt.el, centi(1_230));
        assert_eq!(pt.vel, centi(6_705));
        assert_eq!(pt.dist, milli(12_345));
        assert_eq!((pt.sync_idx, pt.sync_buf), (11, -12));
        assert_eq!([pt.az1, pt.az2, pt.az3], [centi(1), centi(2), centi(3)]);
        assert_eq!([pt.el1, pt.el2], [centi(-4), centi(5)]);
        for j in 0..6i64 {
            assert_eq!(pt.pk[j as usize], Ratio { num: (j - 2) * 0x10_0000 * 10_000, den: 0x80_0000 });
        }
        assert_eq!(value(pt.pk[3]), 1_250.0);
    }
}

#[test]
fn prc_data_counts_and_layouts() {
    let mut p = vec![63, 0xFF, 0xFE, 1];
    p.extend_from_slice(&prc_record(1));
    p.extend_from_slice(&prc_record(2));
    // the count byte limits the records
    let r = PrcData::decode(&p).unwrap();
    assert_eq!(r.sequence, -2);
    assert_eq!(r.points.len(), 1);
    // a layout byte that is not three more than a multiple of sixty gives no points
    for header in [0u8, 2, 4, 62, 64, 255] {
        p[0] = header;
        let r = PrcData::decode(&p).unwrap();
        assert_eq!(r.sequence, -2);
        assert!(r.points.is_empty(), "header {header}");
    }
    for header in [3u8, 63, 123, 183, 243] {
        p[0] = header;
        assert_eq!(PrcData::decode(&p).unwrap().points.len(), 1, "header {header}");
    }
    assert!(PrcData::decode(&[3, 0, 0, 5]).unwrap().points.is_empty());
    assert!(matches!(
        PrcData::decode(&[3, 0, 0]),
        Err(WireError::PayloadTooShort { msg_type: "PrcData", need: 4, got: 3, .. })
    ));
}

fn club_record(seed: i16) -> Vec<u8> {
    let mut d = vec![0u8; 76];
    put16(&mut d, 0, seed);
    put16(&mut d, 2, -1_600);
    put16(&mut d, 4, seed + 2);
    put24(&mut d, 6, 70_000);
    put16(&mut d, 9, seed + 4);
    put24(&mut d, 11, -9);
    put24(&mut d, 14, 100_000);
    put16(&mut d, 17, 17);
    put16(&mut d, 19, -19);
    put24(&mut d, 21, 2_100);
    put24(&mut d, 24, -2_400);
    put24(&mut d, 27, 2_700);
    put24(&mut d, 30, 30);
    put24(&mut d, 33, -33);
    d[38] = 4;
    put24(&mut d, 39, 39);
    put24(&mut d, 42, -42);
    put24(&mut d, 45, 45);
    put16(&mut d, 48, 48);
    put16(&mut d, 50, 50);
    put16(&mut d, 52, 52);
    put16(&mut d, 54, 54);
    put16(&mut d, 56, -56);
    for j in 0..6 {
        put24(&mut d, 58 + 3 * j, 8 * (j as i32 + 1));
    }
    d
}

#[test]
fn club_prc_records() {
    let mut p = vec![228u8];
    p.extend_from_slice(&club_record(1));
    p.extend_from_slice(&club_record(2));
    p.extend_from_slice(&club_record(3));
    let r = ClubPrc::decode(&p).unwrap();
    assert_eq!(r.points.len(), 3);
    for (k, seed) in [(0usize, 1i16), (1, 2), (2, 3)] {
        let pt = &r.points[k];
        assert_eq!((pt.index, pt.buf_ofs, pt.peak, pt.buf_idx), (seed, -1_600, seed + 2, seed + 4));
        assert_eq!((pt.snr, pt.time), (70_000, -9));
        assert_eq!(pt.n, Ratio { num: 100_000, den: 100_000 });
        assert_eq!([pt.az, pt.el], [centi(17), centi(-19)]);
        assert_eq!([pt.vel, pt.vel2], [centi(2_100), centi(-2_400)]);
        assert_eq!([pt.dist, pt.f30, pt.f33, pt.f45], [milli(2_700), milli(30), milli(-33), milli(45)]);
        assert_eq!((pt.version, pt.f39, pt.f42), (4, 39, -42));
        assert_eq!([pt.az1, pt.az2, pt.az3, pt.el1, pt.el2], [centi(48), centi(50), centi(52), centi(54), centi(-56)]);
        for j in 0..6i64 {
            assert_eq!(pt.pk[j as usize], Ratio { num: 8 * (j + 1) * 10_000, den: 0x80_0000 });
        }
    }
    // the length byte counts whole records, and the payload must hold them
    p[0] = 152;
    assert_eq!(ClubPrc::decode(&p).unwrap().points.len(), 2);
    p[0] = 75;
    assert!(ClubPrc::decode(&p).unwrap().points.is_empty());
    p[0] = 255;
    assert_eq!(ClubPrc::decode(&p).unwrap().points.len(), 3);
    assert_eq!(ClubPrc::decode(&p[..228]).unwrap().points.len(), 2);
    assert!(ClubPrc::decode(&[]).unwrap().points.is_empty());
    assert!(ClubPrc::decode(&[228]).unwrap().points.is_empty());
}

#[test]
fn club_prc_page_request() {
    let req = ClubPrc::encode_request(0x0103);
    assert_eq!(req.len(), 77);
    assert_eq!(&req[..3], &[0x4C, 0x01, 0x03]);
    assert!(req[3..].iter().all(|b| *b == 0));
}

#[test]
fn shot_text_states() {
    let t = ShotText::decode(b"\x00\x0DPROCESSED\x0A\x00").unwrap();
    assert_eq!(t.text, "PROCESSED");
    assert!(t.is_processed() && !t.is_idle() && !t.is_trigger());
    let t = ShotText::decode(b"state: IDLE now").unwrap();
    assert!(t.is_idle() && !t.is_processed());
    let t = ShotText::decode(b"BALL TRIGGER").unwrap();
    assert!(t.is_trigger());
    let t = ShotText::decode(b"BALL  TRIGGER / idle / Clubimpact").unwrap();
    assert!(!t.is_trigger() && !t.is_idle() && !t.is_processed());
    let t = ShotText::decode(b"").unwrap();
    assert!(!t.is_trigger() && !t.is_idle() && !t.is_processed());
}
