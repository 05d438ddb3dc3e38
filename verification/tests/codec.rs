use ironsight::codec::{
    read_float40, read_int16, read_int16_scaled, read_int24, read_int24_scaled, read_int32,
    read_uint16, read_uint24, read_uint32, write_float40, write_int16, write_int24, write_int32,
    write_uint16, write_uint24, write_uint32, Float40, Ratio,
};
use ironsight::error::WireError;

/// The number that a FLOAT40 stands for.
fn to_f64(v: Float40) -> f64 {
    if v.mantissa == 0 {
        0.0
    } else {
        f64::from(v.mantissa) * f64::exp2(f64::from(v.exponent) - 23.0)
    }
}

fn read_f64(data: &[u8], offset: usize) -> f64 {
    to_f64(read_float40(data, offset).unwrap())
}

fn write_f64(buf: &mut Vec<u8>, value: f64) {
    write_float40(buf, Float40::from_f64_bits(value.to_bits()));
}

#[test]
fn int16_round_trip() {
    for val in [0i16, 1, -1, i16::MAX, i16::MIN, 0x7FFF, -0x8000] {
        let mut buf = Vec::new();
        write_int16(&mut buf, val);
        assert_eq!(read_int16(&buf, 0).unwrap(), val);
    }
}

#[test]
fn int24_round_trip() {
    for val in [0i32, 1, -1, 0x7F_FFFF, -0x80_0000, 42, -42] {
        let mut buf = Vec::new();
        write_int24(&mut buf, val);
        assert_eq!(read_int24(&buf, 0).unwrap(), val);
    }
}

#[test]
fn int24_sign_extension() {
    let data = [0xFF, 0xFF, 0xFF];
    assert_eq!(read_int24(&data, 0).unwrap(), -1);

    let data = [0x80, 0x00, 0x00];
    assert_eq!(read_int24(&data, 0).unwrap(), -0x80_0000);

    let data = [0x7F, 0xFF, 0xFF];
    assert_eq!(read_int24(&data, 0).unwrap(), 0x7F_FFFF);
}

#[test]
fn float40_zero() {
    let data = [0x00, 0x00, 0x00, 0x00, 0x00];
    assert_eq!(read_f64(&data, 0), 0.0);

    let mut buf = Vec::new();
    write_f64(&mut buf, 0.0);
    assert_eq!(buf, vec![0, 0, 0, 0, 0]);
}

#[test]
fn float40_one() {
    let data = [0x00, 0x01, 0x40, 0x00, 0x00];
    let val = read_f64(&data, 0);
    assert!((val - 1.0).abs() < 1e-10, "expected 1.0, got {val}");

    let mut buf = Vec::new();
    write_f64(&mut buf, 1.0);
    assert_eq!(buf, vec![0x00, 0x01, 0x40, 0x00, 0x00]);
}

#[test]
fn float40_12_5() {
    let data = [0x00, 0x04, 0x64, 0x00, 0x00];
    let val = read_f64(&data, 0);
    assert!((val - 12.5).abs() < 1e-10, "expected 12.5, got {val}");
}

#[test]
fn float40_negative() {
    let data = [0x00, 0x02, 0xB6, 0x66, 0x67];
    let val = read_f64(&data, 0);
    assert!((val - (-2.3)).abs() < 1e-6, "expected -2.3, got {val}");
}

#[test]
fn float40_100() {
    let data = [0x00, 0x07, 0x64, 0x00, 0x00];
    let val = read_f64(&data, 0);
    assert!((val - 100.0).abs() < 1e-10, "expected 100.0, got {val}");
}

#[test]
fn float40_0_0254() {
    let data = [0xFF, 0xFB, 0x68, 0x09, 0xE2];
    let val = read_f64(&data, 0);
    assert!((val - 0.0254).abs() < 1e-6, "expected 0.0254, got {val}");
}

#[test]
fn float40_round_trip() {
    for &val in &[1.0, -1.0, 12.5, 100.0, 0.0254, -2.3, 0.001, 999.999] {
        let mut buf = Vec::new();
        write_f64(&mut buf, val);
        let decoded = read_f64(&buf, 0);
        let rel_err = ((decoded - val) / val).abs();
        assert!(
            rel_err < 1e-6,
            "round-trip failed for {val}: got {decoded} (rel err {rel_err})"
        );
    }
}

#[test]
fn uint16_round_trip() {
    for val in [0u16, 1, 0xFFFF, 0x8000] {
        let mut buf = Vec::new();
        write_uint16(&mut buf, val);
        assert_eq!(read_uint16(&buf, 0).unwrap(), val);
    }
}

#[test]
fn int32_round_trip() {
    for val in [0i32, 1, -1, i32::MAX, i32::MIN] {
        let mut buf = Vec::new();
        write_int32(&mut buf, val);
        assert_eq!(read_int32(&buf, 0).unwrap(), val);
    }
}

#[test]
fn uint24_and_uint32_round_trip() {
    for val in [0u32, 1, 0xFF_FFFF, 0x80_0000, 0x12_3456] {
        let mut buf = Vec::new();
        write_uint24(&mut buf, val);
        assert_eq!(buf.len(), 3);
        assert_eq!(read_uint24(&buf, 0).unwrap(), val);
    }
    for val in [0u32, 1, u32::MAX, 0x8000_0000, 0x1234_5678] {
        let mut buf = Vec::new();
        write_uint32(&mut buf, val);
        assert_eq!(buf.len(), 4);
        assert_eq!(read_uint32(&buf, 0).unwrap(), val);
    }
}

#[test]
fn writers_are_big_endian_and_append() {
    let mut buf = vec![0xEE];
    write_uint16(&mut buf, 0x1234);
    write_int16(&mut buf, -2);
    write_uint24(&mut buf, 0xAB_CDEF);
    write_int24(&mut buf, -2);
    write_uint32(&mut buf, 0x0102_0304);
    write_int32(&mut buf, -2);
    assert_eq!(
        buf,
        vec![
            0xEE, 0x12, 0x34, 0xFF, 0xFE, 0xAB, 0xCD, 0xEF, 0xFF, 0xFF, 0xFE, 0x01, 0x02, 0x03,
            0x04, 0xFF, 0xFF, 0xFF, 0xFE
        ]
    );
}

#[test]
fn write_int24_keeps_the_low_three_bytes() {
    let mut buf = Vec::new();
    write_int24(&mut buf, 0x1234_5678);
    assert_eq!(buf, vec![0x34, 0x56, 0x78]);
    let mut buf = Vec::new();
    write_uint24(&mut buf, 0xFF12_3456);
    assert_eq!(buf, vec![0x12, 0x34, 0x56]);
}

#[test]
fn readers_honour_the_offset() {
    let data = [0x00, 0x12, 0x34, 0x56, 0x78, 0x9A];
    assert_eq!(read_uint16(&data, 1).unwrap(), 0x1234);
    assert_eq!(read_int16(&data, 4).unwrap(), 0x789Au16 as i16);
    assert_eq!(read_uint24(&data, 1).unwrap(), 0x12_3456);
    assert_eq!(read_uint32(&data, 2).unwrap(), 0x3456_789A);
    assert_eq!(read_int32(&data, 1).unwrap(), 0x1234_5678);
}

#[test]
fn short_buffer_names_kind_need_and_got() {
    let data = [0x01, 0x02, 0x03];
    let cases: Vec<(WireError, &str, usize)> = vec![
        (read_int16(&data, 2).unwrap_err(), "INT16", 4),
        (read_uint16(&data, 2).unwrap_err(), "UINT16", 4),
        (read_int24(&data, 1).unwrap_err(), "INT24", 4),
        (read_uint24(&data, 1).unwrap_err(), "UINT24", 4),
        (read_int32(&data, 0).unwrap_err(), "INT32", 4),
        (read_uint32(&data, 0).unwrap_err(), "UINT32", 4),
        (read_float40(&data, 0).unwrap_err(), "FLOAT40", 5),
        (read_int24_scaled(&data, 1, 1000).unwrap_err(), "INT24", 4),
        (read_int16_scaled(&data, 2, 100).unwrap_err(), "INT16", 4),
    ];
    for (err, kind, wanted) in cases {
        match err {
            WireError::PayloadTooShort { msg_type, need, got, raw } => {
                assert_eq!(msg_type, kind);
                assert_eq!(need, wanted);
                assert_eq!(got, 3);
                assert!(raw.is_empty());
            }
            other => panic!("unexpected error {other:?}"),
        }
    }
}

#[test]
fn scaled_reads_keep_the_raw_value_over_the_scale() {
    let data = [0xFF, 0xFF, 0x9C, 0x00, 0x64];
    assert_eq!(read_int24_scaled(&data, 0, 1000).unwrap(), Ratio { num: -100, den: 1000 });
    assert_eq!(read_int16_scaled(&data, 3, 10).unwrap(), Ratio { num: 100, den: 10 });
    assert_eq!(Ratio::zero(), Ratio { num: 0, den: 1 });
}

#[test]
fn float40_zero_mantissa_reads_as_zero_whatever_the_exponent() {
    let data = [0x12, 0x34, 0x00, 0x00, 0x00];
    let v = read_float40(&data, 0).unwrap();
    assert_eq!(v, Float40 { exponent: 0, mantissa: 0 });
    assert!(v.is_zero());
    assert_eq!(v, Float40::zero());
}

#[test]
fn float40_fields_of_known_vectors() {
    assert_eq!(
        read_float40(&[0x00, 0x01, 0x40, 0x00, 0x00], 0).unwrap(),
        Float40 { exponent: 1, mantissa: 0x40_0000 }
    );
    assert_eq!(
        read_float40(&[0x00, 0x02, 0xB6, 0x66, 0x67], 0).unwrap(),
        Float40 { exponent: 2, mantissa: -4823449 }
    );
    assert_eq!(
        read_float40(&[0xFF, 0xFB, 0x68, 0x09, 0xE2], 0).unwrap(),
        Float40 { exponent: -5, mantissa: 6818274 }
    );
}

#[test]
fn float40_from_bits_splits_the_double() {
    assert_eq!(Float40::from_f64_bits(1.0f64.to_bits()), Float40 { exponent: 1, mantissa: 0x40_0000 });
    assert_eq!(
        Float40::from_f64_bits((-1.0f64).to_bits()),
        Float40 { exponent: 1, mantissa: -0x40_0000 }
    );
    assert_eq!(Float40::from_f64_bits(12.5f64.to_bits()), Float40 { exponent: 4, mantissa: 0x64_0000 });
    assert_eq!(Float40::from_f64_bits(0.0f64.to_bits()), Float40::zero());
    assert_eq!(Float40::from_f64_bits((-0.0f64).to_bits()), Float40::zero());
    // 0.0254 = 0.8128 * 2^-5, and 0.8128 * 2^23 = 6818260.3
    assert_eq!(
        Float40::from_f64_bits(0.0254f64.to_bits()),
        Float40 { exponent: -5, mantissa: 6818260 }
    );
}

#[test]
fn float40_written_bytes() {
    let mut buf = vec![0xAA];
    write_float40(&mut buf, Float40 { exponent: -5, mantissa: 6818274 });
    assert_eq!(buf, vec![0xAA, 0xFF, 0xFB, 0x68, 0x09, 0xE2]);
    let mut buf = Vec::new();
    write_float40(&mut buf, Float40 { exponent: 2, mantissa: -4823449 });
    assert_eq!(buf, vec![0x00, 0x02, 0xB6, 0x66, 0x67]);
}

#[test]
fn float40_survives_the_wire_exactly() {
    for &val in &[1.0f64, -1.0, 12.5, 100.0, 0.0254, -2.3, 0.001, 999.999, 1e300, -1e-300] {
        let v = Float40::from_f64_bits(val.to_bits());
        let mut buf = Vec::new();
        write_float40(&mut buf, v);
        assert_eq!(buf.len(), 5);
        assert_eq!(read_float40(&buf, 0).unwrap(), v);
    }
}
