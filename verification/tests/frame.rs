use ironsight::addr::BusAddr;
use ironsight::error::WireError;
use ironsight::frame::{stuff_bytes, FrameSplitter, RawFrame, END, ESC, START};

#[test]
fn parse_worked_example() {
    let wire = [0xF0, 0x40, 0x10, 0xAA, 0x01, 0x01, 0x00, 0xFC, 0xF1];
    let frame = RawFrame::parse(&wire).unwrap();
    assert_eq!(frame.dest, BusAddr::Dsp);
    assert_eq!(frame.src, BusAddr::App);
    assert_eq!(frame.type_id, 0xAA);
    assert_eq!(frame.payload, vec![0x01, 0x01]);
}

#[test]
fn encode_worked_example() {
    let frame = RawFrame {
        dest: BusAddr::Dsp,
        src: BusAddr::App,
        type_id: 0xAA,
        payload: vec![0x01, 0x01],
    };
    let wire = frame.encode();
    assert_eq!(
        wire,
        vec![0xF0, 0x40, 0x10, 0xAA, 0x01, 0x01, 0x00, 0xFC, 0xF1]
    );
}

#[test]
fn frame_round_trip() {
    let sent = RawFrame {
        dest: BusAddr::Avr,
        src: BusAddr::App,
        type_id: 0xB0,
        payload: vec![0x01, 0x01],
    };
    let wire = sent.encode();
    let parsed = RawFrame::parse(&wire).unwrap();
    assert_eq!(parsed.dest, sent.dest);
    assert_eq!(parsed.src, sent.src);
    assert_eq!(parsed.type_id, sent.type_id);
    assert_eq!(parsed.payload, sent.payload);
}

#[test]
fn stuff_all_four_escapes() {
    let frame = RawFrame {
        dest: BusAddr::Dsp,
        src: BusAddr::App,
        type_id: 0x01,
        payload: vec![0xF0, 0xF1, 0xFD, 0xFA],
    };
    let wire = frame.encode();
    assert!(wire.contains(&ESC));
    let parsed = RawFrame::parse(&wire).unwrap();
    assert_eq!(parsed.payload, vec![0xF0, 0xF1, 0xFD, 0xFA]);
}

#[test]
fn empty_payload() {
    let frame = RawFrame {
        dest: BusAddr::Avr,
        src: BusAddr::App,
        type_id: 0x69,
        payload: vec![],
    };
    let wire = frame.encode();
    let parsed = RawFrame::parse(&wire).unwrap();
    assert_eq!(parsed.type_id, 0x69);
    assert!(parsed.payload.is_empty());
}

#[test]
fn bad_checksum() {
    let mut wire = vec![0xF0, 0x40, 0x10, 0xAA, 0x01, 0x01, 0x00, 0xFC, 0xF1];
    wire[7] = 0x00;
    assert!(matches!(
        RawFrame::parse(&wire),
        Err(WireError::ChecksumMismatch { .. })
    ));
}

#[test]
fn too_short() {
    assert!(matches!(
        RawFrame::parse(&[0xF0, 0xF1]),
        Err(WireError::FrameTooShort { .. })
    ));
}

#[test]
fn frame_splitter_basic() {
    let mut splitter = FrameSplitter::new();
    let wire = [0xF0, 0x40, 0x10, 0xAA, 0x01, 0x01, 0x00, 0xFC, 0xF1];

    let frames = splitter.feed(&wire);
    assert_eq!(frames.len(), 1);
    assert_eq!(frames[0], wire);
}

#[test]
fn frame_splitter_partial() {
    let mut splitter = FrameSplitter::new();
    let wire = [0xF0, 0x40, 0x10, 0xAA, 0x01, 0x01, 0x00, 0xFC, 0xF1];

    let frames = splitter.feed(&wire[..5]);
    assert!(frames.is_empty());
    let frames = splitter.feed(&wire[5..]);
    assert_eq!(frames.len(), 1);
}

#[test]
fn frame_splitter_multiple() {
    let mut splitter = FrameSplitter::new();
    let frame1 = [0xF0, 0x40, 0x10, 0xAA, 0x01, 0x01, 0x00, 0xFC, 0xF1];
    let frame2 = [0xF0, 0x30, 0x10, 0xAA, 0x01, 0x01, 0x00, 0xEC, 0xF1];
    let mut combined = Vec::new();
    combined.extend_from_slice(&frame1);
    combined.extend_from_slice(&frame2);

    let frames = splitter.feed(&combined);
    assert_eq!(frames.len(), 2);
}

#[test]
fn frame_splitter_garbage_prefix() {
    let mut splitter = FrameSplitter::new();
    let mut data = vec![0x00, 0xFF, 0x42];
    data.extend_from_slice(&[0xF0, 0x40, 0x10, 0xAA, 0x01, 0x01, 0x00, 0xFC, 0xF1]);
    let frames = splitter.feed(&data);
    assert_eq!(frames.len(), 1);
}

// ---------------------------------------------------------------------------

fn frame(dest: BusAddr, src: BusAddr, type_id: u8, payload: Vec<u8>) -> RawFrame {
    RawFrame { dest, src, type_id, payload }
}

#[test]
fn sentinels_have_their_values() {
    assert_eq!(START, 0xF0);
    assert_eq!(END, 0xF1);
    assert_eq!(ESC, 0xFD);
}

#[test]
fn stuffing_escapes_the_four_reserved_octets() {
    assert_eq!(
        stuff_bytes(&[0x00, 0xF0, 0xF1, 0xFD, 0xFA, 0xFB, 0xFF]),
        vec![0x00, 0xFD, 0x01, 0xFD, 0x02, 0xFD, 0x03, 0xFD, 0x04, 0xFB, 0xFF]
    );
    assert_eq!(stuff_bytes(&[]), Vec::<u8>::new());
}

#[test]
fn all_escapes_payload_on_the_wire() {
    let wire = frame(BusAddr::Dsp, BusAddr::App, 0x01, vec![0xF0, 0xF1, 0xFD, 0xFA]).encode();
    // body 40 10 01 FD01 FD02 FD03 FD04: sum = 0x51 + 4 * 0xFD + 10 = 0x44F
    assert_eq!(
        wire,
        vec![
            0xF0, 0x40, 0x10, 0x01, 0xFD, 0x01, 0xFD, 0x02, 0xFD, 0x03, 0xFD, 0x04, 0x04, 0x4F,
            0xF1
        ]
    );
}

#[test]
fn checksum_bytes_are_stuffed_too() {
    // body 40 10 A0: sum 0xF0, so the low checksum byte is a reserved octet.
    let f = frame(BusAddr::Dsp, BusAddr::App, 0xA0, vec![]);
    let wire = f.encode();
    assert_eq!(wire, vec![0xF0, 0x40, 0x10, 0xA0, 0x00, 0xFD, 0x01, 0xF1]);
    let parsed = RawFrame::parse(&wire).unwrap();
    assert_eq!(parsed.type_id, 0xA0);
    assert!(parsed.payload.is_empty());
}

#[test]
fn checksum_wraps_at_sixteen_bits() {
    let f = frame(BusAddr::Avr, BusAddr::App, 0x10, vec![0xFF; 300]);
    let wire = f.encode();
    let sum: u32 = 0x30 + 0x10 + 0x10 + 300 * 0xFF;
    assert!(sum > 0xFFFF);
    let n = wire.len();
    assert_eq!(wire[n - 3], ((sum >> 8) & 0xFF) as u8);
    assert_eq!(wire[n - 2], (sum & 0xFF) as u8);
    let parsed = RawFrame::parse(&wire).unwrap();
    assert_eq!(parsed.payload, vec![0xFF; 300]);
}

#[test]
fn round_trip_over_every_payload_byte() {
    let payload: Vec<u8> = (0u8..=255).collect();
    for (dest, src) in [
        (BusAddr::Dsp, BusAddr::App),
        (BusAddr::App, BusAddr::Avr),
        (BusAddr::Pi, BusAddr::Pi),
    ] {
        let wire = frame(dest, src, 0xFD, payload.clone()).encode();
        assert_eq!(wire[0], START);
        assert_eq!(wire[wire.len() - 1], END);
        assert!(!wire[1..wire.len() - 1].contains(&START));
        assert!(!wire[1..wire.len() - 1].contains(&END));
        let parsed = RawFrame::parse(&wire).unwrap();
        assert_eq!(parsed.dest, dest);
        assert_eq!(parsed.src, src);
        assert_eq!(parsed.type_id, 0xFD);
        assert_eq!(parsed.payload, payload);
    }
}

#[test]
fn flipping_either_checksum_byte_is_a_mismatch() {
    let good = vec![0xF0, 0x40, 0x10, 0xAA, 0x01, 0x01, 0x00, 0xFC, 0xF1];
    for (at, value, expected) in [(6usize, 0x01u8, 0x01FCu16), (7, 0xFB, 0x00FB)] {
        let mut wire = good.clone();
        wire[at] = value;
        match RawFrame::parse(&wire) {
            Err(WireError::ChecksumMismatch { expected: e, computed }) => {
                assert_eq!(e, expected);
                assert_eq!(computed, 0x00FC);
            }
            other => panic!("unexpected result {other:?}"),
        }
    }
}

#[test]
fn parse_faults_in_their_order() {
    match RawFrame::parse(&[0xF0, 0x40, 0x10, 0xAA, 0x00, 0xF1]) {
        Err(WireError::FrameTooShort { len }) => assert_eq!(len, 6),
        other => panic!("unexpected result {other:?}"),
    }
    match RawFrame::parse(&[0x00, 0x40, 0x10, 0xAA, 0x01, 0x01, 0x00, 0xFC, 0xF1]) {
        Err(WireError::MissingStart { got }) => assert_eq!(got, 0x00),
        other => panic!("unexpected result {other:?}"),
    }
    assert!(matches!(
        RawFrame::parse(&[0xF0, 0x40, 0x10, 0xAA, 0x01, 0x01, 0x00, 0xFC, 0x00]),
        Err(WireError::MissingEnd)
    ));
    match RawFrame::parse(&[0xF0, 0x40, 0x10, 0xFD, 0x09, 0x01, 0x00, 0xFC, 0xF1]) {
        Err(WireError::InvalidEscape { code, offset }) => {
            assert_eq!(code, 0x09);
            assert_eq!(offset, 2);
        }
        other => panic!("unexpected result {other:?}"),
    }
    match RawFrame::parse(&[0xF0, 0x40, 0x10, 0xAA, 0x01, 0x01, 0x00, 0xFD, 0xF1]) {
        Err(WireError::InvalidEscape { code, offset }) => {
            assert_eq!(code, 0x00);
            assert_eq!(offset, 6);
        }
        other => panic!("unexpected result {other:?}"),
    }
    // seven bytes on the wire, but only four once unstuffed
    match RawFrame::parse(&[0xF0, 0xFD, 0x01, 0x10, 0xAA, 0x01, 0xF1]) {
        Err(WireError::FrameTooShort { len }) => assert_eq!(len, 7),
        other => panic!("unexpected result {other:?}"),
    }
    match RawFrame::parse(&[0xF0, 0x41, 0x10, 0xAA, 0x01, 0x01, 0x00, 0xFD, 0x03, 0xF1]) {
        Err(WireError::UnknownBusAddr { addr }) => assert_eq!(addr, 0x41),
        other => panic!("unexpected result {other:?}"),
    }
    match RawFrame::parse(&[0xF0, 0x40, 0x11, 0xAA, 0x01, 0x01, 0x00, 0xFD, 0x03, 0xF1]) {
        Err(WireError::UnknownBusAddr { addr }) => assert_eq!(addr, 0x11),
        other => panic!("unexpected result {other:?}"),
    }
}

#[test]
fn splitter_emits_concatenated_frames_in_order() {
    let f1 = frame(BusAddr::Dsp, BusAddr::App, 0xAA, vec![0x01, 0x01]).encode();
    let f2 = frame(BusAddr::Avr, BusAddr::App, 0xB0, vec![0xF0, 0xF1]).encode();
    let f3 = frame(BusAddr::Pi, BusAddr::App, 0x81, vec![]).encode();
    let mut stream = vec![0x00, 0xF1, 0x42];
    stream.extend_from_slice(&f1);
    stream.extend_from_slice(&f2);
    stream.extend_from_slice(&f3);
    let mut splitter = FrameSplitter::new();
    assert_eq!(splitter.feed(&stream), vec![f1, f2, f3]);
    assert_eq!(splitter.feed(&[]), Vec::<Vec<u8>>::new());
}

#[test]
fn splitter_does_not_care_how_the_stream_is_cut() {
    let f1 = frame(BusAddr::Dsp, BusAddr::App, 0xAA, vec![0x01, 0x01]).encode();
    let f2 = frame(BusAddr::Avr, BusAddr::App, 0xB0, vec![0xFD, 0xFA, 0x00]).encode();
    let mut stream = vec![0x13, 0x37];
    stream.extend_from_slice(&f1);
    stream.extend_from_slice(&[0x55]);
    stream.extend_from_slice(&f2);
    for cut1 in 0..=stream.len() {
        for cut2 in cut1..=stream.len() {
            let mut splitter = FrameSplitter::new();
            let mut got = splitter.feed(&stream[..cut1]);
            got.extend(splitter.feed(&stream[cut1..cut2]));
            got.extend(splitter.feed(&stream[cut2..]));
            assert_eq!(got, vec![f1.clone(), f2.clone()], "cuts at {cut1} and {cut2}");
        }
    }
}

#[test]
fn splitter_emits_only_when_the_last_chunk_arrives() {
    let wire = frame(BusAddr::Dsp, BusAddr::App, 0xAA, vec![0x01, 0x01]).encode();
    let mut splitter = FrameSplitter::new();
    for b in &wire[..wire.len() - 1] {
        assert!(splitter.feed(&[*b]).is_empty());
    }
    assert_eq!(splitter.feed(&wire[wire.len() - 1..]), vec![wire]);
}

#[test]
fn splitter_passes_unvalidated_interiors_through() {
    let mut splitter = FrameSplitter::new();
    // a start sentinel inside a frame stays inside it; validation is for the parser
    let frames = splitter.feed(&[0xF0, 0xFD, 0x09, 0xF0, 0x00, 0xF1, 0xF1, 0xF0, 0xF1]);
    assert_eq!(frames, vec![vec![0xF0, 0xFD, 0x09, 0xF0, 0x00, 0xF1], vec![0xF0, 0xF1]]);
    let default = FrameSplitter::default().feed(&[0xF1, 0xF0, 0x01]);
    assert!(default.is_empty());
}
