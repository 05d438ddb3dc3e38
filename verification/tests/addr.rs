use ironsight::addr::BusAddr;
use ironsight::error::WireError;

#[test]
fn addr_round_trip() {
    for addr in [BusAddr::App, BusAddr::Pi, BusAddr::Avr, BusAddr::Dsp] {
        assert_eq!(BusAddr::from_byte(addr.as_byte()).unwrap(), addr);
    }
}

#[test]
fn unknown_addr() {
    assert!(BusAddr::from_byte(0xFF).is_err());
}

#[test]
fn addr_bytes_are_the_four_of_the_bus() {
    assert_eq!(BusAddr::App.as_byte(), 0x10);
    assert_eq!(BusAddr::Pi.as_byte(), 0x12);
    assert_eq!(BusAddr::Avr.as_byte(), 0x30);
    assert_eq!(BusAddr::Dsp.as_byte(), 0x40);
}

#[test]
fn every_other_byte_is_refused_with_its_value() {
    for b in 0u8..=255 {
        match BusAddr::from_byte(b) {
            Ok(a) => assert_eq!(a.as_byte(), b),
            Err(WireError::UnknownBusAddr { addr }) => {
                assert_eq!(addr, b);
                assert!(![0x10, 0x12, 0x30, 0x40].contains(&b));
            }
            Err(other) => panic!("unexpected error {other:?}"),
        }
    }
}

#[test]
fn addr_names() {
    assert_eq!(BusAddr::App.name(), "APP");
    assert_eq!(BusAddr::Pi.name(), "PI");
    assert_eq!(BusAddr::Avr.name(), "AVR");
    assert_eq!(BusAddr::Dsp.name(), "DSP");
}
