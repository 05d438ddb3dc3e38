//! Addresses of the peers on the device's internal bus.

use crate::error::{WireError, WireFault};
use vstd::prelude::*;

verus! {

/// A peer on the device's internal bus.
#[derive(Debug, Clone, Copy, PartialEq, Eq, Hash, Structural)]
pub enum BusAddr {
    /// Client application, `0x10`.
    App,
    /// Camera processor, `0x12`.
    Pi,
    /// Radar microcontroller, `0x30`.
    Avr,
    /// Radar signal processor, `0x40`.
    Dsp,
}

impl BusAddr {
    /// The byte that stands for this peer on the wire.
    pub open spec fn byte(self) -> u8 {
        match self {
            BusAddr::App => 0x10,
            BusAddr::Pi => 0x12,
            BusAddr::Avr => 0x30,
            BusAddr::Dsp => 0x40,
        }
    }

    /// Whether `b` names a peer.
    pub open spec fn is_addr_byte(b: u8) -> bool {
        b == 0x10 || b == 0x12 || b == 0x30 || b == 0x40
    }

    /// The peer that the address byte `b` names.
    pub open spec fn of_byte(b: u8) -> BusAddr {
        if b == 0x10 {
            BusAddr::App
        } else if b == 0x12 {
            BusAddr::Pi
        } else if b == 0x30 {
            BusAddr::Avr
        } else {
            BusAddr::Dsp
        }
    }

    /// The peer that `b` names: an error for every byte but the four
    /// addresses.
    pub fn from_byte(b: u8) -> (r: Result<Self, WireError>)
        ensures
            match r {
                Ok(a) => Self::is_addr_byte(b) && a == Self::of_byte(b),
                Err(e) => !Self::is_addr_byte(b) && e@ == (WireFault::UnknownBusAddr { addr: b }),
            },
    {
        match b {
            0x10 => Ok(BusAddr::App),
            0x12 => Ok(BusAddr::Pi),
            0x30 => Ok(BusAddr::Avr),
            0x40 => Ok(BusAddr::Dsp),
            _ => Err(WireError::UnknownBusAddr { addr: b }),
        }
    }

    /// The byte that stands for this peer on the wire.
    #[verifier::when_used_as_spec(byte)]
    pub fn as_byte(self) -> (b: u8)
        ensures
            b == self.byte(),
            Self::is_addr_byte(b),
    {
        match self {
            BusAddr::App => 0x10,
            BusAddr::Pi => 0x12,
            BusAddr::Avr => 0x30,
            BusAddr::Dsp => 0x40,
        }
    }

    /// The peer's short name: `APP`, `PI`, `AVR` or `DSP`.
    pub fn name(self) -> (s: &'static str)
        ensures
            s@ == self.name_text(),
    {
        match self {
            BusAddr::App => "APP",
            BusAddr::Pi => "PI",
            BusAddr::Avr => "AVR",
            BusAddr::Dsp => "DSP",
        }
    }

    /// The characters of [`BusAddr::name`].
    pub open spec fn name_text(self) -> Seq<char> {
        match self {
            BusAddr::App => "APP"@,
            BusAddr::Pi => "PI"@,
            BusAddr::Avr => "AVR"@,
            BusAddr::Dsp => "DSP"@,
        }
    }
}

/// The byte of a peer is an address byte, and names that peer.
pub proof fn lemma_addr_round_trip(a: BusAddr)
    ensures
        BusAddr::is_addr_byte(a.byte()),
        BusAddr::of_byte(a.byte()) == a,
{
}

} // verus!
