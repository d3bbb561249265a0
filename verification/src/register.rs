//! The register map of the sensor and the bus addresses it may answer on.

use vstd::prelude::*;

verus! {

/// A register of the sensor.
#[derive(Clone, Copy, Debug, PartialEq, Eq, Structural)]
pub enum Register {
    /// The latest temperature sample: two bytes, most significant first.
    Temp,
    /// The operating mode.
    Config,
    /// The hysteresis threshold of the alarm output.
    Thyst,
    /// The overtemperature threshold of the alarm output.
    Tos,
}

impl Register {
    /// The byte that selects this register on the wire.
    pub open spec fn spec_addr(self) -> u8 {
        match self {
            Register::Temp => 0x00,
            Register::Config => 0x01,
            Register::Thyst => 0x02,
            Register::Tos => 0x03,
        }
    }

    /// The byte that selects this register on the wire.
    #[verifier::when_used_as_spec(spec_addr)]
    pub fn addr(self) -> (a: u8)
        ensures
            a == self.spec_addr(),
    {
        match self {
            Register::Temp => 0x00,
            Register::Config => 0x01,
            Register::Thyst => 0x02,
            Register::Tos => 0x03,
        }
    }
}

/// The bus addresses on which a sensor may be found, in the order in which
/// discovery tries them.
pub const ADDRESSES: [u8; 2] = [0x49, 0x48];

/// The registers that initialisation sets to zero, in the order in which it
/// writes them.
pub const ZEROED: [Register; 3] = [Register::Config, Register::Thyst, Register::Tos];

/// The bit of Configuration that puts the sensor into power saving mode.
pub const POWER_SAVE: u8 = 0x01;

/// The bit of Configuration that asks a sensor in power saving mode for one
/// new sample.
pub const ONE_SHOT: u8 = 0x80;

} // verus!
