//! Reading the temperature.

use vstd::prelude::*;
use crate::bus::{Transaction, Wire};
use crate::register::Register;

verus! {

/// The sample that the two bytes of the Temperature register stand for: the
/// bytes, most significant first, are a 16-bit number in two's complement. One
/// unit of it is 1/256 of a degree Celsius.
pub open spec fn sample(high: u8, low: u8) -> int {
    let unsigned = high as int * 256 + low as int;
    if unsigned < 0x8000 {
        unsigned
    } else {
        unsigned - 0x1_0000
    }
}

/// A reading of the temperature that waits for the register to be read.
#[derive(Debug, PartialEq, Eq)]
pub struct Reading {
    addr: u8,
}

impl View for Reading {
    type V = u8;

    /// The bus address of the sensor.
    closed spec fn view(&self) -> u8 {
        self.addr
    }
}

impl Reading {
    /// A reading from the sensor at `addr`, at its beginning.
    pub(crate) fn start(addr: u8) -> (reading: Reading)
        ensures
            reading@ == addr,
    {
        Reading { addr }
    }

    /// The transaction whose outcome the reading is waiting for: two bytes are
    /// read from Temperature.
    pub fn request(&self) -> (t: Transaction)
        ensures
            t@ == Wire::load(self@, Register::Temp, 2),
    {
        Transaction::load(self.addr, Register::Temp, 2)
    }

    /// Takes the outcome of the transaction that was asked for: the two bytes
    /// read, or the error of the bus. The result is the temperature in units of
    /// 1/256 of a degree Celsius.
    pub fn resume<E>(self, reply: Result<[u8; 2], E>) -> (result: Result<i16, E>)
        ensures
            match reply {
                Ok(bytes) => result matches Ok(raw) && raw == sample(bytes[0], bytes[1]),
                Err(e) => result matches Err(error) && error == e,
            },
    {
        match reply {
            Ok(bytes) => {
                let high: u8 = bytes[0];
                let low: u8 = bytes[1];
                let unsigned: u16 = ((high as u16) << 8) | (low as u16);
                let raw: i16 = #[verifier::truncate] (unsigned as i16);
                assert(unsigned == high * 256 + low) by (bit_vector)
                    requires
                        unsigned == ((high as u16) << 8) | (low as u16),
                ;
                assert(raw == if unsigned < 0x8000 {
                    unsigned as int
                } else {
                    unsigned - 0x1_0000
                }) by (bit_vector)
                    requires
                        raw == unsigned as i16,
                ;
                Ok(raw)
            },
            Err(e) => Err(e),
        }
    }
}

/// Every 16-bit number in two's complement is the sample that its own two
/// bytes stand for.
pub proof fn lemma_sample_of_its_bytes(value: i16)
    ensures
        sample((value as u16 >> 8) as u8, (value as u16 & 0xFF) as u8) == value,
{
    let unsigned = value as u16;
    let high = (unsigned >> 8) as u8;
    let low = (unsigned & 0xFF) as u8;
    assert(high * 256 + low == unsigned) by (bit_vector)
        requires
            high == (unsigned >> 8) as u8,
            low == (unsigned & 0xFF) as u8,
    ;
    assert(value == if unsigned < 0x8000 {
        unsigned as int
    } else {
        unsigned - 0x1_0000
    }) by (bit_vector)
        requires
            unsigned == value as u16,
    ;
}

} // verus!
