//! Bus transactions, as the driver asks for them and as the wire sees them.

use vstd::prelude::*;
use crate::register::Register;

verus! {

/// A bus transaction as a mathematical value: what is on the wire.
pub enum Wire {
    /// The bytes are written to the device at the address.
    Write { address: u8, bytes: Seq<u8> },
    /// The bytes are written to the device at the address, and then `count`
    /// bytes are read back from it.
    WriteRead { address: u8, bytes: Seq<u8>, count: nat },
}

impl Wire {
    /// A write of no bytes: it succeeds when some device answers on the address.
    pub open spec fn probe(address: u8) -> Wire {
        Wire::Write { address, bytes: Seq::empty() }
    }

    /// The register's selector followed by the value to put in it.
    pub open spec fn store(address: u8, register: Register, value: u8) -> Wire {
        Wire::Write { address, bytes: seq![register.addr(), value] }
    }

    /// The register's selector, after which `count` bytes of the register are
    /// read back.
    pub open spec fn load(address: u8, register: Register, count: nat) -> Wire {
        Wire::WriteRead { address, bytes: seq![register.addr()], count }
    }
}

/// A transaction for the transport to perform.
#[derive(Debug, PartialEq, Eq)]
pub enum Transaction {
    /// Write `bytes` to the device at `address`.
    Write { address: u8, bytes: Vec<u8> },
    /// Write `bytes` to the device at `address`, then read `count` bytes from it.
    WriteRead { address: u8, bytes: Vec<u8>, count: usize },
}

impl View for Transaction {
    type V = Wire;

    open spec fn view(&self) -> Wire {
        match *self {
            Transaction::Write { address, bytes } => Wire::Write { address, bytes: bytes@ },
            Transaction::WriteRead { address, bytes, count } => Wire::WriteRead {
                address,
                bytes: bytes@,
                count: count as nat,
            },
        }
    }
}

impl Transaction {
    /// Asks whether a device answers on `address`.
    pub fn probe(address: u8) -> (t: Transaction)
        ensures
            t@ == Wire::probe(address),
    {
        Transaction::Write { address, bytes: Vec::new() }
    }

    /// Puts `value` into `register` of the device at `address`.
    pub fn store(address: u8, register: Register, value: u8) -> (t: Transaction)
        ensures
            t@ == Wire::store(address, register, value),
    {
        let mut bytes: Vec<u8> = Vec::new();
        bytes.push(register.addr());
        bytes.push(value);
        assert(bytes@ =~= seq![register.addr(), value]);
        Transaction::Write { address, bytes }
    }

    /// Reads `count` bytes of `register` from the device at `address`.
    pub fn load(address: u8, register: Register, count: usize) -> (t: Transaction)
        ensures
            t@ == Wire::load(address, register, count as nat),
    {
        let mut bytes: Vec<u8> = Vec::new();
        bytes.push(register.addr());
        assert(bytes@ =~= seq![register.addr()]);
        Transaction::WriteRead { address, bytes, count }
    }
}

/// What an operation does once the transaction it waited for is over.
#[derive(Debug, PartialEq, Eq)]
pub enum Step<S, R> {
    /// It goes on, in the state that names its next transaction.
    Next(S),
    /// It is over, with this result.
    Finish(R),
}

} // verus!
