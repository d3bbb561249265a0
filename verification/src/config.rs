//! Changes to the Configuration register: it is read, one bit of what was read
//! is changed, and the result is written back.

use vstd::prelude::*;
use crate::bus::{Step, Transaction, Wire};
use crate::register::{Register, ONE_SHOT, POWER_SAVE};

verus! {

/// A change to the Configuration register.
#[derive(Clone, Copy, Debug, PartialEq, Eq, Structural)]
pub enum Transform {
    /// Enter power saving mode.
    PowerDown,
    /// Leave power saving mode.
    PowerUp,
    /// Ask for one new sample.
    UpdateOnce,
}

impl Transform {
    /// The bit of the register that the change is about.
    pub open spec fn bit(self) -> u8 {
        match self {
            Transform::PowerDown => POWER_SAVE,
            Transform::PowerUp => POWER_SAVE,
            Transform::UpdateOnce => ONE_SHOT,
        }
    }

    /// The content of the register after the change, where `config` was its
    /// content before.
    pub open spec fn spec_apply(self, config: u8) -> u8 {
        match self {
            Transform::PowerDown => config | POWER_SAVE,
            Transform::PowerUp => config & !POWER_SAVE,
            Transform::UpdateOnce => config | ONE_SHOT,
        }
    }

    /// The content of the register after the change, where `config` was its
    /// content before.
    #[verifier::when_used_as_spec(spec_apply)]
    pub fn apply(self, config: u8) -> (changed: u8)
        ensures
            changed == self.spec_apply(config),
    {
        match self {
            Transform::PowerDown => config | POWER_SAVE,
            Transform::PowerUp => config & !POWER_SAVE,
            Transform::UpdateOnce => config | ONE_SHOT,
        }
    }
}

/// A change to Configuration that waits for the register to be read, as a
/// mathematical value.
pub struct UpdateView {
    /// The bus address of the sensor.
    pub address: u8,
    /// The change to make.
    pub transform: Transform,
}

/// A change to Configuration that waits for the register to be written, as a
/// mathematical value.
pub struct WriteBackView {
    /// The bus address of the sensor.
    pub address: u8,
    /// The new content of the register.
    pub value: u8,
}

/// What a change does when the register has been read: the content that was
/// read is changed and goes back to the register; a failed read ends the change
/// with the error of the bus, and nothing is written.
pub open spec fn update_after<E>(state: UpdateView, reply: Result<[u8; 1], E>) -> Step<
    WriteBackView,
    Result<(), E>,
> {
    match reply {
        Ok(bytes) => Step::Next(
            WriteBackView { address: state.address, value: state.transform.apply(bytes[0]) },
        ),
        Err(e) => Step::Finish(Err(e)),
    }
}

/// A change to Configuration that waits for the register to be read.
#[derive(Debug, PartialEq, Eq)]
pub struct Update {
    addr: u8,
    transform: Transform,
}

impl View for Update {
    type V = UpdateView;

    closed spec fn view(&self) -> UpdateView {
        UpdateView { address: self.addr, transform: self.transform }
    }
}

impl Update {
    /// The change `transform` to Configuration of the sensor at `addr`, at its
    /// beginning.
    pub(crate) fn start(addr: u8, transform: Transform) -> (update: Update)
        ensures
            update@ == (UpdateView { address: addr, transform }),
    {
        Update { addr, transform }
    }

    /// The transaction whose outcome the change is waiting for: one byte is
    /// read from Configuration.
    pub fn request(&self) -> (t: Transaction)
        ensures
            t@ == Wire::load(self@.address, Register::Config, 1),
    {
        Transaction::load(self.addr, Register::Config, 1)
    }

    /// Takes the outcome of the transaction that was asked for: the byte read,
    /// or the error of the bus.
    pub fn resume<E>(self, reply: Result<[u8; 1], E>) -> (step: Step<WriteBack, Result<(), E>>)
        ensures
            match update_after(self@, reply) {
                Step::Next(state) => step matches Step::Next(next) && next@ == state,
                Step::Finish(result) => step == Step::<WriteBack, Result<(), E>>::Finish(result),
            },
    {
        match reply {
            Ok(bytes) => Step::Next(
                WriteBack { addr: self.addr, value: self.transform.apply(bytes[0]) },
            ),
            Err(e) => Step::Finish(Err(e)),
        }
    }
}

/// A change to Configuration that waits for the register to be written.
#[derive(Debug, PartialEq, Eq)]
pub struct WriteBack {
    addr: u8,
    value: u8,
}

impl View for WriteBack {
    type V = WriteBackView;

    closed spec fn view(&self) -> WriteBackView {
        WriteBackView { address: self.addr, value: self.value }
    }
}

impl WriteBack {
    /// The transaction whose outcome the change is waiting for: the new
    /// content is written to Configuration.
    pub fn request(&self) -> (t: Transaction)
        ensures
            t@ == Wire::store(self@.address, Register::Config, self@.value),
    {
        Transaction::store(self.addr, Register::Config, self.value)
    }

    /// Takes the outcome of the transaction that was asked for, which is the
    /// outcome of the change.
    pub fn resume<E>(self, reply: Result<(), E>) -> (result: Result<(), E>)
        ensures
            result == reply,
    {
        reply
    }
}

/// A change touches its own bit and no other: power down sets the power saving
/// bit, power up clears it, and the request for one sample sets the one-shot
/// bit.
pub proof fn lemma_transform_changes_one_bit(transform: Transform, config: u8)
    ensures
        transform.apply(config) & !transform.bit() == config & !transform.bit(),
        transform.apply(config) & transform.bit() == if transform == Transform::PowerUp {
            0u8
        } else {
            transform.bit()
        },
{
    assert((config | 0x01) & !0x01u8 == config & !0x01u8) by (bit_vector);
    assert((config | 0x01) & 0x01u8 == 0x01u8) by (bit_vector);
    assert((config & !0x01u8) & !0x01u8 == config & !0x01u8) by (bit_vector);
    assert((config & !0x01u8) & 0x01u8 == 0u8) by (bit_vector);
    assert((config | 0x80) & !0x80u8 == config & !0x80u8) by (bit_vector);
    assert((config | 0x80) & 0x80u8 == 0x80u8) by (bit_vector);
}

/// The content of Configuration once the change `state` has run to its end on
/// a sensor that answers every transaction and held `config` before.
pub open spec fn config_after(state: UpdateView, config: u8) -> u8 {
    match update_after::<()>(state, Ok([config])) {
        Step::Next(write_back) => write_back.value,
        Step::Finish(_) => config,
    }
}

/// Power down followed by power up leaves bits 1 to 7 of Configuration as they
/// were before the two, whatever the register held, and leaves bit 0 clear.
pub proof fn lemma_power_down_up_restores(address: u8, config: u8)
    ensures
        ({
            let down = UpdateView { address, transform: Transform::PowerDown };
            let up = UpdateView { address, transform: Transform::PowerUp };
            let restored = config_after(up, config_after(down, config));
            &&& restored & 0xFE == config & 0xFE
            &&& restored & 0x01 == 0
        }),
{
    assert(((config | 0x01) & !0x01u8) & 0xFE == config & 0xFE) by (bit_vector);
    assert(((config | 0x01) & !0x01u8) & 0x01 == 0) by (bit_vector);
}

/// The request for one sample leaves bit 0 of Configuration as it was, whatever
/// it was, and sets bit 7.
pub proof fn lemma_update_once_keeps_power_mode(address: u8, config: u8)
    ensures
        ({
            let once = UpdateView { address, transform: Transform::UpdateOnce };
            &&& config_after(once, config) & 0x01 == config & 0x01
            &&& config_after(once, config) & 0x80 == 0x80
        }),
{
    assert((config | 0x80) & 0x01 == config & 0x01) by (bit_vector);
    assert((config | 0x80) & 0x80 == 0x80) by (bit_vector);
}

} // verus!
