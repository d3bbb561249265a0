//! Initialisation: the registers that are cleared before the sensor is used.

use vstd::prelude::*;
use crate::bus::{Step, Transaction, Wire};
use crate::driver::MAX30205;
use crate::register::{Register, ZEROED};
use crate::run::{run, Run};

verus! {

/// Initialisation in progress, as a mathematical value.
pub struct InitView {
    /// The bus address of the sensor.
    pub address: u8,
    /// The place, in the list of registers to clear, of the one being written.
    pub index: nat,
}

/// The transaction by which initialisation clears the register it has come to.
pub open spec fn init_request(state: InitView) -> Wire {
    Wire::store(state.address, ZEROED[state.index as int], 0)
}

/// What initialisation does when the write it asked for is over: a failed write
/// ends it with the error of the bus, and nothing more is written; a write
/// that succeeded is followed by the next, and the last by the address of the
/// sensor.
pub open spec fn init_after<E>(state: InitView, reply: Result<(), E>) -> Step<
    InitView,
    Result<u8, E>,
> {
    match reply {
        Err(e) => Step::Finish(Err(e)),
        Ok(_) => if state.index + 1 < ZEROED@.len() {
            Step::Next(InitView { address: state.address, index: state.index + 1 })
        } else {
            Step::Finish(Ok(state.address))
        },
    }
}

/// Initialisation of the sensor at `address`, against a bus that answers with
/// `replies`.
pub open spec fn init_run<E>(address: u8, replies: Seq<Result<(), E>>) -> Run<Result<u8, E>> {
    run(
        |state: InitView| init_request(state),
        |state: InitView, reply: Result<(), E>| init_after(state, reply),
        InitView { address, index: 0 },
        replies,
    )
}

/// Initialisation in progress.
#[derive(Debug, PartialEq, Eq)]
pub struct Init {
    addr: u8,
    index: usize,
}

impl View for Init {
    type V = InitView;

    closed spec fn view(&self) -> InitView {
        InitView { address: self.addr, index: self.index as nat }
    }
}

impl Init {
    #[verifier::type_invariant]
    spec fn in_range(&self) -> bool {
        self.index < ZEROED@.len()
    }

    /// Initialisation of the sensor at `addr`, at its first write.
    pub(crate) fn start(addr: u8) -> (init: Init)
        ensures
            init@ == (InitView { address: addr, index: 0 }),
    {
        Init { addr, index: 0 }
    }

    /// The transaction whose outcome initialisation is waiting for.
    pub fn request(&self) -> (t: Transaction)
        ensures
            t@ == init_request(self@),
    {
        proof {
            use_type_invariant(self);
        }
        Transaction::store(self.addr, ZEROED[self.index], 0x00)
    }

    /// Takes the outcome of the transaction that was asked for.
    pub fn resume<E>(self, reply: Result<(), E>) -> (step: Step<Init, Result<MAX30205, E>>)
        ensures
            match init_after(self@, reply) {
                Step::Next(state) => step matches Step::Next(next) && next@ == state,
                Step::Finish(Ok(address)) => step matches Step::Finish(Ok(sensor))
                    && sensor@ == address,
                Step::Finish(Err(e)) => step matches Step::Finish(Err(error)) && error == e,
            },
    {
        proof {
            use_type_invariant(&self);
        }
        match reply {
            Err(e) => Step::Finish(Err(e)),
            Ok(_) => {
                if self.index + 1 < ZEROED.len() {
                    Step::Next(Init { addr: self.addr, index: self.index + 1 })
                } else {
                    Step::Finish(Ok(MAX30205::at(self.addr)))
                }
            },
        }
    }
}

/// Initialisation writes zero to Configuration, to the hysteresis threshold and
/// to the overtemperature threshold, in that order and each once. A write is
/// issued only when all writes before it have succeeded: the first failure ends
/// the initialisation with the error of the bus, and where all three succeed
/// its result is the sensor at the address given.
pub proof fn lemma_init_writes<E>(address: u8, replies: Seq<Result<(), E>>)
    ensures
        ({
            let config = Wire::store(address, Register::Config, 0);
            let thyst = Wire::store(address, Register::Thyst, 0);
            let tos = Wire::store(address, Register::Tos, 0);
            let whole = init_run(address, replies);
            let failed = |at: int| Some(Err::<u8, E>(replies[at]->Err_0));
            &&& replies.len() >= 1 && replies[0] is Err
                ==> whole == (Run { issued: seq![config], result: failed(0) })
            &&& replies.len() >= 2 && replies[0] is Ok && replies[1] is Err
                ==> whole == (Run { issued: seq![config, thyst], result: failed(1) })
            &&& replies.len() >= 3 && replies[0] is Ok && replies[1] is Ok && replies[2] is Err
                ==> whole == (Run { issued: seq![config, thyst, tos], result: failed(2) })
            &&& replies.len() >= 3 && replies[0] is Ok && replies[1] is Ok && replies[2] is Ok
                ==> whole == (Run {
                    issued: seq![config, thyst, tos],
                    result: Some(Ok::<u8, E>(address)),
                })
        }),
{
    reveal_with_fuel(run, 4);
    let config = Wire::store(address, Register::Config, 0);
    let thyst = Wire::store(address, Register::Thyst, 0);
    let tos = Wire::store(address, Register::Tos, 0);
    if replies.len() >= 2 {
        assert(replies.drop_first()[0] == replies[1]);
    }
    if replies.len() >= 3 {
        assert(replies.drop_first().drop_first()[0] == replies[2]);
    }
    if replies.len() >= 1 {
        assert(init_run(address, replies).issued =~= if replies[0] is Err {
            seq![config]
        } else if replies.len() >= 2 && replies[1] is Err {
            seq![config, thyst]
        } else if replies.len() >= 2 {
            seq![config, thyst, tos]
        } else {
            seq![config, thyst]
        });
    }
}

} // verus!
