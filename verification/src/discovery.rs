//! Discovery: which of the candidate addresses a device answers on.

use vstd::prelude::*;
use crate::bus::{Step, Transaction, Wire};
use crate::register::ADDRESSES;
use crate::run::{run, Run};

verus! {

/// The transaction by which discovery tries the candidate at `index`.
pub open spec fn scan_request(index: nat) -> Wire {
    Wire::probe(ADDRESSES[index as int])
}

/// What discovery does when the candidate at `index` has been tried: the first
/// candidate that answers is the result; one that does not answer is followed
/// by the next, and the last by the result that nothing was found. The error
/// of a failed attempt is dropped.
pub open spec fn scan_after<E>(index: nat, reply: Result<(), E>) -> Step<nat, Option<u8>> {
    if reply is Ok {
        Step::Finish(Some(ADDRESSES[index as int]))
    } else if index + 1 < ADDRESSES@.len() {
        Step::Next(index + 1)
    } else {
        Step::Finish(None)
    }
}

/// Discovery from its first candidate, against a bus that answers with `replies`.
pub open spec fn scan_run<E>(replies: Seq<Result<(), E>>) -> Run<Option<u8>> {
    run(
        |index: nat| scan_request(index),
        |index: nat, reply: Result<(), E>| scan_after(index, reply),
        0nat,
        replies,
    )
}

/// Discovery in progress.
#[derive(Debug, PartialEq, Eq)]
pub struct Scan {
    index: usize,
}

impl View for Scan {
    type V = nat;

    /// The place, in the list of candidates, of the one that is being tried.
    closed spec fn view(&self) -> nat {
        self.index as nat
    }
}

impl Scan {
    #[verifier::type_invariant]
    spec fn in_range(&self) -> bool {
        self.index < ADDRESSES@.len()
    }

    /// Discovery at its first candidate.
    pub(crate) fn start() -> (scan: Scan)
        ensures
            scan@ == 0,
    {
        Scan { index: 0 }
    }

    /// The transaction whose outcome discovery is waiting for.
    pub fn request(&self) -> (t: Transaction)
        ensures
            t@ == scan_request(self@),
    {
        proof {
            use_type_invariant(self);
        }
        Transaction::probe(ADDRESSES[self.index])
    }

    /// Takes the outcome of the transaction that was asked for.
    pub fn resume<E>(self, reply: Result<(), E>) -> (step: Step<Scan, Option<u8>>)
        ensures
            match scan_after(self@, reply) {
                Step::Next(index) => step matches Step::Next(next) && next@ == index,
                Step::Finish(found) => step == Step::<Scan, Option<u8>>::Finish(found),
            },
    {
        proof {
            use_type_invariant(&self);
        }
        match reply {
            Ok(_) => Step::Finish(Some(ADDRESSES[self.index])),
            Err(_) => {
                if self.index + 1 < ADDRESSES.len() {
                    Step::Next(Scan { index: self.index + 1 })
                } else {
                    Step::Finish(None)
                }
            },
        }
    }
}

/// Discovery tries the candidates in their order and stops at the first that
/// answers: where the first one answers, nothing else is tried; where only the
/// second answers, both are tried and the second is the result; where neither
/// answers, both are tried and nothing is found, whatever the errors were.
pub proof fn lemma_scan_first_answer<E>(replies: Seq<Result<(), E>>)
    ensures
        ({
            let first = Wire::probe(0x49);
            let second = Wire::probe(0x48);
            let whole = scan_run(replies);
            &&& replies.len() >= 1 && replies[0] is Ok
                ==> whole == (Run { issued: seq![first], result: Some(Some(0x49u8)) })
            &&& replies.len() >= 2 && replies[0] is Err && replies[1] is Ok
                ==> whole == (Run { issued: seq![first, second], result: Some(Some(0x48u8)) })
            &&& replies.len() >= 2 && replies[0] is Err && replies[1] is Err
                ==> whole == (Run { issued: seq![first, second], result: Some(None::<u8>) })
        }),
{
    reveal_with_fuel(run, 3);
    if replies.len() >= 2 {
        assert(replies.drop_first()[0] == replies[1]);
    }
    if replies.len() >= 1 {
        assert(scan_run(replies).issued =~= if replies[0] is Ok {
            seq![Wire::probe(0x49)]
        } else {
            seq![Wire::probe(0x49), Wire::probe(0x48)]
        });
    }
}

} // verus!
