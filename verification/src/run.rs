//! What a whole operation amounts to, given the answers of the bus.

use vstd::prelude::*;
use crate::bus::{Step, Wire};

verus! {

/// An operation as seen from outside: the transactions it issued, in order, and
/// its result, if it has come to one.
pub struct Run<R> {
    pub issued: Seq<Wire>,
    pub result: Option<R>,
}

/// Runs the operation whose states name their transaction by `request` and are
/// resumed by `after`, from `state`, against a bus that answers its transactions
/// with `replies`, one after the other. Nothing is issued once the operation
/// has finished; where the replies run out first, the operation is left waiting
/// for the answer to the last transaction issued.
pub open spec fn run<S, Q, R>(
    request: spec_fn(S) -> Wire,
    after: spec_fn(S, Q) -> Step<S, R>,
    state: S,
    replies: Seq<Q>,
) -> Run<R>
    decreases replies.len(),
{
    if replies.len() == 0 {
        Run { issued: seq![request(state)], result: None }
    } else {
        match after(state, replies[0]) {
            Step::Next(next) => {
                let rest = run(request, after, next, replies.drop_first());
                Run { issued: seq![request(state)] + rest.issued, result: rest.result }
            },
            Step::Finish(result) => Run { issued: seq![request(state)], result: Some(result) },
        }
    }
}

} // verus!
