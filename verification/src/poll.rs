//! Waiting for a transaction receipt: what to do after each poll of the
//! sequencer.

use vstd::prelude::*;

use crate::client::LezClient;
use crate::error::LezError;
use crate::receipt::{is_terminal, TxReceipt, TxStatus};

verus! {

/// What one poll of the sequencer for a receipt brought back.
#[derive(Debug)]
pub enum PollObservation {
    /// The sequencer answered with the transaction's receipt.
    Receipt(TxReceipt),
    /// The request failed; such failures are taken as transient.
    Unavailable,
}

/// What to do after a poll.
#[derive(Debug)]
pub enum PollStep {
    /// Stop waiting with this result.
    Finished(Result<TxReceipt, LezError>),
    /// Sleep for `after`, then poll again.
    Retry { after: std::time::Duration },
}

/// One poll round settles the wait: the receipt is terminal, or the deadline
/// has passed.
pub open spec fn settles(observation: PollObservation, elapsed: u128, timeout: u128) -> bool {
    (observation matches PollObservation::Receipt(r) && is_terminal(r.status)) || elapsed >= timeout
}

/// The decision after a poll that brought `observation`, `elapsed`
/// nanoseconds after the wait began, for a wait of `timeout` nanoseconds.
/// A terminal receipt ends the wait even at or past the deadline.
pub open spec fn poll_step(
    tx_hash: String,
    observation: PollObservation,
    elapsed: u128,
    timeout: u128,
    interval: std::time::Duration,
) -> PollStep {
    match observation {
        PollObservation::Receipt(r) if is_terminal(r.status) => PollStep::Finished(Ok(r)),
        _ => if elapsed >= timeout {
            PollStep::Finished(Err(LezError::Timeout { tx_hash }))
        } else {
            PollStep::Retry { after: interval }
        },
    }
}

/// The result of the wait once the round `observation` settled it.
pub open spec fn settled_result(tx_hash: String, observation: PollObservation) -> Result<
    TxReceipt,
    LezError,
> {
    match observation {
        PollObservation::Receipt(r) if is_terminal(r.status) => Ok(r),
        _ => Err(LezError::Timeout { tx_hash }),
    }
}

/// The result of a wait whose polls brought `rounds` (each with its elapsed
/// time), taking one decision per round; `None` while it is still waiting.
pub open spec fn poll_run(
    tx_hash: String,
    rounds: Seq<(PollObservation, u128)>,
    timeout: u128,
    interval: std::time::Duration,
) -> Option<Result<TxReceipt, LezError>>
    decreases rounds.len(),
{
    if rounds.len() == 0 {
        None
    } else {
        match poll_step(tx_hash, rounds[0].0, rounds[0].1, timeout, interval) {
            PollStep::Finished(res) => Some(res),
            PollStep::Retry { .. } => poll_run(tx_hash, rounds.drop_first(), timeout, interval),
        }
    }
}

impl LezClient {
    /// Decides one round of waiting for the receipt of `tx_hash`: a receipt
    /// that is included or rejected ends the wait; otherwise, once `elapsed`
    /// reaches `timeout` the wait fails with a timeout, and before that the
    /// caller sleeps for the poll interval and polls again. A failed request
    /// counts as a receipt that is not final yet.
    pub fn wait_for_receipt(
        &self,
        tx_hash: &String,
        observation: PollObservation,
        elapsed: u128,
        timeout: u128,
    ) -> (r: PollStep)
        ensures
            r == poll_step(*tx_hash, observation, elapsed, timeout, self.spec_poll_interval()),
    {
        if let PollObservation::Receipt(receipt) = observation {
            match receipt.status {
                TxStatus::Included | TxStatus::Rejected => {
                    return PollStep::Finished(Ok(receipt));
                },
                TxStatus::Pending | TxStatus::Unknown => {},
            }
        }
        if elapsed >= timeout {
            PollStep::Finished(Err(LezError::Timeout { tx_hash: tx_hash.clone() }))
        } else {
            PollStep::Retry { after: self.poll_interval() }
        }
    }
}

/// The wait ends at the first round that settles it, with that round's
/// result: the first terminal receipt, or a timeout at the first round that
/// finds the deadline passed without one. It never ends with a receipt that is
/// pending or unknown, and while no round settles it, it keeps waiting.
pub proof fn lemma_poll_run_settles(
    tx_hash: String,
    rounds: Seq<(PollObservation, u128)>,
    timeout: u128,
    interval: std::time::Duration,
)
    ensures
        forall|i: int|
            0 <= i < rounds.len() && settles(rounds[i].0, rounds[i].1, timeout) && (forall|j: int|
                0 <= j < i ==> !#[trigger] settles(rounds[j].0, rounds[j].1, timeout)) ==> poll_run(
                tx_hash,
                rounds,
                timeout,
                interval,
            ) == Some(settled_result(tx_hash, rounds[i].0)),
        (forall|j: int| 0 <= j < rounds.len() ==> !#[trigger] settles(rounds[j].0, rounds[j].1, timeout))
            ==> poll_run(tx_hash, rounds, timeout, interval) is None,
        poll_run(tx_hash, rounds, timeout, interval) matches Some(Ok(r)) ==> is_terminal(r.status),
    decreases rounds.len(),
{
    if rounds.len() > 0 {
        lemma_poll_run_settles(tx_hash, rounds.drop_first(), timeout, interval);
        let rest = rounds.drop_first();
        assert forall|i: int|
            0 <= i < rounds.len() && settles(rounds[i].0, rounds[i].1, timeout) && (forall|j: int|
                0 <= j < i ==> !#[trigger] settles(rounds[j].0, rounds[j].1, timeout)) implies poll_run(
                tx_hash,
                rounds,
                timeout,
                interval,
            ) == Some(settled_result(tx_hash, rounds[i].0)) by {
            if i > 0 {
                assert(!settles(rounds[0].0, rounds[0].1, timeout));
                assert(rest[i - 1] == rounds[i]);
                assert forall|j: int| 0 <= j < i - 1 implies !#[trigger] settles(
                    rest[j].0,
                    rest[j].1,
                    timeout,
                ) by {
                    assert(rest[j] == rounds[j + 1]);
                    assert(!settles(rounds[j + 1].0, rounds[j + 1].1, timeout));
                }
            }
        }
        if forall|j: int| 0 <= j < rounds.len() ==> !#[trigger] settles(rounds[j].0, rounds[j].1, timeout) {
            assert(!settles(rounds[0].0, rounds[0].1, timeout));
            assert forall|j: int| 0 <= j < rest.len() implies !#[trigger] settles(
                rest[j].0,
                rest[j].1,
                timeout,
            ) by {
                assert(rest[j] == rounds[j + 1]);
                assert(!settles(rounds[j + 1].0, rounds[j + 1].1, timeout));
            }
        }
    }
}

/// What one round of waiting decides, read from its inputs: an included or
/// rejected receipt is handed back as it came; otherwise the wait times out,
/// naming the transaction, once the elapsed time has reached the timeout, and
/// before that the caller sleeps for exactly the poll interval.
pub proof fn lemma_poll_step_decides(
    tx_hash: String,
    observation: PollObservation,
    elapsed: u128,
    timeout: u128,
    interval: std::time::Duration,
)
    ensures
        observation matches PollObservation::Receipt(r) ==> ((r.status == TxStatus::Included
            || r.status == TxStatus::Rejected) ==> poll_step(
            tx_hash,
            observation,
            elapsed,
            timeout,
            interval,
        ) == PollStep::Finished(Ok(r))),
        !(observation is Receipt && (observation->Receipt_0.status == TxStatus::Included
            || observation->Receipt_0.status == TxStatus::Rejected)) && elapsed >= timeout ==> poll_step(
            tx_hash,
            observation,
            elapsed,
            timeout,
            interval,
        ) == PollStep::Finished(Err(LezError::Timeout { tx_hash })),
        !(observation is Receipt && (observation->Receipt_0.status == TxStatus::Included
            || observation->Receipt_0.status == TxStatus::Rejected)) && elapsed < timeout ==> poll_step(
            tx_hash,
            observation,
            elapsed,
            timeout,
            interval,
        ) == (PollStep::Retry { after: interval }),
{
}

} // verus!
