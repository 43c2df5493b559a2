//! The lock, claim and refund operations of the HTLC escrow, as a protocol
//! that the caller drives: the library says which network action comes next,
//! the caller performs it and hands back what came of it.
//!
//! Each operation submits one HTLC instruction, waits for the transaction's
//! receipt, and succeeds only if the transaction was included and emitted the
//! HTLC event that the operation promises. A lock then funds the escrow with a
//! transfer before it reports success.

use vstd::prelude::*;

use crate::client::{confirm_receipt, confirmation, LezClient};
use crate::error::{HtlcEventKind, LezError};
use crate::receipt::{
    has_claimed, has_locked, has_refunded, lemma_picked_events_match_receipt, program_htlc_events,
    same_bytes32, HtlcEvent, TxReceipt, TxStatus,
};

verus! {

/// How long, in seconds, an operation waits for its transaction's receipt.
pub const CONFIRM_TIMEOUT_SECS: u64 = 60;

/// Milliseconds per second: instructions carry timelocks in milliseconds.
pub const MILLIS_PER_SEC: u64 = 1000;

/// An instruction of the HTLC program.
#[derive(Debug, Clone)]
pub enum HtlcInstruction {
    /// Claim the escrow account and record the swap's terms; `timelock` is in
    /// milliseconds.
    Lock { hashlock: [u8; 32], taker_id: [u8; 32], amount: u128, timelock: u64 },
    /// Release the escrow to the taker by revealing the preimage.
    Claim { preimage: Vec<u8> },
    /// Return the escrow to the maker after the timelock.
    Refund,
}

/// The operation a flow carries out, with what it checks the receipt for.
#[derive(Debug, Clone, Copy)]
pub enum HtlcOp {
    Lock { hashlock: [u8; 32], amount: u128 },
    Claim { preimage: [u8; 32] },
    Refund { hashlock: [u8; 32] },
}

/// Where a flow stands.
#[derive(Debug, Clone)]
pub enum FlowStage {
    /// The instruction is being submitted.
    Submitting,
    /// Waiting for the receipt of the submitted transaction.
    Confirming { tx_hash: String },
    /// The lock was confirmed; the escrow is being funded.
    Funding { lock_hash: String },
    /// The flow has reported its result.
    Finished,
}

/// A lock, claim or refund in progress.
#[derive(Debug, Clone)]
pub struct HtlcFlow {
    pub op: HtlcOp,
    /// The escrow account of the hashlock.
    pub escrow: [u8; 32],
    /// The HTLC program whose events the receipt must carry.
    pub program_id: [u32; 8],
    pub stage: FlowStage,
}

/// What the caller does next.
#[derive(Debug)]
pub enum FlowAction {
    /// Sign and submit `instruction` to the HTLC program over `accounts`; hand
    /// the transaction hash, or the failure, to `on_submitted`.
    Submit { accounts: Vec<[u8; 32]>, instruction: HtlcInstruction },
    /// Wait up to `timeout_secs` for the receipt of `tx_hash`; hand it, or the
    /// failure, to `on_receipt`.
    AwaitReceipt { tx_hash: String, timeout_secs: u64 },
    /// Transfer `amount` to `recipient`; hand the transfer's hash, or the
    /// failure, to `on_funded`.
    Fund { recipient: [u8; 32], amount: u128 },
    /// The operation is over, with this result.
    Done(Result<String, LezError>),
}

/// The HTLC event whose presence confirms `op`.
pub open spec fn expected_event(op: HtlcOp) -> HtlcEventKind {
    match op {
        HtlcOp::Lock { .. } => HtlcEventKind::Locked,
        HtlcOp::Claim { .. } => HtlcEventKind::Claimed,
        HtlcOp::Refund { .. } => HtlcEventKind::Refunded,
    }
}

/// The events confirm `op`: a lock or refund needs the event for its
/// hashlock, a claim the event that reveals its preimage.
pub open spec fn op_confirmed(op: HtlcOp, events: Seq<HtlcEvent>) -> bool {
    match op {
        HtlcOp::Lock { hashlock, .. } => has_locked(events, hashlock),
        HtlcOp::Claim { preimage } => has_claimed(events, preimage),
        HtlcOp::Refund { hashlock } => has_refunded(events, hashlock),
    }
}

/// The flow's next stage and action once the submission came back as `sent`.
pub open spec fn submitted_next(flow: HtlcFlow, sent: Result<String, LezError>) -> (HtlcFlow, FlowAction) {
    match sent {
        Ok(tx_hash) => (
            HtlcFlow { stage: FlowStage::Confirming { tx_hash }, ..flow },
            FlowAction::AwaitReceipt { tx_hash, timeout_secs: CONFIRM_TIMEOUT_SECS },
        ),
        Err(e) => (HtlcFlow { stage: FlowStage::Finished, ..flow }, FlowAction::Done(Err(e))),
    }
}

/// The flow's next stage and action once the wait for the receipt of
/// `tx_hash` came back as `receipt`.
pub open spec fn receipt_next(
    flow: HtlcFlow,
    tx_hash: String,
    receipt: Result<TxReceipt, LezError>,
) -> (HtlcFlow, FlowAction) {
    let finished = HtlcFlow { stage: FlowStage::Finished, ..flow };
    match receipt {
        Err(e) => (finished, FlowAction::Done(Err(e))),
        Ok(r) => match confirmation(flow.program_id, tx_hash, r) {
            Err(e) => (finished, FlowAction::Done(Err(e))),
            Ok(events) => if !op_confirmed(flow.op, events) {
                (
                    finished,
                    FlowAction::Done(
                        Err(LezError::MissingHtlcEvent { tx_hash, expected: expected_event(flow.op) }),
                    ),
                )
            } else {
                match flow.op {
                    HtlcOp::Lock { amount, .. } => (
                        HtlcFlow { stage: FlowStage::Funding { lock_hash: tx_hash }, ..flow },
                        FlowAction::Fund { recipient: flow.escrow, amount },
                    ),
                    _ => (finished, FlowAction::Done(Ok(tx_hash))),
                }
            },
        },
    }
}

/// The flow's next stage and action once the funding transfer of the lock
/// `lock_hash` came back as `funded`. A lock reports its own transaction's
/// hash, not the transfer's.
pub open spec fn funded_next(flow: HtlcFlow, lock_hash: String, funded: Result<String, LezError>) -> (
    HtlcFlow,
    FlowAction,
) {
    let finished = HtlcFlow { stage: FlowStage::Finished, ..flow };
    match funded {
        Ok(_) => (finished, FlowAction::Done(Ok(lock_hash))),
        Err(e) => (finished, FlowAction::Done(Err(e))),
    }
}

/// Checks whether the events confirm `op`.
fn events_confirm(op: &HtlcOp, events: &Vec<HtlcEvent>) -> (r: bool)
    ensures
        r == op_confirmed(*op, events@),
{
    let mut i: usize = 0;
    while i < events.len()
        invariant
            0 <= i <= events@.len(),
            !exists|j: int| 0 <= j < i && #[trigger] event_confirms(*op, events@[j]),
        decreases events@.len() - i,
    {
        let hit = match (op, &events[i]) {
            (HtlcOp::Lock { hashlock, .. }, HtlcEvent::Locked { hashlock: h }) => same_bytes32(h, hashlock),
            (HtlcOp::Claim { preimage }, HtlcEvent::Claimed { preimage: p }) => same_bytes32(p, preimage),
            (HtlcOp::Refund { hashlock }, HtlcEvent::Refunded { hashlock: h }) => same_bytes32(h, hashlock),
            _ => false,
        };
        if hit {
            proof {
                lemma_event_confirms(*op, events@, i as int);
            }
            return true;
        }
        i = i + 1;
    }
    proof {
        lemma_no_event_confirms(*op, events@);
    }
    false
}

/// The single event `ev` confirms `op`.
pub open spec fn event_confirms(op: HtlcOp, ev: HtlcEvent) -> bool {
    match (op, ev) {
        (HtlcOp::Lock { hashlock, .. }, HtlcEvent::Locked { hashlock: h }) => h@ == hashlock@,
        (HtlcOp::Claim { preimage }, HtlcEvent::Claimed { preimage: p }) => p@ == preimage@,
        (HtlcOp::Refund { hashlock }, HtlcEvent::Refunded { hashlock: h }) => h@ == hashlock@,
        _ => false,
    }
}

proof fn lemma_event_confirms(op: HtlcOp, events: Seq<HtlcEvent>, i: int)
    requires
        0 <= i < events.len(),
        event_confirms(op, events[i]),
    ensures
        op_confirmed(op, events),
{
}

proof fn lemma_no_event_confirms(op: HtlcOp, events: Seq<HtlcEvent>)
    requires
        !exists|j: int| 0 <= j < events.len() && #[trigger] event_confirms(op, events[j]),
    ensures
        !op_confirmed(op, events),
{
    match op {
        HtlcOp::Lock { hashlock, .. } => {
            if has_locked(events, hashlock) {
                let i = choose|i: int|
                    0 <= i < events.len() && (#[trigger] events[i] matches HtlcEvent::Locked {
                        hashlock: h,
                    } && h@ == hashlock@);
                assert(event_confirms(op, events[i]));
            }
        },
        HtlcOp::Claim { preimage } => {
            if has_claimed(events, preimage) {
                let i = choose|i: int|
                    0 <= i < events.len() && (#[trigger] events[i] matches HtlcEvent::Claimed {
                        preimage: p,
                    } && p@ == preimage@);
                assert(event_confirms(op, events[i]));
            }
        },
        HtlcOp::Refund { hashlock } => {
            if has_refunded(events, hashlock) {
                let i = choose|i: int|
                    0 <= i < events.len() && (#[trigger] events[i] matches HtlcEvent::Refunded {
                        hashlock: h,
                    } && h@ == hashlock@);
                assert(event_confirms(op, events[i]));
            }
        },
    }
}

impl LezClient {
    /// Starts locking `amount` for `taker_id` in `escrow`, the escrow account
    /// of `hashlock`, refundable after `timelock_secs` seconds. The first
    /// action submits the `Lock` instruction over this client's account and
    /// the escrow, with the timelock in milliseconds.
    pub fn lock(
        &self,
        hashlock: [u8; 32],
        taker_id: [u8; 32],
        amount: u128,
        timelock_secs: u64,
        escrow: [u8; 32],
    ) -> (r: (HtlcFlow, FlowAction))
        requires
            timelock_secs * MILLIS_PER_SEC <= u64::MAX,
        ensures
            r.0 == (HtlcFlow {
                op: HtlcOp::Lock { hashlock, amount },
                escrow,
                program_id: self.spec_program_id(),
                stage: FlowStage::Submitting,
            }),
            r.1 matches FlowAction::Submit { accounts, instruction } && accounts@ == seq![
                self.spec_account_id(),
                escrow,
            ] && instruction == (HtlcInstruction::Lock {
                hashlock,
                taker_id,
                amount,
                timelock: (timelock_secs * MILLIS_PER_SEC) as u64,
            }),
    {
        let flow = HtlcFlow {
            op: HtlcOp::Lock { hashlock, amount },
            escrow,
            program_id: self.program_id(),
            stage: FlowStage::Submitting,
        };
        let instruction = HtlcInstruction::Lock {
            hashlock,
            taker_id,
            amount,
            timelock: timelock_secs * MILLIS_PER_SEC,
        };
        (flow, FlowAction::Submit { accounts: vec![self.account_id(), escrow], instruction })
    }

    /// Starts claiming the escrow account `escrow` by revealing `preimage`.
    /// The first action submits the `Claim` instruction, which carries the
    /// preimage's bytes, over this client's account and the escrow.
    pub fn claim(&self, preimage: &[u8; 32], escrow: [u8; 32]) -> (r: (HtlcFlow, FlowAction))
        ensures
            r.0 == (HtlcFlow {
                op: HtlcOp::Claim { preimage: *preimage },
                escrow,
                program_id: self.spec_program_id(),
                stage: FlowStage::Submitting,
            }),
            r.1 matches FlowAction::Submit { accounts, instruction } && accounts@ == seq![
                self.spec_account_id(),
                escrow,
            ] && (instruction matches HtlcInstruction::Claim { preimage: bytes } && bytes@
                == preimage@),
    {
        let flow = HtlcFlow {
            op: HtlcOp::Claim { preimage: *preimage },
            escrow,
            program_id: self.program_id(),
            stage: FlowStage::Submitting,
        };
        let mut bytes: Vec<u8> = Vec::new();
        let mut i: usize = 0;
        while i < 32
            invariant
                0 <= i <= 32,
                bytes@ == preimage@.take(i as int),
            decreases 32 - i,
        {
            bytes.push(preimage[i]);
            i = i + 1;
            assert(bytes@ =~= preimage@.take(i as int));
        }
        assert(preimage@.take(32) =~= preimage@);
        let instruction = HtlcInstruction::Claim { preimage: bytes };
        (flow, FlowAction::Submit { accounts: vec![self.account_id(), escrow], instruction })
    }

    /// Starts refunding `escrow`, the escrow account of `hashlock`, to this
    /// client. The first action submits the `Refund` instruction over this
    /// client's account and the escrow.
    pub fn refund(&self, hashlock: &[u8; 32], escrow: [u8; 32]) -> (r: (HtlcFlow, FlowAction))
        ensures
            r.0 == (HtlcFlow {
                op: HtlcOp::Refund { hashlock: *hashlock },
                escrow,
                program_id: self.spec_program_id(),
                stage: FlowStage::Submitting,
            }),
            r.1 matches FlowAction::Submit { accounts, instruction } && accounts@ == seq![
                self.spec_account_id(),
                escrow,
            ] && instruction is Refund,
    {
        let flow = HtlcFlow {
            op: HtlcOp::Refund { hashlock: *hashlock },
            escrow,
            program_id: self.program_id(),
            stage: FlowStage::Submitting,
        };
        (flow, FlowAction::Submit { accounts: vec![self.account_id(), escrow], instruction: HtlcInstruction::Refund })
    }
}

impl HtlcFlow {
    /// Takes the outcome of submitting the instruction: a transaction hash
    /// leads to waiting for its receipt, a failure ends the operation with it.
    pub fn on_submitted(self, sent: Result<String, LezError>) -> (r: (HtlcFlow, FlowAction))
        requires
            self.stage is Submitting,
        ensures
            r == submitted_next(self, sent),
            r.0.op == self.op && r.0.escrow == self.escrow && r.0.program_id == self.program_id,
            sent matches Ok(h) ==> r.0.stage == (FlowStage::Confirming { tx_hash: h }),
    {
        let HtlcFlow { op, escrow, program_id, stage: _ } = self;
        match sent {
            Ok(tx_hash) => {
                let awaited = tx_hash.clone();
                (
                    HtlcFlow { op, escrow, program_id, stage: FlowStage::Confirming { tx_hash } },
                    FlowAction::AwaitReceipt { tx_hash: awaited, timeout_secs: CONFIRM_TIMEOUT_SECS },
                )
            },
            Err(e) => (
                HtlcFlow { op, escrow, program_id, stage: FlowStage::Finished },
                FlowAction::Done(Err(e)),
            ),
        }
    }

    /// Takes the outcome of waiting for the receipt. A failed wait, a
    /// rejected transaction or a receipt that is not final ends the operation
    /// with an error, and so does an included transaction without the event
    /// that confirms the operation. A
    /// confirmed lock goes on to fund the escrow; a confirmed claim or refund
    /// ends with its transaction hash.
    pub fn on_receipt(self, receipt: Result<TxReceipt, LezError>) -> (r: (HtlcFlow, FlowAction))
        requires
            self.stage is Confirming,
        ensures
            r == receipt_next(self, self.stage->tx_hash, receipt),
    {
        let ghost before = self;
        let HtlcFlow { op, escrow, program_id, stage } = self;
        let tx_hash = match stage {
            FlowStage::Confirming { tx_hash } => tx_hash,
            _ => {
                assert(false);
                String::new()
            },
        };
        let finished = HtlcFlow { op, escrow, program_id, stage: FlowStage::Finished };
        let receipt = match receipt {
            Err(e) => {
                return (finished, FlowAction::Done(Err(e)));
            },
            Ok(r) => r,
        };
        let events = match confirm_receipt(&program_id, &tx_hash, receipt) {
            Err(e) => {
                return (finished, FlowAction::Done(Err(e)));
            },
            Ok(events) => events,
        };
        if !events_confirm(&op, &events) {
            let expected = match op {
                HtlcOp::Lock { .. } => HtlcEventKind::Locked,
                HtlcOp::Claim { .. } => HtlcEventKind::Claimed,
                HtlcOp::Refund { .. } => HtlcEventKind::Refunded,
            };
            return (finished, FlowAction::Done(Err(LezError::MissingHtlcEvent { tx_hash, expected })));
        }
        match op {
            HtlcOp::Lock { amount, .. } => (
                HtlcFlow { op, escrow, program_id, stage: FlowStage::Funding { lock_hash: tx_hash } },
                FlowAction::Fund { recipient: escrow, amount },
            ),
            _ => (finished, FlowAction::Done(Ok(tx_hash))),
        }
    }

    /// Takes the outcome of funding the escrow: the lock ends with its own
    /// transaction hash once the transfer was submitted, or with the
    /// transfer's failure.
    pub fn on_funded(self, funded: Result<String, LezError>) -> (r: (HtlcFlow, FlowAction))
        requires
            self.stage is Funding,
        ensures
            r == funded_next(self, self.stage->lock_hash, funded),
    {
        let HtlcFlow { op, escrow, program_id, stage } = self;
        let lock_hash = match stage {
            FlowStage::Funding { lock_hash } => lock_hash,
            _ => {
                assert(false);
                String::new()
            },
        };
        let finished = HtlcFlow { op, escrow, program_id, stage: FlowStage::Finished };
        match funded {
            Ok(_) => (finished, FlowAction::Done(Ok(lock_hash))),
            Err(e) => (finished, FlowAction::Done(Err(e))),
        }
    }
}

/// What a lock, claim or refund returns, from what each network step
/// brought: the submission `sent`, the wait for the receipt `receipt`, and
/// (for a lock only) the funding transfer `funded`. The first failure is the
/// result; a rejected transaction, a receipt that is not final, or an included
/// transaction without the event that confirms the operation, is an error;
/// success is the hash of the submitted instruction.
pub open spec fn operation_outcome(
    op: HtlcOp,
    program_id: [u32; 8],
    sent: Result<String, LezError>,
    receipt: Result<TxReceipt, LezError>,
    funded: Result<String, LezError>,
) -> Result<String, LezError> {
    match sent {
        Err(e) => Err(e),
        Ok(tx_hash) => match receipt {
            Err(e) => Err(e),
            Ok(r) => if r.status is Rejected {
                Err(LezError::TxRejected { tx_hash, error: r.error })
            } else if !(r.status is Included) {
                Err(LezError::ReceiptNotFinal { tx_hash })
            } else if !op_confirmed(op, program_htlc_events(r.events@, program_id)) {
                Err(LezError::MissingHtlcEvent { tx_hash, expected: expected_event(op) })
            } else if op is Lock {
                match funded {
                    Ok(_) => Ok(tx_hash),
                    Err(e) => Err(e),
                }
            } else {
                Ok(tx_hash)
            },
        },
    }
}

/// The last action of a flow driven from `flow` with the outcomes `sent`,
/// `receipt` and `funded` of the actions it asks for, each handed to the step
/// that awaits it, until an action ends the flow.
pub open spec fn drive(
    flow: HtlcFlow,
    sent: Result<String, LezError>,
    receipt: Result<TxReceipt, LezError>,
    funded: Result<String, LezError>,
) -> FlowAction {
    let (f1, a1) = submitted_next(flow, sent);
    if a1 is Done {
        a1
    } else {
        let (f2, a2) = receipt_next(f1, f1.stage->tx_hash, receipt);
        if a2 is Done {
            a2
        } else {
            funded_next(f2, f2.stage->lock_hash, funded).1
        }
    }
}

/// Driving a lock, claim or refund from its start ends with the result that
/// `operation_outcome` describes. Each stage the flow enters awaits the very
/// action it asked for: the receipt of the submitted hash, within the
/// confirmation timeout, and then, for a lock only, the funding of the escrow
/// with the locked amount.
pub proof fn lemma_flow_outcome(
    flow: HtlcFlow,
    sent: Result<String, LezError>,
    receipt: Result<TxReceipt, LezError>,
    funded: Result<String, LezError>,
)
    requires
        flow.stage is Submitting,
    ensures
        drive(flow, sent, receipt, funded) == FlowAction::Done(
            operation_outcome(flow.op, flow.program_id, sent, receipt, funded),
        ),
        sent matches Ok(h) ==> submitted_next(flow, sent).0.stage == (FlowStage::Confirming {
            tx_hash: h,
        }) && submitted_next(flow, sent).1 == (FlowAction::AwaitReceipt {
            tx_hash: h,
            timeout_secs: CONFIRM_TIMEOUT_SECS,
        }),
        sent matches Ok(h) ==> (receipt_next(submitted_next(flow, sent).0, h, receipt).1 is Fund
            ==> receipt_next(submitted_next(flow, sent).0, h, receipt).0.stage == (
        FlowStage::Funding { lock_hash: h })),
{
}

/// A lock, claim or refund succeeds exactly when its instruction was
/// submitted, its transaction was included rather than rejected and emitted
/// the HTLC event that confirms the operation, and, for a lock, the escrow's
/// funding transfer was submitted. The hash it reports is that of the
/// submitted instruction.
pub proof fn lemma_success_needs_confirmation(
    op: HtlcOp,
    program_id: [u32; 8],
    sent: Result<String, LezError>,
    receipt: Result<TxReceipt, LezError>,
    funded: Result<String, LezError>,
    tx_hash: String,
)
    ensures
        operation_outcome(op, program_id, sent, receipt, funded) == Ok::<String, LezError>(tx_hash)
            <==> {
            &&& sent == Ok::<String, LezError>(tx_hash)
            &&& receipt is Ok
            &&& receipt->Ok_0.status is Included
            &&& op_confirmed(op, program_htlc_events(receipt->Ok_0.events@, program_id))
            &&& (op is Lock ==> funded is Ok)
        },
{
}

/// A flow asks to move funds only for a lock, only once its transaction was
/// included with the `Locked` event for its hashlock, and then only the
/// locked amount, to the escrow account.
pub proof fn lemma_funds_only_confirmed_locks(
    flow: HtlcFlow,
    tx_hash: String,
    receipt: Result<TxReceipt, LezError>,
)
    ensures
        receipt_next(flow, tx_hash, receipt).1 is Fund <==> {
            &&& flow.op is Lock
            &&& receipt is Ok
            &&& receipt->Ok_0.status is Included
            &&& has_locked(
                program_htlc_events(receipt->Ok_0.events@, flow.program_id),
                flow.op->Lock_hashlock,
            )
        },
        receipt_next(flow, tx_hash, receipt).1 matches FlowAction::Fund { recipient, amount }
            ==> recipient == flow.escrow && amount == flow.op->Lock_amount,
{
}

/// Once a flow has started, none of its steps asks to submit a transaction
/// again: the only instruction a lock, claim or refund submits is the one its
/// start asked for, whose first account is the client's own account.
pub proof fn lemma_steps_never_resubmit(
    flow: HtlcFlow,
    tx_hash: String,
    sent: Result<String, LezError>,
    receipt: Result<TxReceipt, LezError>,
    funded: Result<String, LezError>,
)
    ensures
        !(submitted_next(flow, sent).1 is Submit),
        !(receipt_next(flow, tx_hash, receipt).1 is Submit),
        !(funded_next(flow, tx_hash, funded).1 is Submit),
{
}

/// The receipt of a claim-style operation, read directly: the HTLC program
/// emitted, in one of the receipt's events, an HTLC event that `pred` accepts.
/// The flows confirm an operation exactly when this holds for the event the
/// operation promises.
proof fn lemma_confirmed_iff_program_emitted(
    op: HtlcOp,
    program_id: [u32; 8],
    events: Seq<crate::receipt::ReceiptEvent>,
    pred: spec_fn(HtlcEvent) -> bool,
)
    requires
        forall|ev: HtlcEvent| #[trigger] pred(ev) <==> event_confirms(op, ev),
    ensures
        op_confirmed(op, program_htlc_events(events, program_id)) <==> exists|i: int|
            0 <= i < events.len() && (#[trigger] events[i]).program_id@ == program_id@
                && events[i].htlc_event is Some && pred(events[i].htlc_event->Some_0),
{
    let picked = program_htlc_events(events, program_id);
    lemma_picked_events_match_receipt(events, program_id, pred);
    if op_confirmed(op, picked) {
        match op {
            HtlcOp::Lock { hashlock, .. } => {
                let j = choose|j: int|
                    0 <= j < picked.len() && (#[trigger] picked[j] matches HtlcEvent::Locked {
                        hashlock: h,
                    } && h@ == hashlock@);
                assert(pred(picked[j]));
            },
            HtlcOp::Claim { preimage } => {
                let j = choose|j: int|
                    0 <= j < picked.len() && (#[trigger] picked[j] matches HtlcEvent::Claimed {
                        preimage: p,
                    } && p@ == preimage@);
                assert(pred(picked[j]));
            },
            HtlcOp::Refund { hashlock } => {
                let j = choose|j: int|
                    0 <= j < picked.len() && (#[trigger] picked[j] matches HtlcEvent::Refunded {
                        hashlock: h,
                    } && h@ == hashlock@);
                assert(pred(picked[j]));
            },
        }
    }
    if exists|j: int| 0 <= j < picked.len() && #[trigger] pred(picked[j]) {
        let j = choose|j: int| 0 <= j < picked.len() && #[trigger] pred(picked[j]);
        assert(event_confirms(op, picked[j]));
        lemma_event_confirms(op, picked, j);
    }
}

/// A lock whose transaction is included keeps the escrow, amount and program
/// it was started with, and its receipt decides it directly: if the HTLC
/// program emitted a `Locked` event for the lock's hashlock, the lock goes on
/// to transfer exactly the locked amount to the escrow it was started for;
/// otherwise it ends reporting the missing `Locked` event.
pub proof fn lemma_confirmed_lock_funds_its_escrow(flow: HtlcFlow, tx_hash: String, receipt: TxReceipt)
    requires
        flow.stage is Submitting,
        flow.op is Lock,
        receipt.status is Included,
    ensures
        submitted_next(flow, Ok(tx_hash)).0.escrow == flow.escrow,
        submitted_next(flow, Ok(tx_hash)).0.op == flow.op,
        submitted_next(flow, Ok(tx_hash)).0.program_id == flow.program_id,
        submitted_next(flow, Ok(tx_hash)).0.stage == (FlowStage::Confirming { tx_hash }),
        (exists|i: int|
            0 <= i < receipt.events@.len() && (#[trigger] receipt.events@[i]).program_id@
                == flow.program_id@ && (receipt.events@[i].htlc_event matches Some(
                HtlcEvent::Locked { hashlock: h },
            ) && h@ == flow.op->Lock_hashlock@)) ==> receipt_next(
            submitted_next(flow, Ok(tx_hash)).0,
            tx_hash,
            Ok(receipt),
        ).1 == (FlowAction::Fund { recipient: flow.escrow, amount: flow.op->Lock_amount }),
        !(exists|i: int|
            0 <= i < receipt.events@.len() && (#[trigger] receipt.events@[i]).program_id@
                == flow.program_id@ && (receipt.events@[i].htlc_event matches Some(
                HtlcEvent::Locked { hashlock: h },
            ) && h@ == flow.op->Lock_hashlock@)) ==> receipt_next(
            submitted_next(flow, Ok(tx_hash)).0,
            tx_hash,
            Ok(receipt),
        ).1 == FlowAction::Done(
            Err(LezError::MissingHtlcEvent { tx_hash, expected: HtlcEventKind::Locked }),
        ),
{
    let pred = |ev: HtlcEvent| event_confirms(flow.op, ev);
    lemma_confirmed_iff_program_emitted(flow.op, flow.program_id, receipt.events@, pred);
}

/// A claim whose transaction is included succeeds, reporting its own hash,
/// exactly when the HTLC program emitted a `Claimed` event revealing the
/// claimed preimage; otherwise it ends reporting the missing `Claimed` event.
pub proof fn lemma_claim_confirmed_by_its_preimage(flow: HtlcFlow, tx_hash: String, receipt: TxReceipt)
    requires
        flow.stage is Submitting,
        flow.op is Claim,
        receipt.status is Included,
    ensures
        receipt_next(submitted_next(flow, Ok(tx_hash)).0, tx_hash, Ok(receipt)).1
            == FlowAction::Done(Ok::<String, LezError>(tx_hash)) <==> exists|i: int|
            0 <= i < receipt.events@.len() && (#[trigger] receipt.events@[i]).program_id@
                == flow.program_id@ && (receipt.events@[i].htlc_event matches Some(
                HtlcEvent::Claimed { preimage: p },
            ) && p@ == flow.op->Claim_preimage@),
        receipt_next(submitted_next(flow, Ok(tx_hash)).0, tx_hash, Ok(receipt)).1
            != FlowAction::Done(Ok::<String, LezError>(tx_hash)) ==> receipt_next(
            submitted_next(flow, Ok(tx_hash)).0,
            tx_hash,
            Ok(receipt),
        ).1 == FlowAction::Done(
            Err(LezError::MissingHtlcEvent { tx_hash, expected: HtlcEventKind::Claimed }),
        ),
{
    let pred = |ev: HtlcEvent| event_confirms(flow.op, ev);
    lemma_confirmed_iff_program_emitted(flow.op, flow.program_id, receipt.events@, pred);
}

/// A refund whose transaction is included succeeds, reporting its own hash,
/// exactly when the HTLC program emitted a `Refunded` event for the refunded
/// hashlock; otherwise it ends reporting the missing `Refunded` event.
pub proof fn lemma_refund_confirmed_by_its_hashlock(flow: HtlcFlow, tx_hash: String, receipt: TxReceipt)
    requires
        flow.stage is Submitting,
        flow.op is Refund,
        receipt.status is Included,
    ensures
        receipt_next(submitted_next(flow, Ok(tx_hash)).0, tx_hash, Ok(receipt)).1
            == FlowAction::Done(Ok::<String, LezError>(tx_hash)) <==> exists|i: int|
            0 <= i < receipt.events@.len() && (#[trigger] receipt.events@[i]).program_id@
                == flow.program_id@ && (receipt.events@[i].htlc_event matches Some(
                HtlcEvent::Refunded { hashlock: h },
            ) && h@ == flow.op->Refund_hashlock@),
        receipt_next(submitted_next(flow, Ok(tx_hash)).0, tx_hash, Ok(receipt)).1
            != FlowAction::Done(Ok::<String, LezError>(tx_hash)) ==> receipt_next(
            submitted_next(flow, Ok(tx_hash)).0,
            tx_hash,
            Ok(receipt),
        ).1 == FlowAction::Done(
            Err(LezError::MissingHtlcEvent { tx_hash, expected: HtlcEventKind::Refunded }),
        ),
{
    let pred = |ev: HtlcEvent| event_confirms(flow.op, ev);
    lemma_confirmed_iff_program_emitted(flow.op, flow.program_id, receipt.events@, pred);
}

/// A failure of any network step ends the operation with that very failure;
/// a rejected transaction ends it with the rejection, naming the transaction
/// and the receipt's recorded error; and a funded lock reports the hash of its
/// lock transaction, not that of the transfer.
pub proof fn lemma_failures_pass_through(
    flow: HtlcFlow,
    tx_hash: String,
    transfer_hash: String,
    receipt: TxReceipt,
    e: LezError,
)
    ensures
        submitted_next(flow, Err(e)).1 == FlowAction::Done(Err::<String, LezError>(e)),
        receipt_next(flow, tx_hash, Err(e)).1 == FlowAction::Done(Err::<String, LezError>(e)),
        receipt.status == TxStatus::Rejected ==> receipt_next(flow, tx_hash, Ok(receipt)).1
            == FlowAction::Done(
            Err::<String, LezError>(LezError::TxRejected { tx_hash, error: receipt.error }),
        ),
        (receipt.status == TxStatus::Pending || receipt.status == TxStatus::Unknown) ==> receipt_next(
            flow,
            tx_hash,
            Ok(receipt),
        ).1 == FlowAction::Done(Err::<String, LezError>(LezError::ReceiptNotFinal { tx_hash })),
        funded_next(flow, tx_hash, Err(e)).1 == FlowAction::Done(Err::<String, LezError>(e)),
        funded_next(flow, tx_hash, Ok(transfer_hash)).1 == FlowAction::Done(
            Ok::<String, LezError>(tx_hash),
        ),
{
}

} // verus!
