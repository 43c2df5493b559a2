use std::time::Duration;

use lez_client::client::LezClient;
use lez_client::error::{HtlcEventKind, LezError};
use lez_client::flow::{FlowAction, FlowStage, HtlcInstruction, HtlcOp, CONFIRM_TIMEOUT_SECS};
use lez_client::receipt::{HtlcEvent, ReceiptEvent, TxReceipt, TxStatus};

const HTLC: [u32; 8] = [1, 2, 3, 4, 5, 6, 7, 8];
const OTHER: [u32; 8] = [8, 7, 6, 5, 4, 3, 2, 1];
const ME: [u8; 32] = [0x11; 32];
const ESCROW: [u8; 32] = [0xE5; 32];
const HASHLOCK: [u8; 32] = [0xAB; 32];
const PREIMAGE: [u8; 32] = [0x42; 32];

fn client() -> LezClient {
    LezClient::from_identity(ME, HTLC, Duration::from_secs(1))
}

fn included(program_id: [u32; 8], ev: HtlcEvent) -> TxReceipt {
    TxReceipt {
        status: TxStatus::Included,
        events: vec![ReceiptEvent { program_id, htlc_event: Some(ev) }],
        error: None,
    }
}

#[test]
fn lock_submits_the_lock_instruction_with_a_millisecond_timelock() {
    let (flow, action) = client().lock(HASHLOCK, [0x22; 32], 500, 3600, ESCROW);
    assert!(matches!(flow.stage, FlowStage::Submitting));
    assert!(matches!(flow.op, HtlcOp::Lock { amount: 500, .. }));
    match action {
        FlowAction::Submit { accounts, instruction } => {
            assert_eq!(accounts, vec![ME, ESCROW]);
            match instruction {
                HtlcInstruction::Lock { hashlock, taker_id, amount, timelock } => {
                    assert_eq!(hashlock, HASHLOCK);
                    assert_eq!(taker_id, [0x22; 32]);
                    assert_eq!(amount, 500);
                    assert_eq!(timelock, 3_600_000);
                }
                other => panic!("unexpected {other:?}"),
            }
        }
        other => panic!("unexpected {other:?}"),
    }
}

#[test]
fn lock_runs_to_success_and_reports_the_lock_hash() {
    let (flow, _) = client().lock(HASHLOCK, [0x22; 32], 500, 60, ESCROW);
    let (flow, action) = flow.on_submitted(Ok("lockhash".to_string()));
    match action {
        FlowAction::AwaitReceipt { tx_hash, timeout_secs } => {
            assert_eq!(tx_hash, "lockhash");
            assert_eq!(timeout_secs, CONFIRM_TIMEOUT_SECS);
            assert_eq!(timeout_secs, 60);
        }
        other => panic!("unexpected {other:?}"),
    }
    let (flow, action) = flow.on_receipt(Ok(included(HTLC, HtlcEvent::Locked { hashlock: HASHLOCK })));
    match action {
        FlowAction::Fund { recipient, amount } => {
            assert_eq!(recipient, ESCROW);
            assert_eq!(amount, 500);
        }
        other => panic!("unexpected {other:?}"),
    }
    let (flow, action) = flow.on_funded(Ok("transferhash".to_string()));
    assert!(matches!(flow.stage, FlowStage::Finished));
    match action {
        FlowAction::Done(Ok(h)) => assert_eq!(h, "lockhash"),
        other => panic!("unexpected {other:?}"),
    }
}

#[test]
fn lock_without_locked_event_for_its_hashlock_fails_before_funding() {
    let (flow, _) = client().lock(HASHLOCK, [0x22; 32], 500, 60, ESCROW);
    let (flow, _) = flow.on_submitted(Ok("lockhash".to_string()));
    let (flow, action) = flow.on_receipt(Ok(included(HTLC, HtlcEvent::Locked { hashlock: [0xCD; 32] })));
    assert!(matches!(flow.stage, FlowStage::Finished));
    match action {
        FlowAction::Done(Err(LezError::MissingHtlcEvent { tx_hash, expected })) => {
            assert_eq!(tx_hash, "lockhash");
            assert_eq!(expected, HtlcEventKind::Locked);
        }
        other => panic!("unexpected {other:?}"),
    }
}

#[test]
fn lock_event_from_another_program_does_not_count() {
    let (flow, _) = client().lock(HASHLOCK, [0x22; 32], 500, 60, ESCROW);
    let (flow, _) = flow.on_submitted(Ok("lockhash".to_string()));
    let (_, action) = flow.on_receipt(Ok(included(OTHER, HtlcEvent::Locked { hashlock: HASHLOCK })));
    assert!(matches!(action, FlowAction::Done(Err(LezError::MissingHtlcEvent { .. }))));
}

#[test]
fn lock_rejected_reports_rejection() {
    let (flow, _) = client().lock(HASHLOCK, [0x22; 32], 500, 60, ESCROW);
    let (flow, _) = flow.on_submitted(Ok("lockhash".to_string()));
    let rejected = TxReceipt { status: TxStatus::Rejected, events: vec![], error: Some("escrow exists".to_string()) };
    let (_, action) = flow.on_receipt(Ok(rejected));
    match action {
        FlowAction::Done(Err(LezError::TxRejected { tx_hash, error })) => {
            assert_eq!(tx_hash, "lockhash");
            assert_eq!(error.as_deref(), Some("escrow exists"));
        }
        other => panic!("unexpected {other:?}"),
    }
}

#[test]
fn lock_submit_failure_ends_at_once() {
    let (flow, _) = client().lock(HASHLOCK, [0x22; 32], 500, 60, ESCROW);
    let (flow, action) = flow.on_submitted(Err(LezError::Transaction("send failed".to_string())));
    assert!(matches!(flow.stage, FlowStage::Finished));
    assert!(matches!(action, FlowAction::Done(Err(LezError::Transaction(_)))));
}

#[test]
fn lock_receipt_timeout_is_passed_on() {
    let (flow, _) = client().lock(HASHLOCK, [0x22; 32], 500, 60, ESCROW);
    let (flow, _) = flow.on_submitted(Ok("lockhash".to_string()));
    let (_, action) = flow.on_receipt(Err(LezError::Timeout { tx_hash: "lockhash".to_string() }));
    assert!(matches!(action, FlowAction::Done(Err(LezError::Timeout { .. }))));
}

#[test]
fn lock_funding_failure_is_the_result() {
    let (flow, _) = client().lock(HASHLOCK, [0x22; 32], 500, 60, ESCROW);
    let (flow, _) = flow.on_submitted(Ok("lockhash".to_string()));
    let (flow, _) = flow.on_receipt(Ok(included(HTLC, HtlcEvent::Locked { hashlock: HASHLOCK })));
    let (_, action) = flow.on_funded(Err(LezError::Transaction("transfer failed".to_string())));
    assert!(matches!(action, FlowAction::Done(Err(LezError::Transaction(_)))));
}

#[test]
fn claim_carries_the_preimage_and_succeeds_on_claimed_event() {
    let (flow, action) = client().claim(&PREIMAGE, ESCROW);
    match action {
        FlowAction::Submit { accounts, instruction } => {
            assert_eq!(accounts, vec![ME, ESCROW]);
            match instruction {
                HtlcInstruction::Claim { preimage } => assert_eq!(preimage, PREIMAGE.to_vec()),
                other => panic!("unexpected {other:?}"),
            }
        }
        other => panic!("unexpected {other:?}"),
    }
    let (flow, _) = flow.on_submitted(Ok("claimhash".to_string()));
    let (flow, action) = flow.on_receipt(Ok(included(HTLC, HtlcEvent::Claimed { preimage: PREIMAGE })));
    assert!(matches!(flow.stage, FlowStage::Finished));
    match action {
        FlowAction::Done(Ok(h)) => assert_eq!(h, "claimhash"),
        other => panic!("unexpected {other:?}"),
    }
}

#[test]
fn claim_with_other_preimage_in_event_fails() {
    let (flow, _) = client().claim(&PREIMAGE, ESCROW);
    let (flow, _) = flow.on_submitted(Ok("claimhash".to_string()));
    let (_, action) = flow.on_receipt(Ok(included(HTLC, HtlcEvent::Claimed { preimage: [0x43; 32] })));
    match action {
        FlowAction::Done(Err(LezError::MissingHtlcEvent { expected, .. })) => {
            assert_eq!(expected, HtlcEventKind::Claimed)
        }
        other => panic!("unexpected {other:?}"),
    }
}

#[test]
fn refund_succeeds_on_refunded_event() {
    let (flow, action) = client().refund(&HASHLOCK, ESCROW);
    match action {
        FlowAction::Submit { accounts, instruction } => {
            assert_eq!(accounts, vec![ME, ESCROW]);
            assert!(matches!(instruction, HtlcInstruction::Refund));
        }
        other => panic!("unexpected {other:?}"),
    }
    let (flow, _) = flow.on_submitted(Ok("refundhash".to_string()));
    let (_, action) = flow.on_receipt(Ok(included(HTLC, HtlcEvent::Refunded { hashlock: HASHLOCK })));
    match action {
        FlowAction::Done(Ok(h)) => assert_eq!(h, "refundhash"),
        other => panic!("unexpected {other:?}"),
    }
}

#[test]
fn refund_with_locked_event_only_fails() {
    let (flow, _) = client().refund(&HASHLOCK, ESCROW);
    let (flow, _) = flow.on_submitted(Ok("refundhash".to_string()));
    let (_, action) = flow.on_receipt(Ok(included(HTLC, HtlcEvent::Locked { hashlock: HASHLOCK })));
    match action {
        FlowAction::Done(Err(LezError::MissingHtlcEvent { tx_hash, expected })) => {
            assert_eq!(tx_hash, "refundhash");
            assert_eq!(expected, HtlcEventKind::Refunded);
        }
        other => panic!("unexpected {other:?}"),
    }
}

#[test]
fn lock_with_pending_receipt_is_not_funded() {
    let (flow, _) = client().lock(HASHLOCK, [0x22; 32], 500, 60, ESCROW);
    let (flow, _) = flow.on_submitted(Ok("lockhash".to_string()));
    let pending = TxReceipt {
        status: TxStatus::Pending,
        events: vec![ReceiptEvent { program_id: HTLC, htlc_event: Some(HtlcEvent::Locked { hashlock: HASHLOCK }) }],
        error: None,
    };
    let (flow, action) = flow.on_receipt(Ok(pending));
    assert!(matches!(flow.stage, FlowStage::Finished));
    match action {
        FlowAction::Done(Err(LezError::ReceiptNotFinal { tx_hash })) => assert_eq!(tx_hash, "lockhash"),
        other => panic!("unexpected {other:?}"),
    }
}
