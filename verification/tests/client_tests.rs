use std::time::Duration;

use lez_client::client::{
    escrow_data_is_complete, escrow_matches_hashlock, screen_escrow, LezClient, ESCROW_MIN_DATA_LEN,
};
use lez_client::error::LezError;
use lez_client::poll::{PollObservation, PollStep};
use lez_client::receipt::{HtlcEvent, ReceiptEvent, TxReceipt, TxStatus};

const HTLC: [u32; 8] = [1, 2, 3, 4, 5, 6, 7, 8];
const OTHER: [u32; 8] = [9, 9, 9, 9, 9, 9, 9, 9];

fn client() -> LezClient {
    LezClient::from_identity([0x11u8; 32], HTLC, Duration::from_millis(250))
}

fn event(program_id: [u32; 8], htlc_event: Option<HtlcEvent>) -> ReceiptEvent {
    ReceiptEvent { program_id, htlc_event }
}

fn receipt(status: TxStatus, events: Vec<ReceiptEvent>, error: Option<&str>) -> TxReceipt {
    TxReceipt { status, events, error: error.map(|s| s.to_string()) }
}

#[test]
fn client_reports_its_identity() {
    let c = client();
    assert_eq!(c.account_id(), [0x11u8; 32]);
    assert_eq!(c.program_id(), HTLC);
    assert_eq!(c.poll_interval(), Duration::from_millis(250));
}

#[test]
fn decode_keeps_only_this_programs_htlc_events_in_order() {
    let locked = HtlcEvent::Locked { hashlock: [0xAA; 32] };
    let claimed = HtlcEvent::Claimed { preimage: [0x01; 32] };
    let foreign = HtlcEvent::Refunded { hashlock: [0xAA; 32] };
    let r = receipt(
        TxStatus::Included,
        vec![
            event(OTHER, Some(foreign)),
            event(HTLC, Some(locked)),
            event(HTLC, None),
            event(OTHER, None),
            event(HTLC, Some(claimed)),
        ],
        None,
    );
    assert_eq!(client().decode_htlc_events(&r), vec![locked, claimed]);
}

#[test]
fn decode_of_receipt_without_events_is_empty() {
    let r = receipt(TxStatus::Included, vec![], None);
    assert!(client().decode_htlc_events(&r).is_empty());
}

#[test]
fn confirm_rejected_receipt_reports_the_recorded_error() {
    let r = receipt(TxStatus::Rejected, vec![], Some("wrong preimage"));
    let out = client().confirm_htlc_tx(&"abc123".to_string(), r);
    match out {
        Err(LezError::TxRejected { tx_hash, error }) => {
            assert_eq!(tx_hash, "abc123");
            assert_eq!(error.as_deref(), Some("wrong preimage"));
        }
        other => panic!("unexpected {other:?}"),
    }
}

#[test]
fn confirm_rejected_receipt_without_error_text() {
    let r = receipt(TxStatus::Rejected, vec![event(HTLC, Some(HtlcEvent::Refunded { hashlock: [1; 32] }))], None);
    let out = client().confirm_htlc_tx(&"h".to_string(), r);
    assert!(matches!(out, Err(LezError::TxRejected { error: None, .. })));
}

#[test]
fn confirm_included_receipt_gives_the_events() {
    let refunded = HtlcEvent::Refunded { hashlock: [7; 32] };
    let r = receipt(TxStatus::Included, vec![event(HTLC, Some(refunded)), event(OTHER, Some(refunded))], None);
    let out = client().confirm_htlc_tx(&"h".to_string(), r).unwrap();
    assert_eq!(out, vec![refunded]);
}

#[test]
fn escrow_data_needs_125_bytes() {
    assert_eq!(ESCROW_MIN_DATA_LEN, 125);
    assert!(!escrow_data_is_complete(0));
    assert!(!escrow_data_is_complete(124));
    assert!(escrow_data_is_complete(125));
    assert!(escrow_data_is_complete(4096));
}

#[test]
fn phantom_escrow_is_rejected() {
    assert!(escrow_matches_hashlock(&[0xAB; 32], &[0xAB; 32]));
    let mut other = [0xAB; 32];
    other[31] = 0xAC;
    assert!(!escrow_matches_hashlock(&other, &[0xAB; 32]));
    assert!(!escrow_matches_hashlock(&[0u8; 32], &[0xAB; 32]));
}

#[test]
fn included_receipt_ends_the_wait() {
    let r = receipt(TxStatus::Included, vec![], None);
    match client().wait_for_receipt(&"h".to_string(), PollObservation::Receipt(r), 10, 1_000) {
        PollStep::Finished(Ok(got)) => assert_eq!(got.status, TxStatus::Included),
        other => panic!("unexpected {other:?}"),
    }
}

#[test]
fn rejected_receipt_past_the_deadline_still_ends_the_wait() {
    let r = receipt(TxStatus::Rejected, vec![], Some("boom"));
    match client().wait_for_receipt(&"h".to_string(), PollObservation::Receipt(r), 5_000, 1_000) {
        PollStep::Finished(Ok(got)) => assert_eq!(got.status, TxStatus::Rejected),
        other => panic!("unexpected {other:?}"),
    }
}

#[test]
fn pending_receipt_before_deadline_retries_after_the_interval() {
    let r = receipt(TxStatus::Pending, vec![], None);
    match client().wait_for_receipt(&"h".to_string(), PollObservation::Receipt(r), 999, 1_000) {
        PollStep::Retry { after } => assert_eq!(after, Duration::from_millis(250)),
        other => panic!("unexpected {other:?}"),
    }
}

#[test]
fn failed_poll_before_deadline_retries() {
    let step = client().wait_for_receipt(&"h".to_string(), PollObservation::Unavailable, 0, 1_000);
    assert!(matches!(step, PollStep::Retry { .. }));
}

#[test]
fn unknown_receipt_at_the_deadline_times_out() {
    let r = receipt(TxStatus::Unknown, vec![], None);
    match client().wait_for_receipt(&"deadbeef".to_string(), PollObservation::Receipt(r), 1_000, 1_000) {
        PollStep::Finished(Err(LezError::Timeout { tx_hash })) => assert_eq!(tx_hash, "deadbeef"),
        other => panic!("unexpected {other:?}"),
    }
}

#[test]
fn failed_poll_after_the_deadline_times_out() {
    let step = client().wait_for_receipt(&"h".to_string(), PollObservation::Unavailable, 2_000, 1_000);
    assert!(matches!(step, PollStep::Finished(Err(LezError::Timeout { .. }))));
}

#[test]
fn wait_runs_until_the_first_terminal_receipt() {
    let c = client();
    let tx = "h".to_string();
    let rounds = vec![
        (PollObservation::Receipt(receipt(TxStatus::Pending, vec![], None)), 100u128),
        (PollObservation::Unavailable, 200),
        (PollObservation::Receipt(receipt(TxStatus::Unknown, vec![], None)), 300),
        (PollObservation::Receipt(receipt(TxStatus::Included, vec![], None)), 400),
        (PollObservation::Receipt(receipt(TxStatus::Rejected, vec![], None)), 500),
    ];
    let mut result = None;
    let mut polls = 0;
    for (observation, elapsed) in rounds {
        polls += 1;
        match c.wait_for_receipt(&tx, observation, elapsed, 1_000) {
            PollStep::Finished(r) => {
                result = Some(r);
                break;
            }
            PollStep::Retry { .. } => {}
        }
    }
    assert_eq!(polls, 4);
    assert_eq!(result.unwrap().unwrap().status, TxStatus::Included);
}

#[test]
fn confirm_pending_receipt_is_not_a_confirmation() {
    let locked = HtlcEvent::Locked { hashlock: [3; 32] };
    let r = receipt(TxStatus::Pending, vec![event(HTLC, Some(locked))], None);
    let out = client().confirm_htlc_tx(&"p".to_string(), r);
    match out {
        Err(LezError::ReceiptNotFinal { tx_hash }) => assert_eq!(tx_hash, "p"),
        other => panic!("unexpected {other:?}"),
    }
    let r = receipt(TxStatus::Unknown, vec![event(HTLC, Some(locked))], None);
    assert!(matches!(
        client().confirm_htlc_tx(&"u".to_string(), r),
        Err(LezError::ReceiptNotFinal { .. })
    ));
}

fn decode_record(bytes: Vec<u8>) -> (usize, [u8; 32]) {
    let mut stored = [0u8; 32];
    stored.copy_from_slice(&bytes[..32]);
    (bytes.len(), stored)
}

#[test]
fn screen_escrow_accepts_a_record_for_the_queried_hashlock() {
    let mut data = vec![0xABu8; 32];
    data.extend(vec![0u8; 93]);
    assert_eq!(screen_escrow(data, &[0xAB; 32], decode_record), Some(125));
}

#[test]
fn screen_escrow_rejects_a_phantom_record() {
    let mut data = vec![0xCDu8; 32];
    data.extend(vec![0u8; 200]);
    assert_eq!(screen_escrow(data, &[0xAB; 32], decode_record), None);
}

#[test]
fn screen_escrow_does_not_decode_short_data() {
    let data = vec![0xABu8; 124];
    let out = screen_escrow(data, &[0xAB; 32], |_bytes: Vec<u8>| -> (usize, [u8; 32]) {
        panic!("short data must not be decoded")
    });
    assert_eq!(out, None);
}

#[test]
fn transfers_and_signatures_use_the_clients_own_account() {
    let c = client();
    assert_eq!(c.transfer_accounts([0x77; 32]), vec![[0x11u8; 32], [0x77; 32]]);
    assert_eq!(c.signers(), vec![[0x11u8; 32]]);
    assert_eq!(c.account_id(), c.account_id());
}
