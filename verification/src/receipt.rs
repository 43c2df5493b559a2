//! Transaction receipts as the sequencer reports them, and the HTLC events
//! they carry.

use vstd::prelude::*;

verus! {

/// Where a submitted transaction stands.
#[derive(Debug, Clone, Copy, PartialEq, Eq, Structural)]
pub enum TxStatus {
    Pending,
    Included,
    Rejected,
    Unknown,
}

/// An event of the HTLC program, with the fields the client reads.
#[derive(Debug, Clone, Copy, PartialEq, Eq)]
pub enum HtlcEvent {
    /// An escrow was locked under `hashlock`.
    Locked { hashlock: [u8; 32] },
    /// An escrow was claimed by revealing `preimage`.
    Claimed { preimage: [u8; 32] },
    /// The escrow under `hashlock` was refunded.
    Refunded { hashlock: [u8; 32] },
}

/// One event of a receipt: the program that emitted it and, when its payload
/// reads as an HTLC event, that event.
#[derive(Debug, Clone, Copy)]
pub struct ReceiptEvent {
    pub program_id: [u32; 8],
    pub htlc_event: Option<HtlcEvent>,
}

/// The receipt of a submitted transaction.
#[derive(Debug, Clone)]
pub struct TxReceipt {
    pub status: TxStatus,
    pub events: Vec<ReceiptEvent>,
    /// The execution error recorded for a rejected transaction.
    pub error: Option<String>,
}

/// The status ends the wait for a receipt: the transaction was included or
/// rejected.
pub open spec fn is_terminal(status: TxStatus) -> bool {
    status is Included || status is Rejected
}

/// The HTLC event that `ev` carries when `program_id` emitted it.
pub open spec fn htlc_event_from(program_id: [u32; 8], ev: ReceiptEvent) -> Option<HtlcEvent> {
    if ev.program_id@ == program_id@ {
        ev.htlc_event
    } else {
        None
    }
}

/// The HTLC events that `program_id` emitted among `events`, in order; events
/// of other programs, and payloads that are no HTLC event, are left out.
pub open spec fn program_htlc_events(events: Seq<ReceiptEvent>, program_id: [u32; 8]) -> Seq<
    HtlcEvent,
> {
    events.filter_map(|ev: ReceiptEvent| htlc_event_from(program_id, ev))
}

/// The events hold a `Locked` event for `hashlock`.
pub open spec fn has_locked(events: Seq<HtlcEvent>, hashlock: [u8; 32]) -> bool {
    exists|i: int| 0 <= i < events.len() && (#[trigger] events[i] matches HtlcEvent::Locked { hashlock: h } && h@ == hashlock@)
}

/// The events hold a `Claimed` event revealing `preimage`.
pub open spec fn has_claimed(events: Seq<HtlcEvent>, preimage: [u8; 32]) -> bool {
    exists|i: int| 0 <= i < events.len() && (#[trigger] events[i] matches HtlcEvent::Claimed { preimage: p } && p@ == preimage@)
}

/// The events hold a `Refunded` event for `hashlock`.
pub open spec fn has_refunded(events: Seq<HtlcEvent>, hashlock: [u8; 32]) -> bool {
    exists|i: int| 0 <= i < events.len() && (#[trigger] events[i] matches HtlcEvent::Refunded { hashlock: h } && h@ == hashlock@)
}

/// Compares two program ids.
pub fn same_program(a: &[u32; 8], b: &[u32; 8]) -> (r: bool)
    ensures
        r == (a@ == b@),
{
    let mut i: usize = 0;
    while i < 8
        invariant
            0 <= i <= 8,
            forall|j: int| 0 <= j < i ==> a@[j] == b@[j],
        decreases 8 - i,
    {
        if a[i] != b[i] {
            return false;
        }
        i = i + 1;
    }
    assert(a@ =~= b@);
    true
}

/// Compares two 32-byte values.
pub fn same_bytes32(a: &[u8; 32], b: &[u8; 32]) -> (r: bool)
    ensures
        r == (a@ == b@),
{
    let mut i: usize = 0;
    while i < 32
        invariant
            0 <= i <= 32,
            forall|j: int| 0 <= j < i ==> a@[j] == b@[j],
        decreases 32 - i,
    {
        if a[i] != b[i] {
            return false;
        }
        i = i + 1;
    }
    assert(a@ =~= b@);
    true
}

/// Every HTLC event picked out of a receipt was emitted by the program it was
/// picked for: events of other programs never pass.
pub proof fn lemma_htlc_events_come_from_program(
    events: Seq<ReceiptEvent>,
    program_id: [u32; 8],
    ev: HtlcEvent,
)
    requires
        program_htlc_events(events, program_id).contains(ev),
    ensures
        exists|i: int|
            0 <= i < events.len() && (#[trigger] events[i]).program_id@ == program_id@
                && events[i].htlc_event == Some(ev),
{
    let select = |e: ReceiptEvent| htlc_event_from(program_id, e);
    events.lemma_filter_map_contains(select, ev);
    let t = choose|t: ReceiptEvent| #[trigger] events.contains(t) && select(t) == Some(ev);
    let i = choose|i: int| 0 <= i < events.len() && events[i] == t;
    assert(events[i].program_id@ == program_id@);
}

/// Every HTLC event that the program emitted in a receipt is picked out of it:
/// no event of the program is lost.
pub proof fn lemma_program_event_is_picked(events: Seq<ReceiptEvent>, program_id: [u32; 8], i: int)
    requires
        0 <= i < events.len(),
        events[i].program_id@ == program_id@,
        events[i].htlc_event is Some,
    ensures
        program_htlc_events(events, program_id).contains(events[i].htlc_event->Some_0),
    decreases events.len(),
{
    let ev = events[i].htlc_event->Some_0;
    let rest = events.drop_last();
    let picked = program_htlc_events(events, program_id);
    let picked_rest = program_htlc_events(rest, program_id);
    if i == events.len() - 1 {
        assert(picked == picked_rest + seq![ev]);
        assert(picked[picked_rest.len() as int] == ev);
    } else {
        lemma_program_event_is_picked(rest, program_id, i);
        assert(rest[i] == events[i]);
        let j = choose|j: int| 0 <= j < picked_rest.len() && picked_rest[j] == ev;
        match htlc_event_from(program_id, events.last()) {
            Some(x) => {
                assert(picked == picked_rest + seq![x]);
                assert(picked[j] == ev);
            },
            None => {
                assert(picked == picked_rest);
            },
        }
    }
}

/// An event satisfying `pred` is among the HTLC events picked for
/// `program_id` exactly when the program emitted, in one of the receipt's
/// events, an HTLC event satisfying `pred`.
pub proof fn lemma_picked_events_match_receipt(
    events: Seq<ReceiptEvent>,
    program_id: [u32; 8],
    pred: spec_fn(HtlcEvent) -> bool,
)
    ensures
        (exists|j: int|
            0 <= j < program_htlc_events(events, program_id).len() && #[trigger] pred(
                program_htlc_events(events, program_id)[j],
            )) <==> (exists|i: int|
            0 <= i < events.len() && (#[trigger] events[i]).program_id@ == program_id@
                && events[i].htlc_event is Some && pred(events[i].htlc_event->Some_0)),
{
    let picked = program_htlc_events(events, program_id);
    if exists|j: int| 0 <= j < picked.len() && #[trigger] pred(picked[j]) {
        let j = choose|j: int| 0 <= j < picked.len() && #[trigger] pred(picked[j]);
        assert(picked.contains(picked[j]));
        lemma_htlc_events_come_from_program(events, program_id, picked[j]);
        let i = choose|i: int|
            0 <= i < events.len() && (#[trigger] events[i]).program_id@ == program_id@
                && events[i].htlc_event == Some(picked[j]);
        assert(pred(events[i].htlc_event->Some_0));
    }
    if exists|i: int|
        0 <= i < events.len() && (#[trigger] events[i]).program_id@ == program_id@
            && events[i].htlc_event is Some && pred(events[i].htlc_event->Some_0) {
        let i = choose|i: int|
            0 <= i < events.len() && (#[trigger] events[i]).program_id@ == program_id@
                && events[i].htlc_event is Some && pred(events[i].htlc_event->Some_0);
        lemma_program_event_is_picked(events, program_id, i);
        let j = choose|j: int| 0 <= j < picked.len() && picked[j] == events[i].htlc_event->Some_0;
        assert(pred(picked[j]));
    }
}

/// The HTLC events picked out of a receipt for `program_id` are exactly the
/// HTLC events that the program emitted in it: an event is picked if and only
/// if one of the receipt's events from that program carries it.
pub proof fn lemma_picked_events_are_the_programs(
    events: Seq<ReceiptEvent>,
    program_id: [u32; 8],
    ev: HtlcEvent,
)
    ensures
        program_htlc_events(events, program_id).contains(ev) <==> exists|i: int|
            0 <= i < events.len() && (#[trigger] events[i]).program_id@ == program_id@
                && events[i].htlc_event == Some(ev),
{
    if exists|i: int|
        0 <= i < events.len() && (#[trigger] events[i]).program_id@ == program_id@
            && events[i].htlc_event == Some(ev) {
        let i = choose|i: int|
            0 <= i < events.len() && (#[trigger] events[i]).program_id@ == program_id@
                && events[i].htlc_event == Some(ev);
        lemma_program_event_is_picked(events, program_id, i);
    }
    if program_htlc_events(events, program_id).contains(ev) {
        lemma_htlc_events_come_from_program(events, program_id, ev);
    }
}

/// Picking HTLC events goes event by event, in receipt order: no receipt has
/// no events picked, and a receipt extended by one event has the events picked
/// from the shorter one, followed by that event's HTLC event when the program
/// emitted it and it reads as one.
pub proof fn lemma_picking_extends_in_order(events: Seq<ReceiptEvent>, program_id: [u32; 8], ev: ReceiptEvent)
    ensures
        program_htlc_events(Seq::<ReceiptEvent>::empty(), program_id) == Seq::<HtlcEvent>::empty(),
        program_htlc_events(events.push(ev), program_id) == program_htlc_events(events, program_id)
            + if ev.program_id@ == program_id@ && ev.htlc_event is Some {
            seq![ev.htlc_event->Some_0]
        } else {
            Seq::<HtlcEvent>::empty()
        },
{
    assert(events.push(ev).drop_last() =~= events);
    assert(events.push(ev).last() == ev);
    assert(program_htlc_events(events, program_id) + Seq::<HtlcEvent>::empty() =~= program_htlc_events(
        events,
        program_id,
    ));
}

/// Picking HTLC events out of two runs of receipt events, one after the
/// other, gives the events picked from the first run followed by those picked
/// from the second: order and repetitions are kept.
pub proof fn lemma_picking_splits(first: Seq<ReceiptEvent>, second: Seq<ReceiptEvent>, program_id: [u32; 8])
    ensures
        program_htlc_events(first + second, program_id) == program_htlc_events(first, program_id)
            + program_htlc_events(second, program_id),
    decreases second.len(),
{
    if second.len() == 0 {
        assert(first + second =~= first);
        assert(program_htlc_events(first, program_id) + Seq::<HtlcEvent>::empty() =~= program_htlc_events(
            first,
            program_id,
        ));
    } else {
        let shorter = second.drop_last();
        let ev = second.last();
        lemma_picking_splits(first, shorter, program_id);
        assert(first + second =~= (first + shorter).push(ev));
        assert(second =~= shorter.push(ev));
        lemma_picking_extends_in_order(first + shorter, program_id, ev);
        lemma_picking_extends_in_order(shorter, program_id, ev);
        let tail = if ev.program_id@ == program_id@ && ev.htlc_event is Some {
            seq![ev.htlc_event->Some_0]
        } else {
            Seq::<HtlcEvent>::empty()
        };
        assert(program_htlc_events(first, program_id) + program_htlc_events(shorter, program_id) + tail
            =~= program_htlc_events(first, program_id) + (program_htlc_events(shorter, program_id)
            + tail));
    }
}

} // verus!
