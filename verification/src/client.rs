//! The LEZ client's own state and the decisions it makes on what the
//! sequencer reports.

use vstd::prelude::*;

use crate::error::LezError;
use crate::receipt::{
    htlc_event_from, lemma_picked_events_are_the_programs, program_htlc_events, same_bytes32,
    same_program, HtlcEvent, ReceiptEvent, TxReceipt, TxStatus,
};

verus! {

/// Fewest bytes of account data that can hold an HTLC escrow record.
pub const ESCROW_MIN_DATA_LEN: usize = 125;

/// What the client knows of itself: the account it signs for, the HTLC
/// program it talks to, and how long it pauses between receipt polls. No
/// method changes a client once it is built, so these stay fixed for its life.
pub struct LezClient {
    account_id: [u8; 32],
    program_id: [u32; 8],
    poll_interval: std::time::Duration,
}

/// What `confirm_htlc_tx` gives for the receipt of the transaction `tx_hash`:
/// for an included transaction, the HTLC events that `program_id` emitted; a
/// rejection is an error carrying the hash and the receipt's recorded error;
/// a receipt that is not final yet confirms nothing and is an error too.
pub open spec fn confirmation(program_id: [u32; 8], tx_hash: String, receipt: TxReceipt) -> Result<
    Seq<HtlcEvent>,
    LezError,
> {
    match receipt.status {
        TxStatus::Included => Ok(program_htlc_events(receipt.events@, program_id)),
        TxStatus::Rejected => Err(LezError::TxRejected { tx_hash, error: receipt.error }),
        _ => Err(LezError::ReceiptNotFinal { tx_hash }),
    }
}

impl LezClient {
    /// The account the client signs for.
    pub closed spec fn spec_account_id(&self) -> [u8; 32] {
        self.account_id
    }

    /// The HTLC program the client talks to.
    pub closed spec fn spec_program_id(&self) -> [u32; 8] {
        self.program_id
    }

    /// The pause between two receipt polls.
    pub closed spec fn spec_poll_interval(&self) -> std::time::Duration {
        self.poll_interval
    }

    /// A client signing for `account_id` against the HTLC program `program_id`.
    pub fn from_identity(
        account_id: [u8; 32],
        program_id: [u32; 8],
        poll_interval: std::time::Duration,
    ) -> (c: LezClient)
        ensures
            c.spec_account_id() == account_id,
            c.spec_program_id() == program_id,
            c.spec_poll_interval() == poll_interval,
    {
        LezClient { account_id, program_id, poll_interval }
    }

    pub fn account_id(&self) -> (r: [u8; 32])
        ensures
            r == self.spec_account_id(),
    {
        self.account_id
    }

    pub fn program_id(&self) -> (r: [u32; 8])
        ensures
            r == self.spec_program_id(),
    {
        self.program_id
    }

    pub fn poll_interval(&self) -> (r: std::time::Duration)
        ensures
            r == self.spec_poll_interval(),
    {
        self.poll_interval
    }

    /// The accounts of a transfer from this client to `recipient`: the
    /// client's own account first, then the recipient.
    pub fn transfer_accounts(&self, recipient: [u8; 32]) -> (r: Vec<[u8; 32]>)
        ensures
            r@ == seq![self.spec_account_id(), recipient],
    {
        vec![self.account_id, recipient]
    }

    /// The accounts that sign this client's transactions, and whose nonces
    /// are fetched for each: the client's own account alone.
    pub fn signers(&self) -> (r: Vec<[u8; 32]>)
        ensures
            r@ == seq![self.spec_account_id()],
    {
        vec![self.account_id]
    }

    /// The HTLC events of a receipt, in order: events emitted by other
    /// programs, and payloads that do not read as an HTLC event, are dropped.
    pub fn decode_htlc_events(&self, receipt: &TxReceipt) -> (r: Vec<HtlcEvent>)
        ensures
            r@ == program_htlc_events(receipt.events@, self.spec_program_id()),
    {
        select_htlc_events(&self.program_id, &receipt.events)
    }

    /// Judges the receipt of the HTLC transaction `tx_hash`: an included
    /// transaction gives the HTLC events it emitted; a rejected one, or a
    /// receipt that is not final, is an error.
    pub fn confirm_htlc_tx(&self, tx_hash: &String, receipt: TxReceipt) -> (r: Result<
        Vec<HtlcEvent>,
        LezError,
    >)
        ensures
            match confirmation(self.spec_program_id(), *tx_hash, receipt) {
                Ok(events) => r matches Ok(v) && v@ == events,
                Err(e) => r == Err::<Vec<HtlcEvent>, LezError>(e),
            },
            receipt.status is Included ==> (r matches Ok(v) && v@ == program_htlc_events(
                receipt.events@,
                self.spec_program_id(),
            )),
            receipt.status is Included ==> forall|ev: HtlcEvent|
                r->Ok_0@.contains(ev) <==> exists|i: int|
                    0 <= i < receipt.events@.len() && (#[trigger] receipt.events@[i]).program_id@
                        == self.spec_program_id()@ && receipt.events@[i].htlc_event == Some(ev),
    {
        let r = confirm_receipt(&self.program_id, tx_hash, receipt);
        proof {
            lemma_included_receipt_gives_its_events(self.program_id, *tx_hash, receipt);
        }
        r
    }
}

/// The HTLC events that `program_id` emitted among `events`, in order.
pub(crate) fn select_htlc_events(program_id: &[u32; 8], events: &Vec<ReceiptEvent>) -> (r: Vec<
    HtlcEvent,
>)
    ensures
        r@ == program_htlc_events(events@, *program_id),
{
    let ghost select = |ev: ReceiptEvent| htlc_event_from(*program_id, ev);
    let mut out: Vec<HtlcEvent> = Vec::new();
    let mut i: usize = 0;
    assert(events@.take(0) =~= Seq::<ReceiptEvent>::empty());
    while i < events.len()
        invariant
            0 <= i <= events@.len(),
            select == (|ev: ReceiptEvent| htlc_event_from(*program_id, ev)),
            out@ == events@.take(i as int).filter_map(select),
        decreases events@.len() - i,
    {
        let ev = &events[i];
        proof {
            events@.lemma_filter_map_take_succ(select, i as int);
        }
        if same_program(&ev.program_id, program_id) {
            match ev.htlc_event {
                Some(h) => {
                    out.push(h);
                },
                None => {},
            }
        }
        i = i + 1;
    }
    assert(events@.take(events@.len() as int) =~= events@);
    out
}

/// Judges the receipt of the transaction `tx_hash` for the HTLC program
/// `program_id`, as `confirmation` says.
pub(crate) fn confirm_receipt(program_id: &[u32; 8], tx_hash: &String, receipt: TxReceipt) -> (r: Result<
    Vec<HtlcEvent>,
    LezError,
>)
    ensures
        match confirmation(*program_id, *tx_hash, receipt) {
            Ok(events) => r matches Ok(v) && v@ == events,
            Err(e) => r == Err::<Vec<HtlcEvent>, LezError>(e),
        },
{
    match receipt.status {
        TxStatus::Included => Ok(select_htlc_events(program_id, &receipt.events)),
        TxStatus::Rejected => Err(LezError::TxRejected { tx_hash: tx_hash.clone(), error: receipt.error }),
        TxStatus::Pending | TxStatus::Unknown => Err(LezError::ReceiptNotFinal { tx_hash: tx_hash.clone() }),
    }
}

/// Account data of `data_len` bytes is long enough to hold an escrow record;
/// shorter data means no escrow exists at the account.
pub fn escrow_data_is_complete(data_len: usize) -> (r: bool)
    ensures
        r == (data_len >= ESCROW_MIN_DATA_LEN),
{
    data_len >= ESCROW_MIN_DATA_LEN
}

/// The escrow record read from an account belongs to the queried hashlock.
/// The sequencer answers with data even for accounts that were never created,
/// so a record whose stored hashlock differs is a phantom and is not an escrow.
pub fn escrow_matches_hashlock(stored_hashlock: &[u8; 32], queried_hashlock: &[u8; 32]) -> (r: bool)
    ensures
        r == (stored_hashlock@ == queried_hashlock@),
{
    same_bytes32(stored_hashlock, queried_hashlock)
}

/// Reads the escrow record out of the data of the hashlock's escrow account.
/// Data too short to hold a record means no escrow, and `decode` is not
/// called; otherwise `decode` reads the record and the hashlock stored in it,
/// and the record is the escrow only when that hashlock is the queried one:
/// the sequencer answers with data even for accounts that were never created.
pub fn screen_escrow<E, F: FnOnce(Vec<u8>) -> (E, [u8; 32])>(
    data: Vec<u8>,
    hashlock: &[u8; 32],
    decode: F,
) -> (r: Option<E>)
    requires
        data@.len() >= ESCROW_MIN_DATA_LEN ==> decode.requires((data,)),
    ensures
        data@.len() < ESCROW_MIN_DATA_LEN ==> r is None,
        data@.len() >= ESCROW_MIN_DATA_LEN ==> exists|record: E, stored: [u8; 32]|
            #[trigger] decode.ensures((data,), (record, stored)) && r == (if stored@ == hashlock@ {
                Some(record)
            } else {
                None
            }),
        r matches Some(record) ==> exists|stored: [u8; 32]|
            #[trigger] decode.ensures((data,), (record, stored)) && stored@ == hashlock@,
{
    if !escrow_data_is_complete(data.len()) {
        return None;
    }
    let ghost input = data;
    let (record, stored) = decode(data);
    proof {
        assert(decode.ensures((input,), (record, stored)));
    }
    if escrow_matches_hashlock(&stored, hashlock) {
        let found = Some(record);
        assert(decode.ensures((data,), (found->Some_0, stored)));
        found
    } else {
        None
    }
}

/// An included receipt confirms the transaction and gives exactly the HTLC
/// events that the program emitted in it, as `decode_htlc_events` reads them:
/// an event is given if and only if one of the receipt's events from the
/// program carries it. A rejected receipt is the rejection error with the
/// receipt's recorded error, and a receipt that is not final is an error.
pub proof fn lemma_included_receipt_gives_its_events(
    program_id: [u32; 8],
    tx_hash: String,
    receipt: TxReceipt,
)
    ensures
        receipt.status is Included ==> confirmation(program_id, tx_hash, receipt) == Ok::<
            Seq<HtlcEvent>,
            LezError,
        >(program_htlc_events(receipt.events@, program_id)),
        receipt.status is Included ==> forall|ev: HtlcEvent|
            confirmation(program_id, tx_hash, receipt)->Ok_0.contains(ev) <==> exists|i: int|
                0 <= i < receipt.events@.len() && (#[trigger] receipt.events@[i]).program_id@
                    == program_id@ && receipt.events@[i].htlc_event == Some(ev),
        receipt.status is Rejected ==> confirmation(program_id, tx_hash, receipt) == Err::<
            Seq<HtlcEvent>,
            LezError,
        >(LezError::TxRejected { tx_hash, error: receipt.error }),
        (receipt.status is Pending || receipt.status is Unknown) ==> confirmation(
            program_id,
            tx_hash,
            receipt,
        ) is Err,
{
    assert forall|ev: HtlcEvent|
        receipt.status is Included implies confirmation(program_id, tx_hash, receipt)->Ok_0.contains(
            ev,
        ) <==> exists|i: int|
            0 <= i < receipt.events@.len() && (#[trigger] receipt.events@[i]).program_id@
                == program_id@ && receipt.events@[i].htlc_event == Some(ev) by {
        lemma_picked_events_are_the_programs(receipt.events@, program_id, ev);
    }
}

} // verus!
