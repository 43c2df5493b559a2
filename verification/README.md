# lez_client

The verified core of the LEZ side of a LEZ–Ethereum HTLC atomic swap client.

- `src/config.rs`: decoding the hex signing key (through `hex::decode`) and
  parsing the sequencer URL (through `url::Url::parse`).
- `src/receipt.rs`: transaction receipts and the HTLC events they carry.
- `src/client.rs`: the client's identity, picking this program's HTLC events
  out of a receipt, judging a receipt, and screening escrow account data.
- `src/poll.rs`: the decision after each poll for a receipt, and the law that
  the wait ends at the first terminal receipt or at the deadline.
- `src/flow.rs`: lock, claim and refund as a protocol driven by the caller,
  with the laws on when they succeed and when they move funds.
- `app/lib.rs`: the sequencer connection, signing and account derivation,
  and the async loops that perform what the library asks for.
