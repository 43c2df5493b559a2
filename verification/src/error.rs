//! Errors reported by the LEZ client.

use vstd::prelude::*;

verus! {

/// The error of `url::Url::parse`, carried as an opaque value.
#[verifier::external_type_specification]
#[verifier::external_body]
pub struct ExUrlParseError(url::ParseError);

/// Why a hex string could not be decoded into bytes.
#[derive(Debug, Clone, Copy, PartialEq, Eq, Structural)]
pub enum HexFault {
    /// A byte that is not one of `0-9`, `a-f`, `A-F`, at the given byte index.
    InvalidHexCharacter { c: char, index: usize },
    /// The number of hex digits is odd.
    OddLength,
    /// The digits do not fill the requested number of bytes exactly.
    InvalidStringLength,
}

/// Which HTLC event a confirmed transaction was expected to carry.
#[derive(Debug, Clone, Copy, PartialEq, Eq, Structural)]
pub enum HtlcEventKind {
    Locked,
    Claimed,
    Refunded,
}

/// Errors of the LEZ client.
#[derive(Debug)]
pub enum LezError {
    /// The configured signing key is not a hex string.
    InvalidKeyHex(HexFault),
    /// The configured signing key does not decode to exactly 32 bytes;
    /// `len` is the number of bytes it decodes to.
    InvalidKeyLength { len: usize },
    /// The signing key bytes were refused as a private key.
    InvalidPrivateKey(String),
    /// The configured sequencer URL could not be parsed.
    InvalidSequencerUrl(url::ParseError),
    /// The wallet could not provide the signing key of an account.
    Wallet(String),
    /// A call to the sequencer failed.
    Sequencer(String),
    /// Building or submitting a transaction failed.
    Transaction(String),
    /// The transaction was rejected; `error` is the execution error that its
    /// receipt records, if any.
    TxRejected { tx_hash: String, error: Option<String> },
    /// The receipt handed over for judgment is neither included nor rejected.
    ReceiptNotFinal { tx_hash: String },
    /// The transaction was included but did not emit the expected HTLC event.
    MissingHtlcEvent { tx_hash: String, expected: HtlcEventKind },
    /// No terminal receipt for the transaction arrived before the deadline.
    Timeout { tx_hash: String },
}

} // verus!
