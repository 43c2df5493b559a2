//! Reading the client's configuration: the raw signing key and the
//! sequencer address.

use vstd::prelude::*;

use vstd::string::StringSliceAdditionalSpecFns;

use crate::error::{HexFault, LezError};

verus! {

/// Length in bytes of a LEZ signing key.
pub const SIGNING_KEY_LEN: usize = 32;

/// `b` is an ASCII hex digit: `0-9`, `a-f` or `A-F`.
pub open spec fn is_hex_digit(b: u8) -> bool {
    (0x30 <= b && b <= 0x39) || (0x41 <= b && b <= 0x46) || (0x61 <= b && b <= 0x66)
}

/// The value of the hex digit `b`.
pub open spec fn hex_digit_value(b: u8) -> int {
    if b <= 0x39 {
        b - 0x30
    } else if b <= 0x46 {
        b - 0x41 + 10
    } else {
        b - 0x61 + 10
    }
}

/// Every byte of `s` is a hex digit.
pub open spec fn all_hex_digits(s: Seq<u8>) -> bool {
    forall|i: int| 0 <= i < s.len() ==> #[trigger] is_hex_digit(s[i])
}

/// `i` is the first position of `s` that holds no hex digit.
pub open spec fn first_non_hex(s: Seq<u8>, i: int) -> bool {
    &&& 0 <= i < s.len()
    &&& !is_hex_digit(s[i])
    &&& forall|j: int| 0 <= j < i ==> #[trigger] is_hex_digit(s[j])
}

/// The bytes that the hex digits `s` spell, two digits per byte, high digit first.
pub open spec fn hex_bytes(s: Seq<u8>) -> Seq<u8> {
    Seq::new(
        s.len() / 2,
        |i: int| (hex_digit_value(s[2 * i]) * 16 + hex_digit_value(s[2 * i + 1])) as u8,
    )
}

/// What `hex::decode` gives for the bytes `s`.
pub open spec fn hex_decode_result(s: Seq<u8>) -> Result<Seq<u8>, HexFault> {
    if s.len() % 2 != 0 {
        Err(HexFault::OddLength)
    } else if all_hex_digits(s) {
        Ok(hex_bytes(s))
    } else {
        let i = choose|i: int| first_non_hex(s, i);
        Err(HexFault::InvalidHexCharacter { c: s[i] as char, index: i as usize })
    }
}

/// Calls `hex::decode`. Its source rejects an odd number of bytes first, then
/// reports the first byte that is not a hex digit with its index, and
/// otherwise turns each pair of digits into one byte, high digit first.
#[verifier::external_body]
fn hex_decode(s: &[u8]) -> (r: Result<Vec<u8>, HexFault>)
    ensures
        match hex_decode_result(s@) {
            Ok(bytes) => r matches Ok(v) && v@ == bytes,
            Err(fault) => r == Err::<Vec<u8>, HexFault>(fault),
        },
{
    match hex::decode(s) {
        Ok(v) => Ok(v),
        Err(hex::FromHexError::InvalidHexCharacter { c, index }) => Err(
            HexFault::InvalidHexCharacter { c, index },
        ),
        Err(hex::FromHexError::OddLength) => Err(HexFault::OddLength),
        Err(hex::FromHexError::InvalidStringLength) => Err(HexFault::InvalidStringLength),
    }
}

/// What `decode_signing_key` gives for a key written as the bytes `s`.
pub open spec fn signing_key_result(s: Seq<u8>) -> Result<Seq<u8>, LezError> {
    match hex_decode_result(s) {
        Err(fault) => Err(LezError::InvalidKeyHex(fault)),
        Ok(bytes) => if bytes.len() == SIGNING_KEY_LEN {
            Ok(bytes)
        } else {
            Err(LezError::InvalidKeyLength { len: bytes.len() as usize })
        },
    }
}

/// Decodes a hex-encoded 32-byte signing key.
///
/// Succeeds exactly when `hex_key` is 64 hex digits; the key is the bytes they
/// spell. Otherwise the error says why the hex is invalid, or how many bytes
/// it decodes to.
pub fn decode_signing_key(hex_key: &str) -> (r: Result<[u8; 32], LezError>)
    ensures
        match signing_key_result(hex_key.spec_bytes()) {
            Ok(bytes) => r matches Ok(k) && k@ == bytes,
            Err(e) => r == Err::<[u8; 32], LezError>(e),
        },
        r matches Ok(k) ==> hex_key.spec_bytes().len() == 2 * SIGNING_KEY_LEN && forall|i: int|
            0 <= i < SIGNING_KEY_LEN ==> #[trigger] k@[i] as int == hex_digit_value(
                hex_key.spec_bytes()[2 * i],
            ) * 16 + hex_digit_value(hex_key.spec_bytes()[2 * i + 1]),
{
    proof {
        lemma_signing_key_is_the_spelled_bytes(hex_key.spec_bytes());
    }
    let raw = hex_key.as_bytes();
    let decoded = hex_decode(raw);
    proof {
        if raw@.len() % 2 == 0 && !all_hex_digits(raw@) {
            lemma_first_non_hex_exists(raw@);
        }
    }
    match decoded {
        Err(fault) => Err(LezError::InvalidKeyHex(fault)),
        Ok(bytes) => {
            if bytes.len() != SIGNING_KEY_LEN {
                return Err(LezError::InvalidKeyLength { len: bytes.len() });
            }
            let mut key = [0u8; 32];
            let mut i: usize = 0;
            while i < SIGNING_KEY_LEN
                invariant
                    bytes@.len() == SIGNING_KEY_LEN,
                    0 <= i <= SIGNING_KEY_LEN,
                    forall|j: int| 0 <= j < i ==> key@[j] == bytes@[j],
                decreases SIGNING_KEY_LEN - i,
            {
                key[i] = bytes[i];
                i = i + 1;
            }
            assert(key@ =~= bytes@);
            Ok(key)
        },
    }
}

/// A signing key is accepted exactly when it is written as 64 hex digits.
pub proof fn lemma_signing_key_accepts(s: Seq<u8>)
    ensures
        signing_key_result(s) is Ok <==> (s.len() == 2 * SIGNING_KEY_LEN && all_hex_digits(s)),
{
    if s.len() % 2 == 0 && !all_hex_digits(s) {
        lemma_first_non_hex_exists(s);
    }
}

/// Why a signing key is refused, read from its text: an odd number of bytes
/// is an odd-length hex error; an even number of hex digits that spell other
/// than 32 bytes is a length error naming how many bytes they spell.
pub proof fn lemma_signing_key_refusals(s: Seq<u8>)
    ensures
        s.len() % 2 == 1 ==> signing_key_result(s) == Err::<Seq<u8>, LezError>(
            LezError::InvalidKeyHex(HexFault::OddLength),
        ),
        s.len() % 2 == 0 && all_hex_digits(s) && s.len() != 2 * SIGNING_KEY_LEN
            ==> signing_key_result(s) == Err::<Seq<u8>, LezError>(
            LezError::InvalidKeyLength { len: (s.len() / 2) as usize },
        ),
        forall|i: int|
            s.len() % 2 == 0 && #[trigger] first_non_hex(s, i) ==> signing_key_result(s) == Err::<
                Seq<u8>,
                LezError,
            >(LezError::InvalidKeyHex(HexFault::InvalidHexCharacter { c: s[i] as char, index: i as usize })),
{
    assert forall|i: int| s.len() % 2 == 0 && #[trigger] first_non_hex(s, i) implies signing_key_result(
        s,
    ) == Err::<Seq<u8>, LezError>(
        LezError::InvalidKeyHex(HexFault::InvalidHexCharacter { c: s[i] as char, index: i as usize }),
    ) by {
        assert(!all_hex_digits(s));
        let j = choose|j: int| first_non_hex(s, j);
        if j < i {
            assert(is_hex_digit(s[j]));
        } else if i < j {
            assert(is_hex_digit(s[i]));
        }
    }
}

/// An accepted signing key is the bytes its 64 hex digits spell, in order:
/// byte `i` is sixteen times the value of digit `2i` plus the value of digit
/// `2i + 1`.
pub proof fn lemma_signing_key_is_the_spelled_bytes(s: Seq<u8>)
    ensures
        signing_key_result(s) matches Ok(k) ==> s.len() == 2 * SIGNING_KEY_LEN && k.len()
            == SIGNING_KEY_LEN && forall|i: int|
            0 <= i < SIGNING_KEY_LEN ==> #[trigger] k[i] as int == hex_digit_value(s[2 * i]) * 16
                + hex_digit_value(s[2 * i + 1]),
{
    if signing_key_result(s) is Ok {
        lemma_signing_key_accepts(s);
        let k = signing_key_result(s)->Ok_0;
        assert forall|i: int| 0 <= i < SIGNING_KEY_LEN implies #[trigger] k[i] as int
            == hex_digit_value(s[2 * i]) * 16 + hex_digit_value(s[2 * i + 1]) by {
            assert(is_hex_digit(s[2 * i]));
            assert(is_hex_digit(s[2 * i + 1]));
            assert(0 <= hex_digit_value(s[2 * i]) < 16);
            assert(0 <= hex_digit_value(s[2 * i + 1]) < 16);
        }
    }
}

/// A byte sequence that is not all hex digits has a first non-hex position.
proof fn lemma_first_non_hex_exists(s: Seq<u8>)
    requires
        !all_hex_digits(s),
    ensures
        exists|i: int| first_non_hex(s, i),
    decreases s.len(),
{
    let k = choose|k: int| 0 <= k < s.len() && !is_hex_digit(s[k]);
    lemma_first_non_hex_below(s, k);
}

/// Below a position that holds no hex digit lies a first one.
proof fn lemma_first_non_hex_below(s: Seq<u8>, k: int)
    requires
        0 <= k < s.len(),
        !is_hex_digit(s[k]),
    ensures
        exists|i: int| first_non_hex(s, i),
    decreases k,
{
    if forall|j: int| 0 <= j < k ==> #[trigger] is_hex_digit(s[j]) {
        assert(first_non_hex(s, k));
    } else {
        let j = choose|j: int| 0 <= j < k && !is_hex_digit(s[j]);
        lemma_first_non_hex_below(s, j);
    }
}

} // verus!

verus! {

/// The parsed sequencer address, carried as an opaque value.
#[verifier::external_type_specification]
#[verifier::external_body]
pub struct ExUrl(url::Url);

/// What `url::Url::parse` gives for the text `s`: the URL it makes of it, or
/// the reason it refuses it. The URL standard that the parser implements
/// decides this; it depends on the text alone.
pub uninterp spec fn url_parse_outcome(s: Seq<char>) -> Result<url::Url, url::ParseError>;

/// Calls `url::Url::parse`. The contract claims that its result is the one
/// that `url_parse_outcome` names for the text.
#[verifier::external_body]
fn url_parse(s: &str) -> (r: Result<url::Url, url::ParseError>)
    ensures
        r == url_parse_outcome(s@),
{
    url::Url::parse(s)
}

/// Parses the configured sequencer URL: the URL the parser makes of the
/// text, or, for a text the URL parser refuses, an `InvalidSequencerUrl`
/// error carrying the parser's reason.
pub fn parse_sequencer_url(sequencer_url: &str) -> (r: Result<url::Url, LezError>)
    ensures
        match url_parse_outcome(sequencer_url@) {
            Ok(u) => r == Ok::<url::Url, LezError>(u),
            Err(e) => r == Err::<url::Url, LezError>(LezError::InvalidSequencerUrl(e)),
        },
{
    match url_parse(sequencer_url) {
        Ok(u) => Ok(u),
        Err(e) => Err(LezError::InvalidSequencerUrl(e)),
    }
}

} // verus!
