use lez_client::config::{decode_signing_key, parse_sequencer_url};
use lez_client::error::{HexFault, LezError};

#[test]
fn signing_key_decodes_64_hex_digits() {
    let hex_key = "000102030405060708090a0b0c0d0e0f101112131415161718191A1B1C1D1E1F";
    let key = decode_signing_key(hex_key).unwrap();
    let expected: Vec<u8> = (0u8..32).collect();
    assert_eq!(key.to_vec(), expected);
}

#[test]
fn signing_key_all_ff() {
    let hex_key = "ff".repeat(32);
    assert_eq!(decode_signing_key(&hex_key).unwrap(), [0xffu8; 32]);
}

#[test]
fn signing_key_odd_length_is_hex_error() {
    let r = decode_signing_key("abc");
    assert!(matches!(r, Err(LezError::InvalidKeyHex(HexFault::OddLength))));
}

#[test]
fn signing_key_bad_digit_reports_first_position() {
    let mut hex_key = "ab".repeat(32);
    hex_key.replace_range(5..6, "g");
    hex_key.replace_range(9..10, "z");
    let r = decode_signing_key(&hex_key);
    assert!(matches!(
        r,
        Err(LezError::InvalidKeyHex(HexFault::InvalidHexCharacter { c: 'g', index: 5 }))
    ));
}

#[test]
fn signing_key_of_wrong_length_is_length_error() {
    let r = decode_signing_key(&"12".repeat(31));
    assert!(matches!(r, Err(LezError::InvalidKeyLength { len: 31 })));
    let r = decode_signing_key(&"12".repeat(33));
    assert!(matches!(r, Err(LezError::InvalidKeyLength { len: 33 })));
    let r = decode_signing_key("");
    assert!(matches!(r, Err(LezError::InvalidKeyLength { len: 0 })));
}

#[test]
fn signing_key_with_non_ascii_is_refused() {
    let mut hex_key = "00".repeat(31);
    hex_key.push_str("é");
    let r = decode_signing_key(&hex_key);
    assert!(matches!(r, Err(LezError::InvalidKeyHex(HexFault::InvalidHexCharacter { index: 62, .. }))));
}

#[test]
fn sequencer_url_parses() {
    let url = parse_sequencer_url("http://127.0.0.1:3040").unwrap();
    assert_eq!(url.as_str(), "http://127.0.0.1:3040/");
    let url = parse_sequencer_url("https://sequencer.example.org:8443/rpc").unwrap();
    assert_eq!(url.as_str(), "https://sequencer.example.org:8443/rpc");
}

#[test]
fn sequencer_url_without_scheme_is_refused() {
    let r = parse_sequencer_url("localhost-no-scheme");
    assert!(matches!(
        r,
        Err(LezError::InvalidSequencerUrl(url::ParseError::RelativeUrlWithoutBase))
    ));
}

#[test]
fn sequencer_url_with_bad_port_is_refused() {
    let r = parse_sequencer_url("http://127.0.0.1:99999");
    assert!(matches!(r, Err(LezError::InvalidSequencerUrl(url::ParseError::InvalidPort))));
}
