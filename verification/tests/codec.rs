use rui3_radio::RadioError;
use rui3_radio::codec::{decode, encode};

#[test]
fn encode_renders_uppercase_pairs() {
    let data = [0x48u8, 0x65, 0x6C, 0x6C, 0x6F];
    assert_eq!(encode(&data), b"48656C6C6F".to_vec());
}

#[test]
fn encode_empty_is_empty() {
    let data: [u8; 0] = [];
    assert_eq!(encode(&data), Vec::<u8>::new());
}

#[test]
fn encode_low_bytes_keep_leading_zero() {
    let data = [0x00u8, 0x01, 0x0F];
    assert_eq!(encode(&data), b"00010F".to_vec());
}

#[test]
fn decode_even_hex_returns_half_length() {
    let decoded = decode(b"48656C6C6F").unwrap();
    assert_eq!(decoded, vec![0x48u8, 0x65, 0x6C, 0x6C, 0x6F]);
    assert_eq!(decoded.len(), "48656C6C6F".len() / 2);
}

#[test]
fn decode_accepts_lowercase() {
    assert_eq!(decode(b"ab01ff").unwrap(), vec![0xABu8, 0x01, 0xFF]);
}

#[test]
fn decode_empty_is_empty() {
    assert_eq!(decode(b"").unwrap(), Vec::<u8>::new());
}

#[test]
fn decode_odd_length_is_malformed() {
    assert_eq!(decode(b"ABC"), Err(RadioError::MalformedHex));
}

#[test]
fn decode_non_hex_is_malformed() {
    assert_eq!(decode(b"4G"), Err(RadioError::MalformedHex));
    assert_eq!(decode(b"  "), Err(RadioError::MalformedHex));
}

#[test]
fn round_trip_every_byte_value() {
    for b in 0u16..=255u16 {
        let data = [b as u8];
        assert_eq!(decode(&encode(&data)).unwrap(), data.to_vec());
    }
}

#[test]
fn round_trip_longer_payload() {
    let data: Vec<u8> = (0u16..=255u16).map(|b| b as u8).collect();
    assert_eq!(decode(&encode(&data)).unwrap(), data);
}

#[test]
fn reencoding_decoded_text_is_canonical_uppercase() {
    let decoded = decode(b"ab01ff").unwrap();
    assert_eq!(encode(&decoded), b"AB01FF".to_vec());
}
