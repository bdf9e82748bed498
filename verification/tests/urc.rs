use rui3_radio::urc::URCMessages;

#[test]
fn signal_report_line_yields_peer_info() {
    let parsed = URCMessages::parse(b"+EVT:RXP2P, RSSI -42, SNR 7");
    assert_eq!(parsed, Some(URCMessages::PeerToPeerInfo { rssi: -42, snr: 7 }));
}

#[test]
fn hex_line_yields_peer_data() {
    let parsed = URCMessages::parse(b"+EVT:48656C6C6F");
    assert_eq!(
        parsed,
        Some(URCMessages::PeerToPeerData(vec![0x48, 0x65, 0x6C, 0x6C, 0x6F]))
    );
}

#[test]
fn line_shorter_than_sentinel_yields_no_event() {
    assert_eq!(URCMessages::parse(b"+EV"), None);
    assert_eq!(URCMessages::parse(b""), None);
}

#[test]
fn empty_remainder_yields_no_event() {
    assert_eq!(URCMessages::parse(b"+EVT:"), None);
}

#[test]
fn wrong_sentinel_yields_no_event() {
    assert_eq!(URCMessages::parse(b"+XYZ:48656C"), None);
    assert_eq!(URCMessages::parse(b"EVT+:48656C"), None);
}

#[test]
fn report_with_payload_yields_peer_message() {
    let parsed = URCMessages::parse(b"+EVT:RXP2P, RSSI -42, SNR 7, 48656C");
    assert_eq!(
        parsed,
        Some(URCMessages::PeerToPeerMessage {
            rssi: -42,
            snr: 7,
            data: vec![0x48, 0x65, 0x6C],
        })
    );
}

#[test]
fn positive_rssi_and_negative_snr_parse() {
    let parsed = URCMessages::parse(b"+EVT:RXP2P, RSSI 12, SNR -3");
    assert_eq!(parsed, Some(URCMessages::PeerToPeerInfo { rssi: 12, snr: -3 }));
}

#[test]
fn malformed_numeric_field_yields_no_event() {
    assert_eq!(URCMessages::parse(b"+EVT:RXP2P, RSSI xx, SNR 7"), None);
    assert_eq!(URCMessages::parse(b"+EVT:RXP2P, RSSI -, SNR 7"), None);
    assert_eq!(URCMessages::parse(b"+EVT:RXP2P, RSSI 1, SNR"), None);
}

#[test]
fn out_of_range_report_value_yields_no_event() {
    assert_eq!(URCMessages::parse(b"+EVT:RXP2P, RSSI -999999, SNR 7"), None);
    assert_eq!(URCMessages::parse(b"+EVT:RXP2P, RSSI 1, SNR 40000"), None);
}

#[test]
fn boundary_report_values_parse() {
    let parsed = URCMessages::parse(b"+EVT:RXP2P, RSSI -32768, SNR 32767");
    assert_eq!(
        parsed,
        Some(URCMessages::PeerToPeerInfo { rssi: -32768, snr: 32767 })
    );
}

#[test]
fn odd_length_hex_yields_no_event() {
    assert_eq!(URCMessages::parse(b"+EVT:ABC"), None);
}

#[test]
fn non_hex_remainder_yields_no_event() {
    assert_eq!(URCMessages::parse(b"+EVT:hello world"), None);
}

#[test]
fn lowercase_hex_remainder_is_accepted() {
    let parsed = URCMessages::parse(b"+EVT:ab01");
    assert_eq!(parsed, Some(URCMessages::PeerToPeerData(vec![0xAB, 0x01])));
}

#[test]
fn sentinel_framing_check() {
    assert!(URCMessages::matches_sentinel(b"+EVT:anything"));
    assert!(URCMessages::matches_sentinel(b"+EVT:"));
    assert!(!URCMessages::matches_sentinel(b"+EVT"));
    assert!(!URCMessages::matches_sentinel(b"OK"));
}

#[test]
fn trailing_garbage_after_report_yields_no_event() {
    assert_eq!(URCMessages::parse(b"+EVT:RXP2P, RSSI -42, SNR 7 extra"), None);
    assert_eq!(URCMessages::parse(b"+EVT:RXP2P, RSSI -42, SNR 7, XYZ"), None);
}
