use rui3_radio::RadioError;
use rui3_radio::commands::p2p::{Bandwidth, CodeRate, Encrypted, WorkingMode};
use rui3_radio::responses::general::{
    AliasResponse, FirmwareVersionResponse, HardwareVersionResponse, SerialNumberResponse,
};
use rui3_radio::responses::p2p::{
    NetworkWorkingModeResponse, P2PBandwidth, P2PCodeRate, P2PEncryptionKey, P2PEncryptionMode,
    P2PFrequencyResponse, P2PIQInversion, P2PPreambleLength, P2PSpreadingFactorResponse,
    P2PSymbolTimeout, P2PSyncWord, P2PTxPower, P2Pparameters,
};

#[test]
fn working_mode_replies() {
    assert_eq!(
        NetworkWorkingModeResponse::parse(b"0").unwrap().mode,
        WorkingMode::LoRaP2P
    );
    assert_eq!(
        NetworkWorkingModeResponse::parse(b"2").unwrap().mode,
        WorkingMode::FskP2P
    );
    assert_eq!(
        NetworkWorkingModeResponse::parse(b"5"),
        Err(RadioError::ReplyShapeMismatch)
    );
    assert_eq!(
        NetworkWorkingModeResponse::parse(b""),
        Err(RadioError::ReplyShapeMismatch)
    );
}

#[test]
fn frequency_replies() {
    assert_eq!(
        P2PFrequencyResponse::parse(b"868000000").unwrap().frequency,
        868_000_000
    );
    assert_eq!(P2PFrequencyResponse::parse(b"0").unwrap().frequency, 0);
    assert_eq!(
        P2PFrequencyResponse::parse(b"4294967295").unwrap().frequency,
        u32::MAX
    );
    assert_eq!(
        P2PFrequencyResponse::parse(b"4294967296"),
        Err(RadioError::ReplyShapeMismatch)
    );
    assert_eq!(
        P2PFrequencyResponse::parse(b"86800000x"),
        Err(RadioError::ReplyShapeMismatch)
    );
    assert_eq!(
        P2PFrequencyResponse::parse(b"-1"),
        Err(RadioError::ReplyShapeMismatch)
    );
}

#[test]
fn spreading_factor_replies() {
    assert_eq!(
        P2PSpreadingFactorResponse::parse(b"7").unwrap().spreading_factor,
        7
    );
    assert_eq!(
        P2PSpreadingFactorResponse::parse(b"256"),
        Err(RadioError::ReplyShapeMismatch)
    );
}

#[test]
fn bandwidth_replies() {
    assert_eq!(
        P2PBandwidth::parse(b"0").unwrap().bandwidth,
        Bandwidth::LoRa125KHz
    );
    assert_eq!(
        P2PBandwidth::parse(b"9").unwrap().bandwidth,
        Bandwidth::LoRa62_5MHz
    );
    assert_eq!(
        P2PBandwidth::parse(b"150000").unwrap().bandwidth,
        Bandwidth::FSK(150_000)
    );
    assert_eq!(P2PBandwidth::parse(b"abc"), Err(RadioError::ReplyShapeMismatch));
    assert_eq!(P2PBandwidth::parse(b""), Err(RadioError::ReplyShapeMismatch));
}

#[test]
fn code_rate_replies() {
    assert_eq!(P2PCodeRate::parse(b"1").unwrap().code_rate, CodeRate::PCR4_6);
    assert_eq!(P2PCodeRate::parse(b"4"), Err(RadioError::ReplyShapeMismatch));
}

#[test]
fn preamble_length_replies() {
    assert_eq!(P2PPreambleLength::parse(b"8").unwrap().preamble_length, 8);
    assert_eq!(
        P2PPreambleLength::parse(b"65535").unwrap().preamble_length,
        65535
    );
    assert_eq!(
        P2PPreambleLength::parse(b"65536"),
        Err(RadioError::ReplyShapeMismatch)
    );
}

#[test]
fn tx_power_replies() {
    assert_eq!(P2PTxPower::parse(b"14").unwrap().tx_power, 14);
    assert_eq!(P2PTxPower::parse(b"300"), Err(RadioError::ReplyShapeMismatch));
}

#[test]
fn encryption_mode_replies() {
    assert_eq!(
        P2PEncryptionMode::parse(b"0").unwrap().encryption,
        Encrypted::False
    );
    assert_eq!(
        P2PEncryptionMode::parse(b"1").unwrap().encryption,
        Encrypted::True
    );
    assert_eq!(
        P2PEncryptionMode::parse(b"2"),
        Err(RadioError::ReplyShapeMismatch)
    );
}

#[test]
fn encryption_key_replies() {
    assert_eq!(
        P2PEncryptionKey::parse(b"0123456789ABCDEF").unwrap().encryption_key,
        b"0123456789ABCDEF".to_vec()
    );
    assert_eq!(P2PEncryptionKey::parse(b"").unwrap().encryption_key, Vec::<u8>::new());
    assert_eq!(
        P2PEncryptionKey::parse(b"0123456789ABCDEF0"),
        Err(RadioError::ReplyShapeMismatch)
    );
}

#[test]
fn iq_inversion_sync_word_symbol_timeout_replies() {
    assert!(P2PIQInversion::parse(b"1").unwrap().iq_inversion);
    assert!(!P2PIQInversion::parse(b"0").unwrap().iq_inversion);
    assert_eq!(P2PIQInversion::parse(b"3"), Err(RadioError::ReplyShapeMismatch));
    assert_eq!(P2PSyncWord::parse(b"1424").unwrap().sync_word, b"1424".to_vec());
    assert_eq!(
        P2PSyncWord::parse(b"14240"),
        Err(RadioError::ReplyShapeMismatch)
    );
    assert_eq!(P2PSymbolTimeout::parse(b"5").unwrap().symbol_timeout, 5);
}

#[test]
fn combined_parameter_reply() {
    let p = P2Pparameters::parse(b"868000000,7,0,1,8,14").unwrap();
    assert_eq!(p.frequency, 868_000_000);
    assert_eq!(p.spreading_factor, 7);
    assert_eq!(p.bandwidth, Bandwidth::LoRa125KHz);
    assert_eq!(p.coderate, CodeRate::PCR4_6);
    assert_eq!(p.preamblelength, 8);
    assert_eq!(p.txpower, 14);
}

#[test]
fn combined_parameter_reply_with_fsk_bandwidth() {
    let p = P2Pparameters::parse(b"868000000,7,150000,0,8,14").unwrap();
    assert_eq!(p.bandwidth, Bandwidth::FSK(150_000));
}

#[test]
fn combined_parameter_reply_shape_mismatches() {
    assert_eq!(
        P2Pparameters::parse(b"868000000,7,0,1,8"),
        Err(RadioError::ReplyShapeMismatch)
    );
    assert_eq!(
        P2Pparameters::parse(b"868000000,7,0,1,8,14,3"),
        Err(RadioError::ReplyShapeMismatch)
    );
    assert_eq!(
        P2Pparameters::parse(b"868000000,x,0,1,8,14"),
        Err(RadioError::ReplyShapeMismatch)
    );
    assert_eq!(P2Pparameters::parse(b""), Err(RadioError::ReplyShapeMismatch));
}

#[test]
fn general_replies() {
    assert_eq!(
        SerialNumberResponse::parse(b"0123456789").unwrap().serial_number,
        b"0123456789".to_vec()
    );
    assert_eq!(
        SerialNumberResponse::parse(b"0123456789012345678"),
        Err(RadioError::ReplyShapeMismatch)
    );
    assert_eq!(
        FirmwareVersionResponse::parse(b"RUI_4.1.0").unwrap().firmware_version,
        b"RUI_4.1.0".to_vec()
    );
    assert_eq!(
        HardwareVersionResponse::parse(b"rak3172").unwrap().hardware_version,
        b"rak3172".to_vec()
    );
    assert_eq!(AliasResponse::parse(b"node-7").unwrap().alias, b"node-7".to_vec());
}
