use rui3_radio::commands::general::{
    Attention, FirmwareVersion, GetAlias, HardwareModel, McuReset, RestoreDefaultParameters,
    SerialNumber, SetAlias,
};
use rui3_radio::commands::p2p::{
    Bandwidth, CodeRate, Encrypted, GetEncryptionKey, GetEncryptionMode, GetIqInversion,
    GetNetworkWorkingMode, GetP2P, GetP2PBandwidth, GetP2PFrequency, GetP2PSpreadingFactor,
    GetSymbolTimeout, GetSyncWord, ReceiveData, ReceiveWindow, SendData, SetCodeRate,
    SetEncryptionKey, SetEncryptionMode, SetIqInversion, SetNetworkWorkingMode, SetP2P,
    SetP2PBandwidth, SetP2PFrequency, SetP2PSpreadingFactor, SetPreambleLength, SetSymbolTimeout,
    SetSyncWord, SetTxPower, WorkingMode,
};

#[test]
fn frequency_set_line() {
    let cmd = SetP2PFrequency { frequency: 868_000_000 };
    assert_eq!(cmd.wire(), b"AT+PFREQ=868000000".to_vec());
}

#[test]
fn spreading_factor_set_line() {
    let cmd = SetP2PSpreadingFactor { spreading_factor: 7 };
    assert_eq!(cmd.wire(), b"AT+PSF=7".to_vec());
}

#[test]
fn query_lines() {
    assert_eq!(GetNetworkWorkingMode {}.wire(), b"AT+NWM=?".to_vec());
    assert_eq!(GetP2PFrequency {}.wire(), b"AT+PFREQ=?".to_vec());
    assert_eq!(GetP2PSpreadingFactor {}.wire(), b"AT+PSF=?".to_vec());
    assert_eq!(GetP2PBandwidth {}.wire(), b"AT+PBW=?".to_vec());
    assert_eq!(GetEncryptionMode {}.wire(), b"AT+ENCRY=?".to_vec());
    assert_eq!(GetEncryptionKey {}.wire(), b"AT+ENCKEY=?".to_vec());
    assert_eq!(GetP2P {}.wire(), b"AT+P2P=?".to_vec());
    assert_eq!(GetIqInversion {}.wire(), b"AT+IQINVER=?".to_vec());
    assert_eq!(GetSyncWord {}.wire(), b"AT+SYNCWORD=?".to_vec());
    assert_eq!(GetSymbolTimeout {}.wire(), b"AT+SYMBOLTIMEOUT=?".to_vec());
}

#[test]
fn working_mode_set_line() {
    assert_eq!(
        SetNetworkWorkingMode { mode: WorkingMode::LoRaP2P }.wire(),
        b"AT+NWM=0".to_vec()
    );
    assert_eq!(
        SetNetworkWorkingMode { mode: WorkingMode::LoRaWan }.wire(),
        b"AT+NWM=1".to_vec()
    );
    assert_eq!(
        SetNetworkWorkingMode { mode: WorkingMode::FskP2P }.wire(),
        b"AT+NWM=2".to_vec()
    );
}

#[test]
fn receive_window_codes() {
    let stop = ReceiveData { window: ReceiveWindow::StopListening };
    let one = ReceiveData { window: ReceiveWindow::OnePacket };
    let cont = ReceiveData { window: ReceiveWindow::Continuous };
    let timed = ReceiveData { window: ReceiveWindow::Milliseconds(1000) };
    assert_eq!(stop.wire(), b"AT+PRECV=0".to_vec());
    assert_eq!(one.wire(), b"AT+PRECV=65535".to_vec());
    assert_eq!(cont.wire(), b"AT+PRECV=65534".to_vec());
    assert_eq!(timed.wire(), b"AT+PRECV=1000".to_vec());
}

#[test]
fn bandwidth_codes() {
    assert_eq!(
        SetP2PBandwidth { bandwidth: Bandwidth::LoRa125KHz }.wire(),
        b"AT+PBW=0".to_vec()
    );
    assert_eq!(
        SetP2PBandwidth { bandwidth: Bandwidth::LoRa62_5MHz }.wire(),
        b"AT+PBW=9".to_vec()
    );
    assert_eq!(
        SetP2PBandwidth { bandwidth: Bandwidth::FSK(150_000) }.wire(),
        b"AT+PBW=150000".to_vec()
    );
}

#[test]
fn code_rate_set_line() {
    assert_eq!(SetCodeRate { code_rate: CodeRate::PCR4_5 }.wire(), b"AT+PCR=0".to_vec());
    assert_eq!(SetCodeRate { code_rate: CodeRate::PCR4_8 }.wire(), b"AT+PCR=3".to_vec());
}

#[test]
fn preamble_and_power_set_lines() {
    assert_eq!(SetPreambleLength { preamble_length: 8 }.wire(), b"AT+PPL=8".to_vec());
    assert_eq!(SetTxPower { tx_power: 14 }.wire(), b"AT+PTP=14".to_vec());
}

#[test]
fn send_data_line_carries_payload_text() {
    let cmd = SendData { payload: b"0102".to_vec() };
    assert_eq!(cmd.wire(), b"AT+PSEND=0102".to_vec());
}

#[test]
fn encryption_set_lines() {
    assert_eq!(
        SetEncryptionMode { encryption: Encrypted::True }.wire(),
        b"AT+ENCRY=1".to_vec()
    );
    assert_eq!(
        SetEncryptionMode { encryption: Encrypted::False }.wire(),
        b"AT+ENCRY=0".to_vec()
    );
    assert_eq!(
        SetEncryptionKey { encryption_key: b"0123456789ABCDEF".to_vec() }.wire(),
        b"AT+ENCKEY=0123456789ABCDEF".to_vec()
    );
}

#[test]
fn combined_p2p_set_line() {
    let cmd = SetP2P {
        frequency: 868_000_000,
        spreading_factor: 7,
        bandwidth: Bandwidth::LoRa125KHz,
        code_rate: CodeRate::PCR4_5,
        preamble_length: 8,
        tx_power: 14,
    };
    assert_eq!(cmd.wire(), b"AT+P2P=868000000,7,0,0,8,14".to_vec());
}

#[test]
fn iq_inversion_sync_word_symbol_timeout_lines() {
    assert_eq!(SetIqInversion { iq_inversion: true }.wire(), b"AT+IQINVER=1".to_vec());
    assert_eq!(SetIqInversion { iq_inversion: false }.wire(), b"AT+IQINVER=0".to_vec());
    assert_eq!(
        SetSyncWord { sync_word: b"1424".to_vec() }.wire(),
        b"AT+SYNCWORD=1424".to_vec()
    );
    assert_eq!(SetSymbolTimeout { symbol_timeout: 5 }.wire(), b"AT+SYMBOLTIMEOUT=5".to_vec());
}

#[test]
fn general_command_lines() {
    assert_eq!(Attention {}.wire(), b"AT".to_vec());
    assert_eq!(McuReset {}.wire(), b"ATZ".to_vec());
    assert_eq!(RestoreDefaultParameters {}.wire(), b"ATR".to_vec());
    assert_eq!(SerialNumber {}.wire(), b"AT+SN=?".to_vec());
    assert_eq!(FirmwareVersion {}.wire(), b"AT+VER=?".to_vec());
    assert_eq!(HardwareModel {}.wire(), b"AT+HWMODEL=?".to_vec());
    assert_eq!(SetAlias {}.wire(), b"AT+ALIAS".to_vec());
    assert_eq!(GetAlias {}.wire(), b"AT+ALIAS=?".to_vec());
}
