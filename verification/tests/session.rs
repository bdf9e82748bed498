use rui3_radio::Configuration;
use rui3_radio::commands::Command;
use rui3_radio::commands::p2p::{Bandwidth, CodeRate, Encrypted, ReceiveWindow, WorkingMode};
use rui3_radio::responses::p2p::{
    NetworkWorkingModeResponse, P2PBandwidth, P2PCodeRate, P2PEncryptionKey, P2PEncryptionMode,
    P2PFrequencyResponse, P2PPreambleLength, P2PSpreadingFactorResponse, P2PTxPower,
};
use rui3_radio::session::{
    CommandSequence, RadioSession, ReceiveDecision, arm_plan, assemble_configuration,
    configure_plan, read_configuration_queries, send_plan,
};
use rui3_radio::urc::URCMessages;

#[test]
fn send_plan_issues_three_ordered_commands() {
    let plan = send_plan(&[0x01, 0x02]);
    assert_eq!(plan.len(), 3);
    assert_eq!(plan[0].command.wire(), b"AT+PRECV=0".to_vec());
    assert!(!plan[0].retry);
    assert_eq!(plan[1].command.wire(), b"AT+PSEND=0102".to_vec());
    assert!(plan[1].retry);
    assert_eq!(plan[2].command.wire(), b"AT+PRECV=65534".to_vec());
    assert!(!plan[2].retry);
}

#[test]
fn send_plan_hex_encodes_payload() {
    let plan = send_plan(&[0xDE, 0xAD, 0xBE, 0xEF]);
    match &plan[1].command {
        Command::SendData(sd) => assert_eq!(sd.payload, b"DEADBEEF".to_vec()),
        other => panic!("expected a send-data command, got {:?}", other),
    }
}

#[test]
fn failed_send_step_stops_the_sequence() {
    let mut seq = CommandSequence::new(send_plan(&[0x01, 0x02]));
    let first = seq.current().unwrap().command.wire();
    assert_eq!(first, b"AT+PRECV=0".to_vec());
    seq.advance(true);
    let second = seq.current().unwrap().command.wire();
    assert_eq!(second, b"AT+PSEND=0102".to_vec());
    // The data step fails after the transport exhausted its retries: the
    // re-arm command is never issued.
    seq.advance(false);
    assert!(seq.current().is_none());
    assert!(seq.has_failed());
    assert!(!seq.succeeded());
}

#[test]
fn completed_sequence_succeeds() {
    let mut seq = CommandSequence::new(send_plan(&[0x01]));
    while let Some(_) = seq.current() {
        seq.advance(true);
    }
    assert!(seq.succeeded());
    assert!(!seq.has_failed());
}

#[test]
fn default_configuration_values() {
    let c = Configuration::default();
    assert_eq!(c.working_mode, WorkingMode::LoRaP2P);
    assert_eq!(c.frequency, 868_000_000);
    assert_eq!(c.spreading_factor, 7);
    assert_eq!(c.bandwidth, Bandwidth::LoRa125KHz);
    assert_eq!(c.code_rate, CodeRate::PCR4_5);
    assert_eq!(c.preamble_length, 8);
    assert_eq!(c.tx_power, 14);
    assert_eq!(c.encrypted, Encrypted::False);
    assert_eq!(c.encryption_key, Vec::<u8>::new());
}

#[test]
fn configure_default_renders_documented_parameters() {
    let plan = configure_plan(&Configuration::default());
    assert_eq!(plan.len(), 6);
    assert_eq!(plan[0].command.wire(), b"AT+PFREQ=868000000".to_vec());
    assert_eq!(plan[1].command.wire(), b"AT+PSF=7".to_vec());
    assert_eq!(plan[2].command.wire(), b"AT+PBW=0".to_vec());
    assert_eq!(plan[3].command.wire(), b"AT+PCR=0".to_vec());
    assert_eq!(plan[4].command.wire(), b"AT+PPL=8".to_vec());
    assert_eq!(plan[5].command.wire(), b"AT+PTP=14".to_vec());
    assert!(plan.iter().all(|p| !p.retry));
}

#[test]
fn read_configuration_queries_in_order() {
    let queries = read_configuration_queries();
    let wires: Vec<Vec<u8>> = queries.iter().map(|q| q.command.wire()).collect();
    assert_eq!(
        wires,
        vec![
            b"AT+NWM=?".to_vec(),
            b"AT+PFREQ=?".to_vec(),
            b"AT+PSF=?".to_vec(),
            b"AT+PBW=?".to_vec(),
            b"AT+PCR=?".to_vec(),
            b"AT+PPL=?".to_vec(),
            b"AT+PTP=?".to_vec(),
            b"AT+ENCKEY=?".to_vec(),
            b"AT+ENCRY=?".to_vec(),
        ]
    );
}

#[test]
fn read_then_configure_reproduces_parameter_text() {
    // The device's replies to the read queries, in query order.
    let mode = NetworkWorkingModeResponse::parse(b"0").unwrap();
    let frequency = P2PFrequencyResponse::parse(b"868000000").unwrap();
    let spreading_factor = P2PSpreadingFactorResponse::parse(b"7").unwrap();
    let bandwidth = P2PBandwidth::parse(b"150000").unwrap();
    let code_rate = P2PCodeRate::parse(b"2").unwrap();
    let preamble_length = P2PPreambleLength::parse(b"8").unwrap();
    let tx_power = P2PTxPower::parse(b"14").unwrap();
    let encryption_key = P2PEncryptionKey::parse(b"").unwrap();
    let encryption_mode = P2PEncryptionMode::parse(b"0").unwrap();
    let c = assemble_configuration(
        mode,
        frequency,
        spreading_factor,
        bandwidth,
        code_rate,
        preamble_length,
        tx_power,
        encryption_key,
        encryption_mode,
    );
    let plan = configure_plan(&c);
    assert_eq!(plan[0].command.wire(), b"AT+PFREQ=868000000".to_vec());
    assert_eq!(plan[1].command.wire(), b"AT+PSF=7".to_vec());
    assert_eq!(plan[2].command.wire(), b"AT+PBW=150000".to_vec());
    assert_eq!(plan[3].command.wire(), b"AT+PCR=2".to_vec());
    assert_eq!(plan[4].command.wire(), b"AT+PPL=8".to_vec());
    assert_eq!(plan[5].command.wire(), b"AT+PTP=14".to_vec());
}

#[test]
fn arm_plan_renders_the_window() {
    let plan = arm_plan(&ReceiveWindow::OnePacket);
    assert_eq!(plan.len(), 1);
    assert_eq!(plan[0].command.wire(), b"AT+PRECV=65535".to_vec());
}

#[test]
fn poll_updates_signal_quality_and_returns_empty() {
    let mut session = RadioSession::new();
    assert_eq!(session.get_rssi(), 0);
    assert_eq!(session.get_snr(), 0);
    let out = session.poll(Some(URCMessages::PeerToPeerInfo { rssi: -42, snr: 7 }));
    assert_eq!(out, Vec::<u8>::new());
    assert_eq!(session.get_rssi(), -42);
    assert_eq!(session.get_snr(), 7);
}

#[test]
fn poll_returns_payload_data() {
    let mut session = RadioSession::new();
    let out = session.poll(Some(URCMessages::PeerToPeerData(vec![1, 2, 3])));
    assert_eq!(out, vec![1, 2, 3]);
    assert_eq!(session.get_rssi(), 0);
}

#[test]
fn poll_with_nothing_pending_is_empty() {
    let mut session = RadioSession::new();
    assert_eq!(session.poll(None), Vec::<u8>::new());
}

#[test]
fn continuous_receive_returns_empty_when_idle() {
    let mut session = RadioSession::new();
    let d = session.receive_decision(&ReceiveWindow::Continuous, None, false);
    assert_eq!(d, ReceiveDecision::Deliver(Vec::new()));
}

#[test]
fn continuous_receive_keeps_polling_after_a_report() {
    let mut session = RadioSession::new();
    let d = session.receive_decision(
        &ReceiveWindow::Continuous,
        Some(URCMessages::PeerToPeerInfo { rssi: -50, snr: 9 }),
        false,
    );
    assert_eq!(d, ReceiveDecision::PollAgain);
    assert_eq!(session.get_rssi(), -50);
    assert_eq!(session.get_snr(), 9);
}

#[test]
fn receive_delivers_payload_in_any_window() {
    let mut session = RadioSession::new();
    let d = session.receive_decision(
        &ReceiveWindow::OnePacket,
        Some(URCMessages::PeerToPeerData(vec![0x42])),
        false,
    );
    assert_eq!(d, ReceiveDecision::Deliver(vec![0x42]));
}

#[test]
fn one_packet_receive_waits_when_idle() {
    let mut session = RadioSession::new();
    let d = session.receive_decision(&ReceiveWindow::OnePacket, None, false);
    assert_eq!(d, ReceiveDecision::PollAgain);
}

#[test]
fn timed_receive_waits_until_deadline() {
    let mut session = RadioSession::new();
    let waiting = session.receive_decision(&ReceiveWindow::Milliseconds(100), None, false);
    assert_eq!(waiting, ReceiveDecision::PollAgain);
    let done = session.receive_decision(&ReceiveWindow::Milliseconds(100), None, true);
    assert_eq!(done, ReceiveDecision::Deliver(Vec::new()));
}

#[test]
fn combined_report_updates_signal_quality_without_delivering() {
    let mut session = RadioSession::new();
    let out = session.poll(Some(URCMessages::PeerToPeerMessage {
        rssi: -60,
        snr: 11,
        data: vec![0x01],
    }));
    assert_eq!(out, Vec::<u8>::new());
    assert_eq!(session.get_rssi(), -60);
    assert_eq!(session.get_snr(), 11);
}

#[test]
fn timed_receive_still_delivers_payload_at_deadline() {
    let mut session = RadioSession::new();
    let d = session.receive_decision(
        &ReceiveWindow::Milliseconds(100),
        Some(URCMessages::PeerToPeerData(vec![0x99])),
        true,
    );
    assert_eq!(d, ReceiveDecision::Deliver(vec![0x99]));
}

#[test]
fn stopped_window_has_nothing_to_wait_for() {
    let mut session = RadioSession::new();
    let d = session.receive_decision(&ReceiveWindow::StopListening, None, false);
    assert_eq!(d, ReceiveDecision::Deliver(Vec::new()));
}
