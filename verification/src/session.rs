//! Session engine: the sequencing rules of the radio session.
//!
//! The engine itself performs no I/O. Each operation is planned as an
//! ordered command sequence (`send_plan`, `configure_plan`,
//! `read_configuration_queries`), issued step by step through a fail-fast
//! `CommandSequence`, and each incoming notification is folded into the
//! session state by `poll` or `receive_decision`. The caller owns the
//! transport: it renders each planned command with `Command::wire`, reports
//! every outcome back, and hands in each notification line after parsing.

use vstd::prelude::*;

use crate::Configuration;
use crate::codec::{encode, hex_rep};
use crate::commands::p2p::{
    GetCodeRate, GetEncryptionKey, GetEncryptionMode, GetNetworkWorkingMode, GetP2PBandwidth,
    GetP2PFrequency, GetP2PSpreadingFactor, GetPreambleLength, GetTxPower, ReceiveData,
    ReceiveWindow, SendData, SetCodeRate, SetP2PBandwidth, SetP2PFrequency,
    SetP2PSpreadingFactor, SetPreambleLength, SetTxPower,
};
use crate::commands::{Command, PlannedCommand};
use crate::responses::p2p::{
    NetworkWorkingModeResponse, P2PBandwidth, P2PCodeRate, P2PEncryptionKey, P2PEncryptionMode,
    P2PFrequencyResponse, P2PPreambleLength, P2PSpreadingFactorResponse, P2PTxPower,
    bandwidth_from_wire, code_rate_from_wire, lemma_bandwidth_reply_canonical,
    lemma_code_rate_reply_canonical,
};
use crate::text::{dec_seq_val, is_canonical_dec, lemma_canonical_dec_rep};
use crate::wire::{Mnemonic, set_line};
use crate::urc::URCMessages;

verus! {

/// One radio session: the cached signal quality of the link.
///
/// The caller creates one per physical link, next to its transport handle.
#[derive(Clone, Copy, Debug, PartialEq, Eq, Structural)]
pub struct RadioSession {
    /// The most recent received-signal-strength indicator.
    pub rssi: i16,
    /// The most recent signal-to-noise ratio.
    pub snr: i16,
}

/// What a receive loop does after one poll step: return to the caller with
/// the payload (possibly empty), or poll again.
#[derive(Clone, Debug, PartialEq, Eq)]
pub enum ReceiveDecision {
    Deliver(Vec<u8>),
    PollAgain,
}

impl RadioSession {
    /// A fresh session with no signal report seen yet.
    pub fn new() -> (s: Self)
        ensures
            s.rssi == 0i16,
            s.snr == 0i16,
    {
        RadioSession { rssi: 0, snr: 0 }
    }

    /// The cached received-signal-strength indicator.
    pub fn get_rssi(&self) -> (r: i16)
        ensures
            r == self.rssi,
    {
        self.rssi
    }

    /// The cached signal-to-noise ratio.
    pub fn get_snr(&self) -> (r: i16)
        ensures
            r == self.snr,
    {
        self.snr
    }

    /// Consumes at most one pending notification: a payload is returned,
    /// a signal report (combined or not) only updates the cached signal
    /// quality, and no notification yields an empty result.
    pub fn poll(&mut self, urc: Option<URCMessages>) -> (r: Vec<u8>)
        ensures
            urc is None ==> r@.len() == 0 && *final(self) == *old(self),
            urc matches Some(URCMessages::PeerToPeerData(d)) ==> r@ == d@ && *final(self) == *old(self),
            urc matches Some(URCMessages::PeerToPeerInfo { rssi, snr }) ==> r@.len() == 0
                && final(self).rssi == rssi && final(self).snr == snr,
            urc matches Some(URCMessages::PeerToPeerMessage { rssi, snr, .. }) ==> r@.len() == 0
                && final(self).rssi == rssi && final(self).snr == snr,
    {
        match urc {
            Some(URCMessages::PeerToPeerData(d)) => d,
            Some(URCMessages::PeerToPeerInfo { rssi, snr }) => {
                self.rssi = rssi;
                self.snr = snr;
                Vec::new()
            },
            Some(URCMessages::PeerToPeerMessage { rssi, snr, data: _ }) => {
                self.rssi = rssi;
                self.snr = snr;
                Vec::new()
            },
            _ => Vec::new(),
        }
    }

    /// One step of a receive loop under the given window.
    ///
    /// A payload notification is delivered at once. A signal report updates
    /// the cached signal quality and the loop polls on. When nothing is
    /// pending, a continuous-window receive returns empty (absence of a
    /// notification is treated as end of data), a one-packet receive keeps
    /// waiting, a timed receive keeps waiting until its caller reports the
    /// deadline reached, and a stopped window has nothing to wait for.
    pub fn receive_decision(
        &mut self,
        window: &ReceiveWindow,
        urc: Option<URCMessages>,
        deadline_reached: bool,
    ) -> (r: ReceiveDecision)
        ensures
            urc matches Some(URCMessages::PeerToPeerInfo { rssi, snr }) ==> final(self).rssi
                == rssi && final(self).snr == snr,
            urc matches Some(URCMessages::PeerToPeerMessage { rssi, snr, .. }) ==> final(self).rssi
                == rssi && final(self).snr == snr,
            (urc is None || urc matches Some(URCMessages::PeerToPeerData(_))) ==> *final(self)
                == *old(self),
            urc matches Some(URCMessages::PeerToPeerData(d)) ==> (r matches ReceiveDecision::Deliver(v)
                && v@ == d@),
            !(urc matches Some(URCMessages::PeerToPeerData(_))) ==> (match *window {
                ReceiveWindow::Continuous => if urc is None {
                    r matches ReceiveDecision::Deliver(v) && v@.len() == 0
                } else {
                    r is PollAgain
                },
                ReceiveWindow::OnePacket => r is PollAgain,
                ReceiveWindow::Milliseconds(_) => if deadline_reached {
                    r matches ReceiveDecision::Deliver(v) && v@.len() == 0
                } else {
                    r is PollAgain
                },
                ReceiveWindow::StopListening => (r matches ReceiveDecision::Deliver(v)
                    && v@.len() == 0),
            }),
    {
        let had_urc = match &urc {
            Some(_) => true,
            _ => false,
        };
        match urc {
            Some(URCMessages::PeerToPeerData(d)) => {
                return ReceiveDecision::Deliver(d);
            },
            Some(URCMessages::PeerToPeerInfo { rssi, snr }) => {
                self.rssi = rssi;
                self.snr = snr;
            },
            Some(URCMessages::PeerToPeerMessage { rssi, snr, data: _ }) => {
                self.rssi = rssi;
                self.snr = snr;
            },
            _ => {},
        }
        match window {
            ReceiveWindow::Continuous => {
                if had_urc {
                    ReceiveDecision::PollAgain
                } else {
                    ReceiveDecision::Deliver(Vec::new())
                }
            },
            ReceiveWindow::OnePacket => ReceiveDecision::PollAgain,
            ReceiveWindow::Milliseconds(_) => {
                if deadline_reached {
                    ReceiveDecision::Deliver(Vec::new())
                } else {
                    ReceiveDecision::PollAgain
                }
            },
            ReceiveWindow::StopListening => ReceiveDecision::Deliver(Vec::new()),
        }
    }
}

/// The ordered command sequence of one send exchange: stop listening, submit
/// the hex-encoded payload (the one step the transport may resend), then
/// re-arm continuous listening.
///
/// The payload is bounded so that the rendered line fits the transport's
/// 500-byte command buffer with its terminator.
pub fn send_plan(data: &[u8]) -> (r: Vec<PlannedCommand>)
    requires
        data@.len() <= 249,
    ensures
        r@.len() == 3,
        r@[0] == (PlannedCommand {
            command: Command::ReceiveData(ReceiveData { window: ReceiveWindow::StopListening }),
            retry: false,
        }),
        r@[1].command matches Command::SendData(sd) && sd.payload@ == hex_rep(data@),
        r@[1].retry == true,
        r@[2] == (PlannedCommand {
            command: Command::ReceiveData(ReceiveData { window: ReceiveWindow::Continuous }),
            retry: false,
        }),
{
    let payload = encode(data);
    let mut r: Vec<PlannedCommand> = Vec::new();
    r.push(
        PlannedCommand {
            command: Command::ReceiveData(ReceiveData { window: ReceiveWindow::StopListening }),
            retry: false,
        },
    );
    r.push(PlannedCommand { command: Command::SendData(SendData { payload }), retry: true });
    r.push(
        PlannedCommand {
            command: Command::ReceiveData(ReceiveData { window: ReceiveWindow::Continuous }),
            retry: false,
        },
    );
    r
}

/// The single arming command for a receive window; also the whole plan of a
/// window change.
pub fn arm_plan(window: &ReceiveWindow) -> (r: Vec<PlannedCommand>)
    ensures
        r@.len() == 1,
        r@[0] == (PlannedCommand {
            command: Command::ReceiveData(ReceiveData { window: *window }),
            retry: false,
        }),
{
    let mut r: Vec<PlannedCommand> = Vec::new();
    r.push(
        PlannedCommand { command: Command::ReceiveData(ReceiveData { window: *window }), retry: false },
    );
    r
}

/// The ordered Set sequence of a configure exchange: frequency, spreading
/// factor, bandwidth, code rate, preamble length, transmit power. Each step
/// is awaited individually and never resent; the first failure aborts the
/// rest.
pub fn configure_plan(configuration: &Configuration) -> (r: Vec<PlannedCommand>)
    ensures
        r@.len() == 6,
        r@[0] == (PlannedCommand {
            command: Command::SetP2PFrequency(SetP2PFrequency {
                frequency: configuration.frequency,
            }),
            retry: false,
        }),
        r@[1] == (PlannedCommand {
            command: Command::SetP2PSpreadingFactor(SetP2PSpreadingFactor {
                spreading_factor: configuration.spreading_factor,
            }),
            retry: false,
        }),
        r@[2] == (PlannedCommand {
            command: Command::SetP2PBandwidth(SetP2PBandwidth {
                bandwidth: configuration.bandwidth,
            }),
            retry: false,
        }),
        r@[3] == (PlannedCommand {
            command: Command::SetCodeRate(SetCodeRate { code_rate: configuration.code_rate }),
            retry: false,
        }),
        r@[4] == (PlannedCommand {
            command: Command::SetPreambleLength(SetPreambleLength {
                preamble_length: configuration.preamble_length,
            }),
            retry: false,
        }),
        r@[5] == (PlannedCommand {
            command: Command::SetTxPower(SetTxPower { tx_power: configuration.tx_power }),
            retry: false,
        }),
{
    let mut r: Vec<PlannedCommand> = Vec::new();
    r.push(
        PlannedCommand {
            command: Command::SetP2PFrequency(SetP2PFrequency {
                frequency: configuration.frequency,
            }),
            retry: false,
        },
    );
    r.push(
        PlannedCommand {
            command: Command::SetP2PSpreadingFactor(SetP2PSpreadingFactor {
                spreading_factor: configuration.spreading_factor,
            }),
            retry: false,
        },
    );
    r.push(
        PlannedCommand {
            command: Command::SetP2PBandwidth(SetP2PBandwidth {
                bandwidth: configuration.bandwidth,
            }),
            retry: false,
        },
    );
    r.push(
        PlannedCommand {
            command: Command::SetCodeRate(SetCodeRate { code_rate: configuration.code_rate }),
            retry: false,
        },
    );
    r.push(
        PlannedCommand {
            command: Command::SetPreambleLength(SetPreambleLength {
                preamble_length: configuration.preamble_length,
            }),
            retry: false,
        },
    );
    r.push(
        PlannedCommand {
            command: Command::SetTxPower(SetTxPower { tx_power: configuration.tx_power }),
            retry: false,
        },
    );
    r
}

/// The ordered Get sequence of a read-configuration exchange, symmetric to
/// `configure_plan` plus working mode and the encryption pair.
pub fn read_configuration_queries() -> (r: Vec<PlannedCommand>)
    ensures
        r@.len() == 9,
        r@[0].command == Command::GetNetworkWorkingMode(GetNetworkWorkingMode {}),
        r@[1].command == Command::GetP2PFrequency(GetP2PFrequency {}),
        r@[2].command == Command::GetP2PSpreadingFactor(GetP2PSpreadingFactor {}),
        r@[3].command == Command::GetP2PBandwidth(GetP2PBandwidth {}),
        r@[4].command == Command::GetCodeRate(GetCodeRate {}),
        r@[5].command == Command::GetPreambleLength(GetPreambleLength {}),
        r@[6].command == Command::GetTxPower(GetTxPower {}),
        r@[7].command == Command::GetEncryptionKey(GetEncryptionKey {}),
        r@[8].command == Command::GetEncryptionMode(GetEncryptionMode {}),
        forall|i: int| 0 <= i < 9 ==> r@[i].retry == false,
{
    let mut r: Vec<PlannedCommand> = Vec::new();
    r.push(
        PlannedCommand {
            command: Command::GetNetworkWorkingMode(GetNetworkWorkingMode {}),
            retry: false,
        },
    );
    r.push(
        PlannedCommand { command: Command::GetP2PFrequency(GetP2PFrequency {}), retry: false },
    );
    r.push(
        PlannedCommand {
            command: Command::GetP2PSpreadingFactor(GetP2PSpreadingFactor {}),
            retry: false,
        },
    );
    r.push(
        PlannedCommand { command: Command::GetP2PBandwidth(GetP2PBandwidth {}), retry: false },
    );
    r.push(PlannedCommand { command: Command::GetCodeRate(GetCodeRate {}), retry: false });
    r.push(
        PlannedCommand { command: Command::GetPreambleLength(GetPreambleLength {}), retry: false },
    );
    r.push(PlannedCommand { command: Command::GetTxPower(GetTxPower {}), retry: false });
    r.push(
        PlannedCommand { command: Command::GetEncryptionKey(GetEncryptionKey {}), retry: false },
    );
    r.push(
        PlannedCommand { command: Command::GetEncryptionMode(GetEncryptionMode {}), retry: false },
    );
    r
}

/// Builds the configuration read back from the device, field for field from
/// the nine typed replies.
pub fn assemble_configuration(
    mode: NetworkWorkingModeResponse,
    frequency: P2PFrequencyResponse,
    spreading_factor: P2PSpreadingFactorResponse,
    bandwidth: P2PBandwidth,
    code_rate: P2PCodeRate,
    preamble_length: P2PPreambleLength,
    tx_power: P2PTxPower,
    encryption_key: P2PEncryptionKey,
    encryption_mode: P2PEncryptionMode,
) -> (c: Configuration)
    ensures
        c.working_mode == mode.mode,
        c.frequency == frequency.frequency,
        c.spreading_factor == spreading_factor.spreading_factor,
        c.bandwidth == bandwidth.bandwidth,
        c.code_rate == code_rate.code_rate,
        c.preamble_length == preamble_length.preamble_length,
        c.tx_power == tx_power.tx_power,
        c.encrypted == encryption_mode.encryption,
        c.encryption_key@ == encryption_key.encryption_key@,
{
    Configuration {
        working_mode: mode.mode,
        frequency: frequency.frequency,
        spreading_factor: spreading_factor.spreading_factor,
        bandwidth: bandwidth.bandwidth,
        code_rate: code_rate.code_rate,
        preamble_length: preamble_length.preamble_length,
        tx_power: tx_power.tx_power,
        encrypted: encryption_mode.encryption,
        encryption_key: encryption_key.encryption_key,
    }
}

/// Reading the configuration back and configuring with it at once
/// reproduces the same wire parameter text, for every radio parameter the
/// configure sequence sets.
///
/// The replies `freq_s` through `tp_s` are what the device answered to the
/// read queries, in the configure order; each is canonical decimal text of
/// the right range, as the device emits it, and `c` is the configuration
/// assembled from them. The configure plan then puts exactly those reply
/// texts back on the wire.
pub proof fn lemma_read_then_configure_round_trip(
    freq_s: Seq<u8>,
    sf_s: Seq<u8>,
    bw_s: Seq<u8>,
    cr_s: Seq<u8>,
    pl_s: Seq<u8>,
    tp_s: Seq<u8>,
    c: Configuration,
)
    requires
        is_canonical_dec(freq_s),
        dec_seq_val(freq_s) <= u32::MAX,
        c.frequency as nat == dec_seq_val(freq_s),
        is_canonical_dec(sf_s),
        dec_seq_val(sf_s) <= u8::MAX,
        c.spreading_factor as nat == dec_seq_val(sf_s),
        is_canonical_dec(bw_s),
        bandwidth_from_wire(bw_s) == Some(c.bandwidth),
        is_canonical_dec(cr_s),
        code_rate_from_wire(cr_s) == Some(c.code_rate),
        is_canonical_dec(pl_s),
        dec_seq_val(pl_s) <= u16::MAX,
        c.preamble_length as nat == dec_seq_val(pl_s),
        is_canonical_dec(tp_s),
        dec_seq_val(tp_s) <= u8::MAX,
        c.tx_power as nat == dec_seq_val(tp_s),
    ensures
        (SetP2PFrequency { frequency: c.frequency }).wire_spec() == set_line(
            Mnemonic::Frequency,
            freq_s,
        ),
        (SetP2PSpreadingFactor { spreading_factor: c.spreading_factor }).wire_spec() == set_line(
            Mnemonic::SpreadingFactor,
            sf_s,
        ),
        (SetP2PBandwidth { bandwidth: c.bandwidth }).wire_spec() == set_line(
            Mnemonic::Bandwidth,
            bw_s,
        ),
        (SetCodeRate { code_rate: c.code_rate }).wire_spec() == set_line(Mnemonic::CodeRate, cr_s),
        (SetPreambleLength { preamble_length: c.preamble_length }).wire_spec() == set_line(
            Mnemonic::PreambleLength,
            pl_s,
        ),
        (SetTxPower { tx_power: c.tx_power }).wire_spec() == set_line(Mnemonic::TxPower, tp_s),
{
    lemma_canonical_dec_rep(freq_s);
    lemma_canonical_dec_rep(sf_s);
    lemma_canonical_dec_rep(pl_s);
    lemma_canonical_dec_rep(tp_s);
    lemma_bandwidth_reply_canonical(bw_s);
    lemma_code_rate_reply_canonical(cr_s);
}

/// A fail-fast command sequence: commands are issued strictly in order, and
/// after the first reported failure nothing further is ever issued.
#[derive(Clone, Debug, PartialEq, Eq)]
pub struct CommandSequence {
    /// The planned commands, in issue order.
    pub commands: Vec<PlannedCommand>,
    /// How many commands have been issued and acknowledged.
    pub next: usize,
    /// Whether a step has failed.
    pub failed: bool,
}

impl CommandSequence {
    /// The cursor stays within the plan.
    pub open spec fn wf(self) -> bool {
        self.next <= self.commands@.len()
    }

    /// Starts a sequence at its first command.
    pub fn new(commands: Vec<PlannedCommand>) -> (s: Self)
        ensures
            s.commands@ == commands@,
            s.next == 0,
            !s.failed,
            s.wf(),
    {
        CommandSequence { commands, next: 0, failed: false }
    }

    /// The command to issue now: nothing once the plan is exhausted, and
    /// nothing ever again once a step has failed.
    pub fn current(&self) -> (r: Option<&PlannedCommand>)
        requires
            self.wf(),
        ensures
            r is Some <==> (!self.failed && self.next < self.commands@.len()),
            r matches Some(c) ==> *c == self.commands@[self.next as int],
    {
        if self.failed {
            None
        } else if self.next < self.commands.len() {
            Some(&self.commands[self.next])
        } else {
            None
        }
    }

    /// Records the outcome of the current command: on success the cursor
    /// moves to the next command, on failure the sequence stops for good.
    pub fn advance(&mut self, ok: bool)
        requires
            old(self).wf(),
            !old(self).failed,
            old(self).next < old(self).commands@.len(),
        ensures
            final(self).wf(),
            final(self).commands@ == old(self).commands@,
            ok ==> final(self).next == old(self).next + 1 && !final(self).failed,
            !ok ==> final(self).next == old(self).next && final(self).failed,
    {
        if ok {
            let bound = self.commands.len();
            assert(self.next < bound);
            self.next = self.next + 1;
        } else {
            self.failed = true;
        }
    }

    /// Whether every command of the plan was issued and acknowledged.
    pub fn succeeded(&self) -> (r: bool)
        ensures
            r == (!self.failed && self.next == self.commands@.len()),
    {
        !self.failed && self.next == self.commands.len()
    }

    /// Whether a step has failed.
    pub fn has_failed(&self) -> (r: bool)
        ensures
            r == self.failed,
    {
        self.failed
    }
}

} // verus!
