//! Wire-line grammar for the command channel.
//!
//! A command line is `AT<mnemonic>`, `AT<mnemonic>=<param>[,<param>...]` for a
//! Set command, or `AT<mnemonic>=?` for a Get command; the line terminator is
//! the transport's business. This module names the mnemonics and builds the
//! three line shapes.

use vstd::prelude::*;

use crate::ascii::{
    A, B, C, COMMA, D, D2, E, EQUALS, F, H, I, K, L, M, N, O, P, PLUS, Q, QMARK, R, S, T, U, V,
    W, Y, Z,
};

verus! {

/// The textual mnemonics of the command catalog.
#[derive(Clone, Copy, Debug, PartialEq, Eq, Structural)]
pub enum Mnemonic {
    /// The bare attention command.
    Empty,
    /// MCU reset.
    Reset,
    /// Restore default parameters.
    Restore,
    SerialNumber,
    FirmwareVersion,
    HardwareModel,
    Alias,
    NetworkWorkingMode,
    Frequency,
    SpreadingFactor,
    Bandwidth,
    CodeRate,
    PreambleLength,
    TxPower,
    SendData,
    ReceiveData,
    EncryptionMode,
    EncryptionKey,
    P2P,
    IqInversion,
    SyncWord,
    SymbolTimeout,
}

/// The byte spelling of a mnemonic.
pub open spec fn mnemonic_seq(m: Mnemonic) -> Seq<u8> {
    match m {
        Mnemonic::Empty => Seq::<u8>::empty(),
        Mnemonic::Reset => seq![Z],
        Mnemonic::Restore => seq![R],
        Mnemonic::SerialNumber => seq![PLUS, S, N],
        Mnemonic::FirmwareVersion => seq![PLUS, V, E, R],
        Mnemonic::HardwareModel => seq![PLUS, H, W, M, O, D, E, L],
        Mnemonic::Alias => seq![PLUS, A, L, I, A, S],
        Mnemonic::NetworkWorkingMode => seq![PLUS, N, W, M],
        Mnemonic::Frequency => seq![PLUS, P, F, R, E, Q],
        Mnemonic::SpreadingFactor => seq![PLUS, P, S, F],
        Mnemonic::Bandwidth => seq![PLUS, P, B, W],
        Mnemonic::CodeRate => seq![PLUS, P, C, R],
        Mnemonic::PreambleLength => seq![PLUS, P, P, L],
        Mnemonic::TxPower => seq![PLUS, P, T, P],
        Mnemonic::SendData => seq![PLUS, P, S, E, N, D],
        Mnemonic::ReceiveData => seq![PLUS, P, R, E, C, V],
        Mnemonic::EncryptionMode => seq![PLUS, E, N, C, R, Y],
        Mnemonic::EncryptionKey => seq![PLUS, E, N, C, K, E, Y],
        Mnemonic::P2P => seq![PLUS, P, D2, P],
        Mnemonic::IqInversion => seq![PLUS, I, Q, I, N, V, E, R],
        Mnemonic::SyncWord => seq![PLUS, S, Y, N, C, W, O, R, D],
        Mnemonic::SymbolTimeout => seq![PLUS, S, Y, M, B, O, L, T, I, M, E, O, U, T],
    }
}

/// The `AT` line prefix.
pub open spec fn at_prefix() -> Seq<u8> {
    seq![A, T]
}

/// A parameterless command line.
pub open spec fn command_line(m: Mnemonic) -> Seq<u8> {
    at_prefix() + mnemonic_seq(m)
}

/// A Set command line carrying already-rendered parameter text.
pub open spec fn set_line(m: Mnemonic, param: Seq<u8>) -> Seq<u8> {
    at_prefix() + mnemonic_seq(m) + seq![EQUALS] + param
}

/// A Get command line.
pub open spec fn query_line(m: Mnemonic) -> Seq<u8> {
    at_prefix() + mnemonic_seq(m) + seq![EQUALS, QMARK]
}

/// Appends a byte slice.
pub fn append_bytes(out: &mut Vec<u8>, s: &[u8])
    ensures
        final(out)@ == old(out)@ + s@,
{
    let mut i: usize = 0;
    while i < s.len()
        invariant
            i <= s@.len(),
            out@ == old(out)@ + s@.take(i as int),
        decreases s@.len() - i,
    {
        out.push(s[i]);
        i = i + 1;
        proof {
            assert(out@ =~= old(out)@ + s@.take(i as int));
        }
    }
    proof {
        assert(old(out)@ + s@.take(s@.len() as int) =~= old(out)@ + s@);
    }
}

/// Appends a parameter separator.
pub fn append_separator(out: &mut Vec<u8>)
    ensures
        final(out)@ == old(out)@ + seq![COMMA],
{
    out.push(COMMA);
    proof {
        assert(out@ =~= old(out)@ + seq![COMMA]);
    }
}

/// Appends the spelling of a mnemonic.
pub fn append_mnemonic(out: &mut Vec<u8>, m: Mnemonic)
    ensures
        final(out)@ == old(out)@ + mnemonic_seq(m),
{
    match m {
        Mnemonic::Empty => {},
        Mnemonic::Reset => {
            out.push(Z);
        },
        Mnemonic::Restore => {
            out.push(R);
        },
        Mnemonic::SerialNumber => {
            out.push(PLUS);
            out.push(S);
            out.push(N);
        },
        Mnemonic::FirmwareVersion => {
            out.push(PLUS);
            out.push(V);
            out.push(E);
            out.push(R);
        },
        Mnemonic::HardwareModel => {
            out.push(PLUS);
            out.push(H);
            out.push(W);
            out.push(M);
            out.push(O);
            out.push(D);
            out.push(E);
            out.push(L);
        },
        Mnemonic::Alias => {
            out.push(PLUS);
            out.push(A);
            out.push(L);
            out.push(I);
            out.push(A);
            out.push(S);
        },
        Mnemonic::NetworkWorkingMode => {
            out.push(PLUS);
            out.push(N);
            out.push(W);
            out.push(M);
        },
        Mnemonic::Frequency => {
            out.push(PLUS);
            out.push(P);
            out.push(F);
            out.push(R);
            out.push(E);
            out.push(Q);
        },
        Mnemonic::SpreadingFactor => {
            out.push(PLUS);
            out.push(P);
            out.push(S);
            out.push(F);
        },
        Mnemonic::Bandwidth => {
            out.push(PLUS);
            out.push(P);
            out.push(B);
            out.push(W);
        },
        Mnemonic::CodeRate => {
            out.push(PLUS);
            out.push(P);
            out.push(C);
            out.push(R);
        },
        Mnemonic::PreambleLength => {
            out.push(PLUS);
            out.push(P);
            out.push(P);
            out.push(L);
        },
        Mnemonic::TxPower => {
            out.push(PLUS);
            out.push(P);
            out.push(T);
            out.push(P);
        },
        Mnemonic::SendData => {
            out.push(PLUS);
            out.push(P);
            out.push(S);
            out.push(E);
            out.push(N);
            out.push(D);
        },
        Mnemonic::ReceiveData => {
            out.push(PLUS);
            out.push(P);
            out.push(R);
            out.push(E);
            out.push(C);
            out.push(V);
        },
        Mnemonic::EncryptionMode => {
            out.push(PLUS);
            out.push(E);
            out.push(N);
            out.push(C);
            out.push(R);
            out.push(Y);
        },
        Mnemonic::EncryptionKey => {
            out.push(PLUS);
            out.push(E);
            out.push(N);
            out.push(C);
            out.push(K);
            out.push(E);
            out.push(Y);
        },
        Mnemonic::P2P => {
            out.push(PLUS);
            out.push(P);
            out.push(D2);
            out.push(P);
        },
        Mnemonic::IqInversion => {
            out.push(PLUS);
            out.push(I);
            out.push(Q);
            out.push(I);
            out.push(N);
            out.push(V);
            out.push(E);
            out.push(R);
        },
        Mnemonic::SyncWord => {
            out.push(PLUS);
            out.push(S);
            out.push(Y);
            out.push(N);
            out.push(C);
            out.push(W);
            out.push(O);
            out.push(R);
            out.push(D);
        },
        Mnemonic::SymbolTimeout => {
            out.push(PLUS);
            out.push(S);
            out.push(Y);
            out.push(M);
            out.push(B);
            out.push(O);
            out.push(L);
            out.push(T);
            out.push(I);
            out.push(M);
            out.push(E);
            out.push(O);
            out.push(U);
            out.push(T);
        },
    }
    proof {
        assert(out@ =~= old(out)@ + mnemonic_seq(m));
    }
}

/// Builds a parameterless command line.
pub fn bare_line(m: Mnemonic) -> (r: Vec<u8>)
    ensures
        r@ == command_line(m),
{
    let mut out: Vec<u8> = Vec::new();
    out.push(A);
    out.push(T);
    proof {
        assert(out@ =~= at_prefix());
    }
    append_mnemonic(&mut out, m);
    out
}

/// Builds a Get command line.
pub fn query_line_bytes(m: Mnemonic) -> (r: Vec<u8>)
    ensures
        r@ == query_line(m),
{
    let mut out = bare_line(m);
    out.push(EQUALS);
    out.push(QMARK);
    proof {
        assert(out@ =~= query_line(m));
    }
    out
}

/// Builds a Set command line around rendered parameter text.
pub fn set_line_bytes(m: Mnemonic, param: &[u8]) -> (r: Vec<u8>)
    ensures
        r@ == set_line(m, param@),
{
    let mut out = bare_line(m);
    out.push(EQUALS);
    proof {
        assert(out@ =~= at_prefix() + mnemonic_seq(m) + seq![EQUALS]);
    }
    append_bytes(&mut out, param);
    proof {
        assert(out@ =~= set_line(m, param@));
    }
    out
}

} // verus!
