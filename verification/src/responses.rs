//! Reply catalog: one typed response per Get command, each with a parser
//! that accepts exactly the documented reply grammar.

use vstd::prelude::*;

pub mod general;
pub mod p2p;

verus! {

/// The reply of a command that answers with no value.
#[derive(Clone, Copy, Debug, PartialEq, Eq, Structural)]
pub struct NoResponse {}

} // verus!
