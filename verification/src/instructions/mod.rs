//! Fixed byte layouts of the instructions and model data the program accepts.

pub mod claim_kif;
pub mod initialize;
pub mod reconcile_pending;

use vstd::prelude::*;

verus! {

/// Malformed instruction data, rejected before any account is touched.
#[derive(Clone, Copy, Debug, PartialEq, Eq, Structural)]
pub enum InstructionDataError {
    InvalidInstructionData,
}

} // verus!
