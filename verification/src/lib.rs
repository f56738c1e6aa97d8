//! A deterministic harness for probing a bounded-addition boundary.
//!
//! The library decodes an opaque byte sequence into a pair of unsigned
//! 64-bit operands, runs the checked-addition boundary on them, and
//! classifies the outcome: the exact sum when it is representable, an
//! explicit overflow report when it is not. The probe cross-checks the
//! boundary's answer against true unbounded arithmetic, so a silent
//! wraparound or a false overflow report would surface as a
//! `ContractViolation` rather than pass unnoticed.

use vstd::prelude::*;

pub mod operand;
pub mod probe;

use operand::{spec_decode, decode, DecodeError};
use probe::{spec_verdict, evaluate, ContractViolation, Verdict};

verus! {

/// Why one iteration ended without classifying a sum. Either the input
/// was too short to decode, or the boundary under test broke its
/// contract.
#[derive(Clone, Copy, Debug, PartialEq, Eq, Structural)]
pub enum HarnessError {
    Decode(DecodeError),
    Violation(ContractViolation),
}

/// The outcome one iteration owes on a byte sequence: decode the
/// operands, then the verdict a correct bounded addition must produce.
pub open spec fn spec_iteration(s: Seq<u8>) -> Result<Verdict, HarnessError> {
    match spec_decode(s) {
        Ok(pair) => Ok(spec_verdict(pair.a, pair.b)),
        Err(e) => Err(HarnessError::Decode(e)),
    }
}

/// Runs one fuzz iteration: decodes the byte sequence and evaluates the
/// boundary on the decoded pair. Too short an input is reported as a
/// decode failure and produces no verdict.
pub fn run_iteration(bytes: &[u8]) -> (r: Result<Verdict, HarnessError>)
    ensures
        r == spec_iteration(bytes@),
{
    match decode(bytes) {
        Ok(pair) => match evaluate(pair.a, pair.b) {
            Ok(v) => Ok(v),
            Err(violation) => Err(HarnessError::Violation(violation)),
        },
        Err(e) => Err(HarnessError::Decode(e)),
    }
}

} // verus!
