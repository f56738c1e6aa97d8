//! The checked-arithmetic probe: one evaluation of the bounded-addition
//! boundary, classified against true unbounded integer arithmetic.

use vstd::prelude::*;

verus! {

/// The verdict of one evaluation: the exact sum when it is
/// representable, or an explicit overflow report when it is not.
#[derive(Clone, Copy, Debug, PartialEq, Eq, Structural)]
pub enum Verdict {
    Sum(u64),
    Overflow,
}

/// Evidence that the boundary under test broke its contract on the
/// recorded operands: it either wrapped silently or reported overflow
/// for a representable sum. The operands are kept so a failure can be
/// reproduced deterministically.
#[derive(Clone, Copy, Debug, PartialEq, Eq, Structural)]
pub struct ContractViolation {
    pub a: u64,
    pub b: u64,
}

/// The verdict a correct bounded addition owes on `a` and `b`: the true
/// sum when it fits in 64 bits, overflow otherwise.
pub open spec fn spec_verdict(a: u64, b: u64) -> Verdict {
    if a + b <= u64::MAX {
        Verdict::Sum((a + b) as u64)
    } else {
        Verdict::Overflow
    }
}

/// Runs the bounded-addition boundary on one operand pair and
/// cross-checks its answer against true unbounded arithmetic: a numeric
/// result must equal the mathematical sum, and an overflow report must
/// come only when the sum is unrepresentable. A failed cross-check is
/// reported as a `ContractViolation`; the postcondition proves that the
/// boundary in use never triggers one.
pub fn evaluate(a: u64, b: u64) -> (r: Result<Verdict, ContractViolation>)
    ensures
        r == Ok::<Verdict, ContractViolation>(spec_verdict(a, b)),
{
    match a.checked_add(b) {
        Some(sum) => {
            if sum >= a && sum - a == b {
                Ok(Verdict::Sum(sum))
            } else {
                Err(ContractViolation { a, b })
            }
        },
        None => {
            if b > u64::MAX - a {
                Ok(Verdict::Overflow)
            } else {
                Err(ContractViolation { a, b })
            }
        },
    }
}

/// For every pair whose true sum is representable, the boundary owes
/// exactly that sum, with no precision loss.
pub proof fn lemma_verdict_sum_exact(a: u64, b: u64)
    requires
        a + b <= u64::MAX,
    ensures
        spec_verdict(a, b) == Verdict::Sum((a + b) as u64),
{
}

/// For every pair whose true sum exceeds the maximum representable
/// value, the boundary owes an explicit overflow report, never a
/// numeric value.
pub proof fn lemma_verdict_overflow(a: u64, b: u64)
    requires
        a + b > u64::MAX,
    ensures
        spec_verdict(a, b) == Verdict::Overflow,
{
}

/// Commutativity: the verdict does not depend on the order of the
/// operands.
pub proof fn lemma_verdict_commutes(a: u64, b: u64)
    ensures
        spec_verdict(a, b) == spec_verdict(b, a),
{
}

} // verus!
