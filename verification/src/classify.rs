//! Classification of a step's numeric id into the closed set of step kinds
//! that select special assembly behavior.

use vstd::prelude::*;

verus! {

/// The numeric id under which the platform's step registry lists the
/// comment step.
pub const COMMENT_STEP_ID: u32 = 89;

/// The closed set of step kinds the final assembly distinguishes. Every id
/// the registry does not list maps to `Generic`.
#[derive(Clone, Copy, PartialEq, Eq, Structural, Debug)]
pub enum StepKind {
    Comment,
    Generic,
}

/// The kind the static registry assigns to a step id; unmapped ids default
/// to `Generic`.
pub open spec fn kind_of(step_id: u32) -> StepKind {
    if step_id == COMMENT_STEP_ID {
        StepKind::Comment
    } else {
        StepKind::Generic
    }
}

/// Looks a step id up in the registry. Total: never fails, and ids the
/// registry does not list yield `Generic`.
pub fn classify(step_id: u32) -> (k: StepKind)
    ensures
        k == kind_of(step_id),
{
    if step_id == COMMENT_STEP_ID {
        StepKind::Comment
    } else {
        StepKind::Generic
    }
}

} // verus!
