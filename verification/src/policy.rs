//! The display policy a labeled boolean parameter renders under, keyed by
//! the exact label text carried in the parameter's own type attribute.

use vstd::prelude::*;
use crate::text::str_eq;

verus! {

/// How a boolean parameter's fragment is displayed. An unlabeled parameter
/// always uses `ValueOnly`; a labeled one uses the policy its label maps to.
#[derive(Clone, Copy, PartialEq, Eq, Structural, Debug)]
pub enum BooleanDisplayPolicy {
    ValueOnly,
    LabeledToggle,
    FlagIfTrue,
}

/// The static label registry: the labels that render as a bare flag when
/// true and as nothing when false. Every other label renders as a labeled
/// toggle, which is also the deterministic default for labels the registry
/// does not list.
pub open spec fn label_policy(label: Seq<char>) -> BooleanDisplayPolicy {
    if label == "Schreiben erzwingen"@ || label == "Dateneingabe\u{00fc}berpr\u{00fc}fung unterdr\u{00fc}cken"@ {
        BooleanDisplayPolicy::FlagIfTrue
    } else {
        BooleanDisplayPolicy::LabeledToggle
    }
}

/// Looks a label up in the policy registry; labels the registry does not
/// list fall back to `LabeledToggle`.
pub fn policy_for(label: &str) -> (p: BooleanDisplayPolicy)
    ensures
        p == label_policy(label@),
{
    if str_eq(label, "Schreiben erzwingen") || str_eq(
        label,
        "Dateneingabe\u{00fc}berpr\u{00fc}fung unterdr\u{00fc}cken",
    ) {
        BooleanDisplayPolicy::FlagIfTrue
    } else {
        BooleanDisplayPolicy::LabeledToggle
    }
}

} // verus!
