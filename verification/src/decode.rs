//! Decoding of one typed parameter element into at most one display
//! fragment, applying per-type and per-label policy.

use vstd::prelude::*;
use vstd::string::StringExecFns;
use crate::policy::{label_policy, policy_for, BooleanDisplayPolicy};
use crate::text::str_eq;

verus! {

/// The value of the first attribute with the given key, if any.
pub open spec fn attr_value(attrs: Seq<(Seq<char>, Seq<char>)>, key: Seq<char>) -> Option<
    Seq<char>,
>
    decreases attrs.len(),
{
    if attrs.len() == 0 {
        None
    } else if attrs[0].0 == key {
        Some(attrs[0].1)
    } else {
        attr_value(attrs.skip(1), key)
    }
}

/// The parameter types the decoder recognizes, selected by a parameter's
/// type discriminator; further types are one new variant and one new
/// decoding case each.
#[derive(Clone, Copy, PartialEq, Eq, Structural, Debug)]
pub enum ParameterType {
    Boolean,
    List,
}

/// The parameter type a type discriminator selects; an unrecognized
/// discriminator selects none, and its parameter is omitted.
pub open spec fn parameter_type_of(ptype: Seq<char>) -> Option<ParameterType> {
    if ptype == "Boolean"@ {
        Some(ParameterType::Boolean)
    } else if ptype == "List"@ {
        Some(ParameterType::List)
    } else {
        None
    }
}

/// Reads a type discriminator, matching `parameter_type_of`.
pub fn parse_parameter_type(ptype: &str) -> (r: Option<ParameterType>)
    ensures
        r == parameter_type_of(ptype@),
{
    if str_eq(ptype, "Boolean") {
        Some(ParameterType::Boolean)
    } else if str_eq(ptype, "List") {
        Some(ParameterType::List)
    } else {
        None
    }
}

/// The truth value a boolean parameter's value attribute denotes; only the
/// literals "True" and "False" denote one.
pub open spec fn truth_of(value: Seq<char>) -> Option<bool> {
    if value == "True"@ {
        Some(true)
    } else if value == "False"@ {
        Some(false)
    } else {
        None
    }
}

/// The text a boolean truth value renders as on its own.
pub open spec fn on_off(truth: bool) -> Seq<char> {
    if truth {
        "ON"@
    } else {
        "OFF"@
    }
}

/// The policy a boolean parameter renders under: `ValueOnly` when it has no
/// label, its label's registry policy otherwise.
pub open spec fn policy_of(label: Option<Seq<char>>) -> BooleanDisplayPolicy {
    match label {
        Option::None => BooleanDisplayPolicy::ValueOnly,
        Option::Some(l) => label_policy(l),
    }
}

/// The fragment a boolean parameter of the given truth value and optional
/// label contributes: the bare value, the labeled toggle, or - for a flag
/// label - the bare label when true and nothing at all when false.
pub open spec fn bool_fragment(truth: bool, label: Option<Seq<char>>) -> Option<Seq<char>> {
    match policy_of(label) {
        BooleanDisplayPolicy::ValueOnly => Some(on_off(truth)),
        BooleanDisplayPolicy::LabeledToggle => Some(label.unwrap() + ": "@ + on_off(truth)),
        BooleanDisplayPolicy::FlagIfTrue => if truth {
            Some(label.unwrap())
        } else {
            None
        },
    }
}

/// The fragment one parameter element contributes, from its type
/// discriminator and the attributes of its nested value element. A
/// parameter of an unrecognized type, or one whose attributes cannot be
/// read as its type requires, contributes nothing.
pub open spec fn decode_fragment(ptype: Seq<char>, attrs: Seq<(Seq<char>, Seq<char>)>) -> Option<
    Seq<char>,
> {
    match parameter_type_of(ptype) {
        Option::None => None,
        Option::Some(ParameterType::Boolean) => match attr_value(attrs, "value"@) {
            Option::None => None,
            Option::Some(v) => match truth_of(v) {
                Option::None => None,
                Option::Some(t) => bool_fragment(t, attr_value(attrs, "type"@)),
            },
        },
        Option::Some(ParameterType::List) => attr_value(attrs, "name"@),
    }
}

/// Returns the value of the first attribute with the given key, if any.
pub fn lookup_attr(attrs: &Vec<(String, String)>, key: &str) -> (r: Option<String>)
    ensures
        r.deep_view() == attr_value(attrs.deep_view(), key@),
{
    let ghost dv = attrs.deep_view();
    proof {
        assert(dv.skip(0) =~= dv);
    }
    let mut i: usize = 0;
    while i < attrs.len()
        invariant
            dv == attrs.deep_view(),
            dv.len() == attrs@.len(),
            i <= attrs.len(),
            attr_value(dv, key@) == attr_value(dv.skip(i as int), key@),
        decreases attrs.len() - i,
    {
        proof {
            assert(dv[i as int] == (attrs@[i as int].0@, attrs@[i as int].1@));
            assert(dv.skip(i as int)[0] == dv[i as int]);
            assert(dv.skip(i as int).skip(1) =~= dv.skip(i as int + 1));
        }
        if str_eq(attrs[i].0.as_str(), key) {
            return Some(attrs[i].1.clone());
        }
        i = i + 1;
    }
    proof {
        assert(dv.skip(attrs@.len() as int) =~= Seq::<(Seq<char>, Seq<char>)>::empty());
    }
    None
}

/// Decodes one parameter element, matching `decode_fragment`.
pub fn decode(ptype: &str, attrs: &Vec<(String, String)>) -> (r: Option<String>)
    ensures
        r.deep_view() == decode_fragment(ptype@, attrs.deep_view()),
{
    let ptype = match parse_parameter_type(ptype) {
        Option::Some(t) => t,
        Option::None => {
            return None;
        },
    };
    if ptype == ParameterType::Boolean {
        let value = match lookup_attr(attrs, "value") {
            Option::Some(v) => v,
            Option::None => {
                return None;
            },
        };
        let truth = if str_eq(value.as_str(), "True") {
            true
        } else if str_eq(value.as_str(), "False") {
            false
        } else {
            return None;
        };
        match lookup_attr(attrs, "type") {
            Option::None => Some(String::from_str(if truth {
                "ON"
            } else {
                "OFF"
            })),
            Option::Some(label) => match policy_for(label.as_str()) {
                BooleanDisplayPolicy::ValueOnly => Some(String::from_str(if truth {
                    "ON"
                } else {
                    "OFF"
                })),
                BooleanDisplayPolicy::LabeledToggle => {
                    let mut s = label;
                    s.append(": ");
                    s.append(if truth {
                        "ON"
                    } else {
                        "OFF"
                    });
                    Some(s)
                },
                BooleanDisplayPolicy::FlagIfTrue => if truth {
                    Some(label)
                } else {
                    None
                },
            },
        }
    } else {
        lookup_attr(attrs, "name")
    }
}

} // verus!
