//! The laws the renderer obeys, stated and proved over the spec functions
//! that the executable functions' contracts use.

use vstd::prelude::*;
use crate::classify::kind_of;
use crate::decode::{attr_value, decode_fragment, on_off, truth_of};
use crate::events::{is_terminal, EventV};
use crate::policy::{label_policy, BooleanDisplayPolicy};
use crate::render::{
    render_events_spec, render_spec, scan_events, scan_init, scan_step, ScanV,
};
use crate::text::{all_ws, join_frags};

verus! {

/// A step whose events contribute no display fragments renders as the empty
/// string when it is a comment step, and as the bare step name when it is a
/// generic step (failing only when no name was captured).
pub proof fn lemma_no_fragments(step_id: u32, evs: Seq<EventV>)
    requires
        scan_events(scan_init(), evs) is Some,
        scan_events(scan_init(), evs).unwrap().frags.len() == 0,
    ensures
        kind_of(step_id) is Comment ==> render_events_spec(step_id, evs) == Some(
            Seq::<char>::empty(),
        ),
        kind_of(step_id) is Generic ==> render_events_spec(step_id, evs) == scan_events(
            scan_init(),
            evs,
        ).unwrap().name,
{
    let st = scan_events(scan_init(), evs).unwrap();
    assert(st.frags =~= Seq::<Seq<char>>::empty());
    assert(join_frags(st.frags) == Seq::<char>::empty());
    assert(all_ws(Seq::<char>::empty()));
}

/// Rendering fails exactly on malformed input: a structural parse failure
/// in the events, or a generic-kind step in whose events no step name was
/// captured. A comment step never fails, and no parameter ever makes a step
/// fail.
pub proof fn lemma_failure_conditions(step_id: u32, evs: Seq<EventV>)
    ensures
        render_events_spec(step_id, evs) is None <==> (scan_events(scan_init(), evs) is None || (
        kind_of(step_id) is Generic && (scan_events(scan_init(), evs) matches Some(st)
            && st.name is None))),
{
}

/// Rendering is pure: the rendered line is a function of the step id and
/// the document text alone, so identical inputs always yield identical
/// output, however often and in whatever order steps are rendered.
pub proof fn lemma_render_pure(id1: u32, id2: u32, xml1: Seq<char>, xml2: Seq<char>)
    requires
        id1 == id2,
        xml1 == xml2,
    ensures
        render_spec(id1, xml1) == render_spec(id2, xml2),
{
}

/// A sequence is a prefix of itself extended by one element.
proof fn lemma_prefix_push(s: Seq<Seq<char>>, x: Seq<char>)
    ensures
        s.is_prefix_of(s.push(x)),
{
    assert(s =~= s.push(x).subrange(0, s.len() as int));
}

/// Being a prefix is transitive.
proof fn lemma_prefix_trans(a: Seq<Seq<char>>, b: Seq<Seq<char>>, c: Seq<Seq<char>>)
    requires
        a.is_prefix_of(b),
        b.is_prefix_of(c),
    ensures
        a.is_prefix_of(c),
{
    assert(a =~= c.subrange(0, a.len() as int));
}

/// One event never reorders or drops fragments: it leaves the collected
/// fragments as they are, or appends one at the end.
proof fn lemma_step_keeps_frags(st: ScanV, ev: EventV)
    ensures
        st.frags.is_prefix_of(scan_step(st, ev).frags),
{
    assert(st.frags.is_prefix_of(st.frags));
    match ev {
        EventV::Open { name, attrs } => {
            if name != "Step"@ && name != "ParameterValues"@ && name != "Parameter"@ {
                match st.pending {
                    Option::Some(ptype) => {
                        if st.in_block {
                            match decode_fragment(ptype, attrs) {
                                Option::Some(f) => {
                                    lemma_prefix_push(st.frags, f);
                                },
                                Option::None => {
                                },
                            }
                        }
                    },
                    Option::None => {
                    },
                }
            }
        },
        _ => {
        },
    }
}

/// Scanning never reorders or drops fragments: whatever state a scan starts
/// from, the fragments it has already collected stand unchanged, in their
/// order, in front of the fragments the scanned events contribute.
pub proof fn lemma_frags_extend(st: ScanV, evs: Seq<EventV>)
    ensures
        scan_events(st, evs) is Some ==> st.frags.is_prefix_of(
            scan_events(st, evs).unwrap().frags,
        ),
    decreases evs.len(),
{
    assert(st.frags.is_prefix_of(st.frags));
    if evs.len() == 0 {
    } else if evs[0] is Broken {
    } else if evs[0] is Eof {
    } else {
        lemma_step_keeps_frags(st, evs[0]);
        lemma_frags_extend(scan_step(st, evs[0]), evs.skip(1));
        if scan_events(st, evs) is Some {
            lemma_prefix_trans(
                st.frags,
                scan_step(st, evs[0]).frags,
                scan_events(st, evs).unwrap().frags,
            );
        }
    }
}

/// Scanning splits at any point: the state after the events `a + b` is the
/// state after `b`, started from the state after `a` (which exists whenever
/// `a` holds no terminal event).
pub proof fn lemma_scan_append(st: ScanV, a: Seq<EventV>, b: Seq<EventV>)
    requires
        forall|i: int| 0 <= i < a.len() ==> !is_terminal(#[trigger] a[i]),
    ensures
        scan_events(st, a) is Some,
        scan_events(st, a + b) == scan_events(scan_events(st, a).unwrap(), b),
    decreases a.len(),
{
    if a.len() == 0 {
        assert(a + b =~= b);
    } else {
        assert(!is_terminal(a[0]));
        assert((a + b)[0] == a[0]);
        assert((a + b).len() > 0);
        assert((a + b).skip(1) =~= a.skip(1) + b);
        assert(forall|i: int| 0 <= i < a.skip(1).len() ==> a.skip(1)[i] == a[i + 1]);
        lemma_scan_append(scan_step(st, a[0]), a.skip(1), b);
    }
}

/// Fragment order equals document order across parameter blocks: split a
/// step's events anywhere, and every fragment contributed by the earlier
/// events stands, in its order, before every fragment contributed by the
/// later events.
pub proof fn lemma_fragment_order(st: ScanV, a: Seq<EventV>, b: Seq<EventV>)
    requires
        forall|i: int| 0 <= i < a.len() ==> !is_terminal(#[trigger] a[i]),
    ensures
        scan_events(st, a) is Some,
        scan_events(st, a + b) is Some ==> scan_events(st, a).unwrap().frags.is_prefix_of(
            scan_events(st, a + b).unwrap().frags,
        ),
{
    lemma_scan_append(st, a, b);
    lemma_frags_extend(scan_events(st, a).unwrap(), b);
}

/// An unlabeled boolean parameter contributes "ON" when its value is the
/// literal "True" and "OFF" when it is the literal "False".
pub proof fn lemma_unlabeled_boolean(attrs: Seq<(Seq<char>, Seq<char>)>, truth: bool)
    requires
        attr_value(attrs, "value"@) == Some(if truth {
            "True"@
        } else {
            "False"@
        }),
        attr_value(attrs, "type"@) is None,
    ensures
        decode_fragment("Boolean"@, attrs) == Some(on_off(truth)),
{
    reveal_strlit("True");
    reveal_strlit("False");
    assert(("True"@).len() == 4);
    assert(("False"@).len() == 5);
    assert(truth_of(attr_value(attrs, "value"@).unwrap()) == Some(truth));
}

/// A boolean parameter whose label renders as a labeled toggle contributes
/// "Label: ON" or "Label: OFF" whatever its truth value.
pub proof fn lemma_labeled_toggle(attrs: Seq<(Seq<char>, Seq<char>)>, label: Seq<char>, truth: bool)
    requires
        attr_value(attrs, "value"@) == Some(if truth {
            "True"@
        } else {
            "False"@
        }),
        attr_value(attrs, "type"@) == Some(label),
        label_policy(label) is LabeledToggle,
    ensures
        decode_fragment("Boolean"@, attrs) == Some(label + ": "@ + on_off(truth)),
{
    reveal_strlit("True");
    reveal_strlit("False");
    assert(("True"@).len() == 4);
    assert(("False"@).len() == 5);
    assert(truth_of(attr_value(attrs, "value"@).unwrap()) == Some(truth));
}

/// A boolean parameter whose label renders as a flag contributes the bare
/// label when true, and nothing at all - not an empty fragment - when
/// false.
pub proof fn lemma_flag_if_true(attrs: Seq<(Seq<char>, Seq<char>)>, label: Seq<char>, truth: bool)
    requires
        attr_value(attrs, "value"@) == Some(if truth {
            "True"@
        } else {
            "False"@
        }),
        attr_value(attrs, "type"@) == Some(label),
        label_policy(label) is FlagIfTrue,
    ensures
        decode_fragment("Boolean"@, attrs) == if truth {
            Some(label)
        } else {
            None::<Seq<char>>
        },
{
    reveal_strlit("True");
    reveal_strlit("False");
    assert(("True"@).len() == 4);
    assert(("False"@).len() == 5);
    assert(truth_of(attr_value(attrs, "value"@).unwrap()) == Some(truth));
}

/// A list parameter's fragment is its name attribute verbatim, whether or
/// not the reference the parameter's value points at still exists - a
/// broken-reference placeholder renders like any other name.
pub proof fn lemma_list_verbatim(attrs: Seq<(Seq<char>, Seq<char>)>)
    ensures
        decode_fragment("List"@, attrs) == attr_value(attrs, "name"@),
{
    reveal_strlit("Boolean");
    reveal_strlit("List");
    assert(("Boolean"@).len() == 7);
    assert(("List"@).len() == 4);
}

} // verus!
