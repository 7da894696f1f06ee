//! The step renderer: walks the tag-event stream of one step, captures the
//! step name, collects the display fragments of its parameters in document
//! order, and assembles the final line by step kind.

use vstd::prelude::*;
use vstd::string::StringExecFns;
use crate::classify::{classify, kind_of, StepKind};
use crate::decode::{attr_value, decode, decode_fragment};
use crate::events::{
    is_terminal, next_event, pending_events, reader_for, well_formed_stream, xml_events, EventV,
    XmlEvent,
};
use crate::text::{all_ws, is_blank, join_fragments, join_frags, str_eq};

verus! {

/// The scanner's state while it walks a step's events: the step name once
/// captured, whether it is inside a parameter block, the type discriminator
/// of a parameter element whose value element is still awaited, and the
/// fragments collected so far in document order.
#[verifier::ext_equal]
pub struct ScanV {
    pub name: Option<Seq<char>>,
    pub in_block: bool,
    pub pending: Option<Seq<char>>,
    pub frags: Seq<Seq<char>>,
}

/// The scanner's state before any event.
pub open spec fn scan_init() -> ScanV {
    ScanV { name: None, in_block: false, pending: None, frags: Seq::empty() }
}

/// How one opening tag changes the scanner's state. A Step tag supplies the
/// step name (the first name attribute found wins); a ParameterValues tag
/// opens a parameter block; a Parameter tag inside a block announces a
/// parameter of its type attribute's discriminator; any other tag inside a
/// block completes an announced parameter as its value element, whose
/// decoded fragment, if any, is appended.
pub open spec fn scan_open(st: ScanV, name: Seq<char>, attrs: Seq<(Seq<char>, Seq<char>)>) -> ScanV {
    if name == "Step"@ {
        if st.name is None {
            ScanV { name: attr_value(attrs, "name"@), ..st }
        } else {
            st
        }
    } else if name == "ParameterValues"@ {
        ScanV { in_block: true, pending: None, ..st }
    } else if name == "Parameter"@ {
        if st.in_block {
            ScanV { pending: attr_value(attrs, "type"@), ..st }
        } else {
            st
        }
    } else {
        match st.pending {
            Option::Some(ptype) => if st.in_block {
                ScanV {
                    pending: None,
                    frags: match decode_fragment(ptype, attrs) {
                        Option::Some(f) => st.frags.push(f),
                        Option::None => st.frags,
                    },
                    ..st
                }
            } else {
                st
            },
            Option::None => st,
        }
    }
}

/// How one closing tag changes the scanner's state: leaving a parameter
/// block or a parameter element forgets any announced parameter.
pub open spec fn scan_close(st: ScanV, name: Seq<char>) -> ScanV {
    if name == "ParameterValues"@ {
        ScanV { in_block: false, pending: None, ..st }
    } else if name == "Parameter"@ {
        ScanV { pending: None, ..st }
    } else {
        st
    }
}

/// How one non-terminal event changes the scanner's state.
pub open spec fn scan_step(st: ScanV, ev: EventV) -> ScanV {
    match ev {
        EventV::Open { name, attrs } => scan_open(st, name, attrs),
        EventV::Close { name } => scan_close(st, name),
        _ => st,
    }
}

/// The scanner's state after the events, starting from `st`: the end of the
/// document ends the scan, and a structural parse failure fails it.
pub open spec fn scan_events(st: ScanV, evs: Seq<EventV>) -> Option<ScanV>
    decreases evs.len(),
{
    if evs.len() == 0 {
        Some(st)
    } else if evs[0] is Broken {
        None
    } else if evs[0] is Eof {
        Some(st)
    } else {
        scan_events(scan_step(st, evs[0]), evs.skip(1))
    }
}

/// The final line assembled from the step kind, the captured step name and
/// the joined fragments. A comment step renders as nothing when the joined
/// text is blank and as "# " before it otherwise, and never uses the step
/// name; a generic step renders as the bare name when the joined text is
/// blank and as the name before the bracketed fragments otherwise, and
/// fails when no name was captured.
pub open spec fn assemble_line(kind: StepKind, name: Option<Seq<char>>, frags: Seq<Seq<char>>) -> Option<
    Seq<char>,
> {
    let joined = join_frags(frags);
    match kind {
        StepKind::Comment => if all_ws(joined) {
            Some(Seq::<char>::empty())
        } else {
            Some("# "@ + joined)
        },
        StepKind::Generic => match name {
            Option::None => None,
            Option::Some(n) => if all_ws(joined) {
                Some(n)
            } else {
                Some(n + " [ "@ + joined + " ]"@)
            },
        },
    }
}

/// The line a step renders as, from its id and its event stream; `None` is
/// the malformed-input failure.
pub open spec fn render_events_spec(step_id: u32, evs: Seq<EventV>) -> Option<Seq<char>> {
    match scan_events(scan_init(), evs) {
        Option::None => None,
        Option::Some(st) => assemble_line(kind_of(step_id), st.name, st.frags),
    }
}

/// The line a step renders as, from its id and its XML text.
pub open spec fn render_spec(step_id: u32, xml: Seq<char>) -> Option<Seq<char>> {
    render_events_spec(step_id, xml_events(xml))
}

/// The scanner's executable state; its view is the scan state it models.
pub struct ScanState {
    pub name: Option<String>,
    pub in_block: bool,
    pub pending: Option<String>,
    pub frags: Vec<String>,
}

impl View for ScanState {
    type V = ScanV;

    open spec fn view(&self) -> ScanV {
        ScanV {
            name: self.name.deep_view(),
            in_block: self.in_block,
            pending: self.pending.deep_view(),
            frags: self.frags.deep_view(),
        }
    }
}

impl ScanState {
    /// The state before any event.
    pub fn new() -> (r: ScanState)
        ensures
            r@ == scan_init(),
    {
        let r = ScanState { name: None, in_block: false, pending: None, frags: Vec::new() };
        proof {
            assert(r@ =~= scan_init());
        }
        r
    }

    /// Advances the scanner by one event, matching `scan_step`.
    pub fn step(&mut self, ev: &XmlEvent)
        ensures
            final(self)@ == scan_step(old(self)@, ev@),
    {
        match ev {
            XmlEvent::Open(name, attrs) => {
                if str_eq(name.as_str(), "Step") {
                    if self.name.is_none() {
                        self.name = crate::decode::lookup_attr(attrs, "name");
                    }
                } else if str_eq(name.as_str(), "ParameterValues") {
                    self.in_block = true;
                    self.pending = None;
                } else if str_eq(name.as_str(), "Parameter") {
                    if self.in_block {
                        self.pending = crate::decode::lookup_attr(attrs, "type");
                    }
                } else {
                    match &self.pending {
                        Option::Some(ptype) => {
                            if self.in_block {
                                let frag = decode(ptype.as_str(), attrs);
                                match frag {
                                    Option::Some(f) => self.frags.push(f),
                                    Option::None => (),
                                }
                                self.pending = None;
                            }
                        },
                        Option::None => (),
                    }
                }
                proof {
                    assert(self@ =~= scan_step(old(self)@, ev@));
                }
            },
            XmlEvent::Close(name) => {
                if str_eq(name.as_str(), "ParameterValues") {
                    self.in_block = false;
                    self.pending = None;
                } else if str_eq(name.as_str(), "Parameter") {
                    self.pending = None;
                }
                proof {
                    assert(self@ =~= scan_step(old(self)@, ev@));
                }
            },
            _ => {
                proof {
                    assert(self@ =~= scan_step(old(self)@, ev@));
                }
            },
        }
    }
}

/// Assembles the final line, matching `assemble_line`.
pub fn assemble(kind: StepKind, name: &Option<String>, frags: &Vec<String>) -> (r: Option<String>)
    ensures
        r.deep_view() == assemble_line(kind, name.deep_view(), frags.deep_view()),
{
    let joined = join_fragments(frags);
    let blank = is_blank(joined.as_str());
    match kind {
        StepKind::Comment => if blank {
            Some(String::new())
        } else {
            let mut s = String::from_str("# ");
            s.append(joined.as_str());
            Some(s)
        },
        StepKind::Generic => match name {
            Option::None => None,
            Option::Some(n) => if blank {
                Some(n.clone())
            } else {
                let mut s = n.clone();
                s.append(" [ ");
                s.append(joined.as_str());
                s.append(" ]");
                Some(s)
            },
        },
    }
}

/// Renders a step from its id and an already-tokenized event stream. The
/// result is pinned, for every event sequence, by `render_events_spec`.
pub fn render_from_events(step_id: u32, events: &Vec<XmlEvent>) -> (r: Option<String>)
    ensures
        r.deep_view() == render_events_spec(step_id, events.deep_view()),
{
    let ghost evs = events.deep_view();
    proof {
        assert(evs.skip(0) =~= evs);
    }
    let mut st = ScanState::new();
    let mut i: usize = 0;
    while i < events.len()
        invariant_except_break
            evs == events.deep_view(),
            evs.len() == events@.len(),
            i <= events.len(),
            scan_events(scan_init(), evs) == scan_events(st@, evs.skip(i as int)),
        ensures
            scan_events(scan_init(), evs) == Some(st@),
        decreases events.len() - i,
    {
        proof {
            assert(evs[i as int] == events@[i as int]@);
            assert(evs.skip(i as int)[0] == evs[i as int]);
            assert(evs.skip(i as int).skip(1) =~= evs.skip(i as int + 1));
        }
        match &events[i] {
            XmlEvent::Broken => {
                return None;
            },
            XmlEvent::Eof => {
                break ;
            },
            ev => {
                st.step(ev);
            },
        }
        i = i + 1;
    }
    proof {
        if i == events.len() {
            assert(evs.skip(evs.len() as int) =~= Seq::<EventV>::empty());
        }
    }
    assemble(classify(step_id), &st.name, &st.frags)
}

/// Renders one step to its canonical text line, from the step's numeric id
/// and the XML text of its Step element. Returns the rendered line, or
/// `None` when the XML cannot be read structurally or no step name can be
/// determined for a generic-kind step. The result is a pure function of the
/// two arguments, pinned by `render_spec`.
pub fn from_xml(step_id: &u32, step: &str) -> (r: Option<String>)
    ensures
        r.deep_view() == render_spec(*step_id, step@),
{
    let ghost evs = xml_events(step@);
    let mut reader = reader_for(step);
    let mut st = ScanState::new();
    loop
        invariant_except_break
            evs == xml_events(step@),
            well_formed_stream(pending_events(reader)),
            scan_events(scan_init(), evs) == scan_events(st@, pending_events(reader)),
        ensures
            scan_events(scan_init(), evs) == Some(st@),
        decreases pending_events(reader).len(),
    {
        let ghost pend = pending_events(reader);
        let ev = next_event(&mut reader);
        proof {
            assert(pend.skip(1).len() == pend.len() - 1);
        }
        match ev {
            XmlEvent::Broken => {
                proof {
                    assert(scan_events(st@, pend) is None);
                }
                return None;
            },
            XmlEvent::Eof => {
                proof {
                    assert(scan_events(st@, pend) == Some(st@));
                }
                break ;
            },
            ev2 => {
                proof {
                    assert(!is_terminal(pend[0]));
                    assert(pend.last() == pend.skip(1).last());
                    assert(forall|j: int|
                        0 <= j < pend.skip(1).len() - 1 ==> pend.skip(1)[j] == pend[j + 1]);
                }
                st.step(&ev2);
            },
        }
    }
    assemble(classify(*step_id), &st.name, &st.frags)
}

} // verus!
