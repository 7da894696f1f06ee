//! Verified string helpers: equality, blankness, and joining display
//! fragments with the renderer's separator.

use vstd::prelude::*;
use vstd::string::StrSliceExecFns;
use vstd::string::StringExecFns;

verus! {

/// The characters the renderer treats as blank when it decides whether a
/// joined fragment list is empty.
pub open spec fn is_ws_char(c: char) -> bool {
    c == ' ' || c == '\t' || c == '\n' || c == '\r'
}

/// A string is blank when every character in it is whitespace; the empty
/// string is blank.
pub open spec fn all_ws(s: Seq<char>) -> bool {
    forall|i: int| 0 <= i < s.len() ==> is_ws_char(#[trigger] s[i])
}

/// The text that joins two adjacent display fragments.
pub open spec fn separator() -> Seq<char> {
    " ; "@
}

/// The fragments of a step joined with the separator: empty for no
/// fragments, and no separator before the first or after the last one.
pub open spec fn join_frags(frags: Seq<Seq<char>>) -> Seq<char>
    decreases frags.len(),
{
    if frags.len() == 0 {
        Seq::empty()
    } else if frags.len() == 1 {
        frags[0]
    } else {
        frags[0] + separator() + join_frags(frags.skip(1))
    }
}

/// Appending one fragment appends it at the end of the joined text, after a
/// separator unless it is the first fragment.
pub proof fn lemma_join_push(frags: Seq<Seq<char>>, f: Seq<char>)
    ensures
        join_frags(frags.push(f)) == if frags.len() == 0 {
            f
        } else {
            join_frags(frags) + separator() + f
        },
    decreases frags.len(),
{
    let p = frags.push(f);
    if frags.len() == 0 {
        assert(p[0] == f);
    } else if frags.len() == 1 {
        assert(p[0] == frags[0]);
        assert(p.skip(1) =~= seq![f]);
        assert(join_frags(p.skip(1)) == f);
    } else {
        assert(p.skip(1) =~= frags.skip(1).push(f));
        lemma_join_push(frags.skip(1), f);
        assert(p[0] == frags[0]);
        assert(join_frags(p) == frags[0] + separator() + (join_frags(frags.skip(1)) + separator()
            + f));
        assert(frags[0] + separator() + (join_frags(frags.skip(1)) + separator() + f) =~= (frags[0]
            + separator() + join_frags(frags.skip(1))) + separator() + f);
    }
}

/// Character-for-character string equality, stated over the string views.
pub fn str_eq(a: &str, b: &str) -> (r: bool)
    ensures
        r == (a@ == b@),
{
    let alen = a.unicode_len();
    let blen = b.unicode_len();
    if alen != blen {
        return false;
    }
    let mut i: usize = 0;
    while i < alen
        invariant
            alen == a@.len(),
            alen == b@.len(),
            i <= alen,
            forall|j: int| 0 <= j < i ==> a@[j] == b@[j],
        decreases alen - i,
    {
        if a.get_char(i) != b.get_char(i) {
            return false;
        }
        i = i + 1;
    }
    proof {
        assert(a@ =~= b@);
    }
    true
}

/// Whether every character of the string is whitespace.
pub fn is_blank(s: &str) -> (r: bool)
    ensures
        r == all_ws(s@),
{
    let len = s.unicode_len();
    let mut i: usize = 0;
    while i < len
        invariant
            len == s@.len(),
            i <= len,
            forall|j: int| 0 <= j < i ==> is_ws_char(#[trigger] s@[j]),
        decreases len - i,
    {
        let c = s.get_char(i);
        if !(c == ' ' || c == '\t' || c == '\n' || c == '\r') {
            return false;
        }
        i = i + 1;
    }
    true
}

/// Joins the fragments with the separator, matching `join_frags`.
pub fn join_fragments(frags: &Vec<String>) -> (r: String)
    ensures
        r@ == join_frags(frags.deep_view()),
{
    let ghost dv = frags.deep_view();
    let mut out = String::new();
    let mut i: usize = 0;
    while i < frags.len()
        invariant
            dv == frags.deep_view(),
            dv.len() == frags@.len(),
            i <= frags.len(),
            out@ == join_frags(dv.take(i as int)),
        decreases frags.len() - i,
    {
        proof {
            assert(dv[i as int] == frags@[i as int]@);
            assert(dv.take(i as int + 1) =~= dv.take(i as int).push(dv[i as int]));
            lemma_join_push(dv.take(i as int), dv[i as int]);
        }
        if i > 0 {
            out.append(" ; ");
        } else {
            proof {
                assert(Seq::<char>::empty() + dv[i as int] =~= dv[i as int]);
            }
        }
        out.append(frags[i].as_str());
        i = i + 1;
    }
    proof {
        assert(dv.take(frags@.len() as int) =~= dv);
    }
    out
}

} // verus!
