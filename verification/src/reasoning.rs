//! Separates a model's hidden reasoning from its visible answer.
//!
//! A reply may carry a reasoning segment between an opening and a closing
//! marker. Only the first pair counts. A reply that opens a segment and never
//! closes it has no usable answer.

use vstd::prelude::*;
use vstd::string::*;
use crate::text::{
    absent, chars_of, find_in, first_occurrence, is_first_occurrence,
    lemma_first_occurrence_absent, lemma_first_occurrence_found, lemma_first_occurrence_none,
    lemma_first_occurrence_spot,
    occurs_at, trim, trim_bounds,
};

verus! {

/// The marker that opens a reasoning segment.
pub const OPEN_MARKER: &'static str = "<think>";

/// The marker that closes a reasoning segment.
pub const CLOSE_MARKER: &'static str = "</think>";

/// The opening marker as characters.
pub open spec fn open_marker() -> Seq<char> {
    "<think>"@
}

/// The closing marker as characters.
pub open spec fn close_marker() -> Seq<char> {
    "</think>"@
}

/// What follows the first opening marker of `s`, which stands at `i`.
pub open spec fn after_open(s: Seq<char>, i: int) -> Seq<char> {
    s.subrange(i + open_marker().len(), s.len() as int)
}

/// The reasoning and the answer held in a raw reply.
///
/// Without an opening marker the whole reply, trimmed, is the answer and the
/// reasoning is empty. With one, the closing marker is looked for behind it:
/// the reasoning is what stands between the two, the answer what follows the
/// closing marker, both trimmed. An opening marker that is never closed
/// gives `None`.
pub open spec fn split_reasoning(s: Seq<char>) -> Option<(Seq<char>, Seq<char>)> {
    match first_occurrence(s, open_marker()) {
        None => Some((Seq::<char>::empty(), trim(s))),
        Some(i) => {
            let rest = after_open(s, i);
            match first_occurrence(rest, close_marker()) {
                None => None,
                Some(j) => Some(
                    (
                        trim(rest.subrange(0, j)),
                        trim(rest.subrange(j + close_marker().len(), rest.len() as int)),
                    ),
                ),
            }
        },
    }
}

/// The views of an optional pair of strings.
pub open spec fn pair_view(r: Option<(String, String)>) -> Option<(Seq<char>, Seq<char>)> {
    match r {
        Some((a, b)) => Some((a@, b@)),
        None => None,
    }
}

/// Splits a raw reply into its reasoning and its answer.
pub fn extract_think_and_answer(content: &str) -> (r: Option<(String, String)>)
    ensures
        pair_view(r) == split_reasoning(content@),
{
    proof {
        reveal_strlit("<think>");
        reveal_strlit("</think>");
    }
    let v = chars_of(content);
    let open = chars_of(OPEN_MARKER);
    let close = chars_of(CLOSE_MARKER);
    let n: usize = v.len();
    assert(v@.subrange(0, n as int) =~= v@);
    match find_in(&v, 0, n, &open) {
        None => {
            let (a, b) = trim_bounds(&v, 0, n);
            let answer = content.substring_char(a, b).to_owned();
            Some((String::new(), answer))
        },
        Some(start) => {
            proof {
                lemma_first_occurrence_spot(v@, open@);
            }
            let from: usize = start + open.len();
            match find_in(&v, from, n, &close) {
                None => None,
                Some(end) => {
                    let ghost rest = v@.subrange(from as int, n as int);
                    proof {
                        lemma_first_occurrence_spot(rest, close@);
                        assert(rest.subrange(0, end as int) =~= v@.subrange(
                            from as int,
                            from + end,
                        ));
                        assert(rest.subrange(end + close@.len(), rest.len() as int) =~= v@.subrange(
                            from + end + close@.len(),
                            n as int,
                        ));
                    }
                    let stop: usize = from + end;
                    let (a, b) = trim_bounds(&v, from, stop);
                    let (c, d) = trim_bounds(&v, stop + close.len(), n);
                    let think = content.substring_char(a, b).to_owned();
                    let answer = content.substring_char(c, d).to_owned();
                    Some((think, answer))
                },
            }
        },
    }
}

/// A reply without an opening marker is all answer: the reasoning is empty and
/// the answer is the trimmed reply.
pub proof fn lemma_plain_reply(t: Seq<char>)
    requires
        absent(t, open_marker()),
    ensures
        split_reasoning(t) == Some((Seq::<char>::empty(), trim(t))),
{
    lemma_first_occurrence_absent(t, open_marker());
}

/// A reply made of the opening marker, a reasoning `r`, the closing marker and
/// an answer `a` splits into the trimmed `r` and the trimmed `a`, provided the
/// closing marker does not already stand earlier in what follows the opening
/// marker.
pub proof fn lemma_marked_reply(r: Seq<char>, a: Seq<char>)
    requires
        forall|j: int| 0 <= j < r.len() ==> !occurs_at(r + close_marker() + a, close_marker(), j),
    ensures
        split_reasoning(open_marker() + r + close_marker() + a) == Some((trim(r), trim(a))),
{
    reveal_strlit("<think>");
    reveal_strlit("</think>");
    let t = open_marker() + r + close_marker() + a;
    let rest = r + close_marker() + a;
    assert(t.subrange(0, open_marker().len() as int) =~= open_marker());
    assert(is_first_occurrence(t, open_marker(), 0));
    lemma_first_occurrence_found(t, open_marker(), 0);
    assert(after_open(t, 0) =~= rest);
    let k = r.len() as int;
    assert(rest.subrange(k, k + close_marker().len()) =~= close_marker());
    assert(is_first_occurrence(rest, close_marker(), k));
    lemma_first_occurrence_found(rest, close_marker(), k);
    assert(rest.subrange(0, k) =~= r);
    assert(rest.subrange(k + close_marker().len(), rest.len() as int) =~= a);
}

/// A reply whose first opening marker is followed by no closing marker has no
/// usable answer.
pub proof fn lemma_unclosed_reply(t: Seq<char>, i: int)
    requires
        is_first_occurrence(t, open_marker(), i),
        absent(after_open(t, i), close_marker()),
    ensures
        split_reasoning(t) is None,
{
    lemma_first_occurrence_found(t, open_marker(), i);
    lemma_first_occurrence_absent(after_open(t, i), close_marker());
}

/// The outcome is `None` in no other case: `split_reasoning` fails exactly
/// when an opening marker stands in the reply and no closing marker follows
/// the first one.
pub proof fn lemma_no_answer_iff_unclosed(t: Seq<char>)
    ensures
        split_reasoning(t) is None <==> exists|i: int|
            is_first_occurrence(t, open_marker(), i) && absent(
                #[trigger] after_open(t, i),
                close_marker(),
            ),
{
    if split_reasoning(t) is None {
        let i = first_occurrence(t, open_marker())->0;
        lemma_first_occurrence_spot(t, open_marker());
        lemma_first_occurrence_none(after_open(t, i), close_marker());
    }
    if exists|i: int|
        is_first_occurrence(t, open_marker(), i) && absent(
            #[trigger] after_open(t, i),
            close_marker(),
        ) {
        let i = choose|i: int|
            is_first_occurrence(t, open_marker(), i) && absent(
                #[trigger] after_open(t, i),
                close_marker(),
            );
        lemma_unclosed_reply(t, i);
    }
}

} // verus!
