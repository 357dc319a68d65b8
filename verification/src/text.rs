//! Character-level text operations: whitespace trimming and substring search.
//!
//! Everything here is stated over `Seq<char>`, the view of `str` and `String`,
//! so that positions count characters rather than encoded bytes.

use vstd::prelude::*;
use vstd::string::*;

verus! {

broadcast use vstd::string::group_string_axioms;

/// Whether `c` has the Unicode `White_Space` property.
pub open spec fn is_space(c: char) -> bool {
    let u = c as u32;
    ||| 0x09 <= u <= 0x0D
    ||| u == 0x20
    ||| u == 0x85
    ||| u == 0xA0
    ||| u == 0x1680
    ||| 0x2000 <= u <= 0x200A
    ||| u == 0x2028
    ||| u == 0x2029
    ||| u == 0x202F
    ||| u == 0x205F
    ||| u == 0x3000
}

/// The texts of a sequence of strings, in order.
pub open spec fn texts(v: Seq<String>) -> Seq<Seq<char>> {
    v.map_values(|s: String| s@)
}

/// `s` without its leading whitespace.
pub open spec fn trim_start(s: Seq<char>) -> Seq<char>
    decreases s.len(),
{
    if s.len() > 0 && is_space(s.first()) {
        trim_start(s.drop_first())
    } else {
        s
    }
}

/// `s` without its trailing whitespace.
pub open spec fn trim_end(s: Seq<char>) -> Seq<char>
    decreases s.len(),
{
    if s.len() > 0 && is_space(s.last()) {
        trim_end(s.drop_last())
    } else {
        s
    }
}

/// `s` without leading and trailing whitespace.
pub open spec fn trim(s: Seq<char>) -> Seq<char> {
    trim_end(trim_start(s))
}

/// Every character of `s` is whitespace.
pub open spec fn all_space(s: Seq<char>) -> bool {
    forall|i: int| 0 <= i < s.len() ==> is_space(#[trigger] s[i])
}

/// `pat` stands in `s` at position `i`.
pub open spec fn occurs_at(s: Seq<char>, pat: Seq<char>, i: int) -> bool {
    &&& 0 <= i
    &&& i + pat.len() <= s.len()
    &&& s.subrange(i, i + pat.len()) == pat
}

/// `pat` stands in `s` at position `i` and at no earlier position.
pub open spec fn is_first_occurrence(s: Seq<char>, pat: Seq<char>, i: int) -> bool {
    &&& occurs_at(s, pat, i)
    &&& forall|j: int| 0 <= j < i ==> !occurs_at(s, pat, j)
}

/// `pat` stands nowhere in `s`.
pub open spec fn absent(s: Seq<char>, pat: Seq<char>) -> bool {
    forall|j: int| !occurs_at(s, pat, j)
}

/// The position of the first occurrence of `pat` in `s`, if there is one.
pub open spec fn first_occurrence(s: Seq<char>, pat: Seq<char>) -> Option<int> {
    if exists|i: int| is_first_occurrence(s, pat, i) {
        Some(choose|i: int| is_first_occurrence(s, pat, i))
    } else {
        None
    }
}

/// Where `first_occurrence` names a position, the pattern stands there and
/// fits inside the text.
pub proof fn lemma_first_occurrence_spot(s: Seq<char>, pat: Seq<char>)
    requires
        first_occurrence(s, pat) is Some,
    ensures
        is_first_occurrence(s, pat, first_occurrence(s, pat)->0),
{
}

/// A first occurrence is unique, so it is the one `first_occurrence` names.
pub proof fn lemma_first_occurrence_found(s: Seq<char>, pat: Seq<char>, i: int)
    requires
        is_first_occurrence(s, pat, i),
    ensures
        first_occurrence(s, pat) == Some(i),
{
    let k = choose|k: int| is_first_occurrence(s, pat, k);
    assert(is_first_occurrence(s, pat, k));
    if k < i {
        assert(!occurs_at(s, pat, k));
    } else if i < k {
        assert(!occurs_at(s, pat, i));
    }
}

/// Where the pattern stands nowhere there is no first occurrence.
pub proof fn lemma_first_occurrence_absent(s: Seq<char>, pat: Seq<char>)
    requires
        absent(s, pat),
    ensures
        first_occurrence(s, pat) is None,
{
    if exists|i: int| is_first_occurrence(s, pat, i) {
        let k = choose|k: int| is_first_occurrence(s, pat, k);
        assert(occurs_at(s, pat, k));
    }
}

/// `first_occurrence` answers `None` exactly when the pattern is absent.
pub proof fn lemma_first_occurrence_none(s: Seq<char>, pat: Seq<char>)
    requires
        first_occurrence(s, pat) is None,
    ensures
        absent(s, pat),
{
    if !absent(s, pat) {
        let j = choose|j: int| occurs_at(s, pat, j);
        lemma_least_occurrence(s, pat, j);
    }
}

/// Below any occurrence there is a first one.
proof fn lemma_least_occurrence(s: Seq<char>, pat: Seq<char>, j: int)
    requires
        occurs_at(s, pat, j),
    ensures
        exists|i: int| is_first_occurrence(s, pat, i),
    decreases j,
{
    if exists|k: int| 0 <= k < j && occurs_at(s, pat, k) {
        let k = choose|k: int| 0 <= k < j && occurs_at(s, pat, k);
        lemma_least_occurrence(s, pat, k);
    } else {
        assert(is_first_occurrence(s, pat, j));
    }
}

/// Trimming cuts whitespace off both ends and nothing else: the input is a run
/// of whitespace, the trimmed text, and another run of whitespace, and the
/// trimmed text neither starts nor ends with whitespace.
pub proof fn lemma_trim_core(s: Seq<char>)
    ensures
        exists|a: int, b: int|
            0 <= a <= b <= s.len() && #[trigger] s.subrange(a, b) == trim(s) && all_space(
                s.subrange(0, a),
            ) && all_space(s.subrange(b, s.len() as int)),
        trim(s).len() > 0 ==> !is_space(trim(s).first()) && !is_space(trim(s).last()),
{
    let a = lemma_trim_start_core(s);
    let t = trim_start(s);
    let n = lemma_trim_end_core(t);
    let b = a + n;
    assert(s.subrange(a, b) =~= t.subrange(0, n));
    assert(all_space(s.subrange(b, s.len() as int))) by {
        assert forall|i: int| 0 <= i < s.len() - b implies is_space(
            #[trigger] s.subrange(b, s.len() as int)[i],
        ) by {
            assert(s.subrange(b, s.len() as int)[i] == t.subrange(n, t.len() as int)[i]);
        }
    }
    if trim(s).len() > 0 {
        assert(trim(s).first() == t.first());
    }
}

/// `trim_start` drops a whitespace prefix and stops at the first other character.
proof fn lemma_trim_start_core(s: Seq<char>) -> (a: int)
    ensures
        0 <= a <= s.len(),
        trim_start(s) == s.subrange(a, s.len() as int),
        all_space(s.subrange(0, a)),
        a < s.len() ==> !is_space(s[a]),
    decreases s.len(),
{
    if s.len() > 0 && is_space(s.first()) {
        let r = s.drop_first();
        let k = lemma_trim_start_core(r);
        assert(r.subrange(k, r.len() as int) =~= s.subrange(k + 1, s.len() as int));
        assert forall|i: int| 0 <= i < k + 1 implies is_space(#[trigger] s.subrange(0, k + 1)[i]) by {
            if i > 0 {
                assert(s.subrange(0, k + 1)[i] == r.subrange(0, k)[i - 1]);
            }
        }
        k + 1
    } else {
        assert(s.subrange(0, s.len() as int) =~= s);
        0
    }
}

/// `trim_end` drops a whitespace suffix and stops at the last other character.
proof fn lemma_trim_end_core(s: Seq<char>) -> (b: int)
    ensures
        0 <= b <= s.len(),
        trim_end(s) == s.subrange(0, b),
        all_space(s.subrange(b, s.len() as int)),
        b > 0 ==> !is_space(s[b - 1]),
    decreases s.len(),
{
    if s.len() > 0 && is_space(s.last()) {
        let r = s.drop_last();
        let k = lemma_trim_end_core(r);
        assert(r.subrange(0, k) =~= s.subrange(0, k));
        assert forall|i: int| 0 <= i < s.len() - k implies is_space(
            #[trigger] s.subrange(k, s.len() as int)[i],
        ) by {
            if i < r.len() - k {
                assert(s.subrange(k, s.len() as int)[i] == r.subrange(k, r.len() as int)[i]);
            }
        }
        k
    } else {
        assert(s.subrange(0, s.len() as int) =~= s);
        s.len() as int
    }
}

/// Whether two texts hold the same characters.
pub fn same_text(a: &str, b: &str) -> (eq: bool)
    ensures
        eq == (a@ == b@),
{
    let x = a.to_owned();
    let y = b.to_owned();
    x == y
}

/// Whether `c` is whitespace.
pub fn is_whitespace(c: char) -> (b: bool)
    ensures
        b == is_space(c),
{
    let u: u32 = c as u32;
    (0x09 <= u && u <= 0x0D) || u == 0x20 || u == 0x85 || u == 0xA0 || u == 0x1680 || (0x2000 <= u
        && u <= 0x200A) || u == 0x2028 || u == 0x2029 || u == 0x202F || u == 0x205F || u == 0x3000
}

/// The characters of `s`, in order.
pub fn chars_of(s: &str) -> (v: Vec<char>)
    ensures
        v@ == s@,
{
    let mut v: Vec<char> = Vec::new();
    for c in it: s.chars()
        invariant
            it.seq() == s@,
            v@ == it.seq().subrange(0, it.index() as int),
    {
        v.push(c);
    }
    assert(v@ =~= s@);
    v
}

/// Whether `pat` stands in `v` at position `at`.
fn matches_at(v: &Vec<char>, at: usize, pat: &Vec<char>) -> (b: bool)
    requires
        at + pat.len() <= v.len(),
    ensures
        b == occurs_at(v@, pat@, at as int),
{
    let m: usize = pat.len();
    let mut k: usize = 0;
    while k < m
        invariant
            m == pat.len(),
            at + m <= v.len(),
            k <= m,
            forall|j: int| 0 <= j < k ==> v@[at + j] == pat@[j],
        decreases m - k,
    {
        if v[at + k] != pat[k] {
            proof {
                assert(v@.subrange(at as int, at + m)[k as int] == v@[at + k]);
            }
            return false;
        }
        k += 1;
    }
    assert(v@.subrange(at as int, at + m) =~= pat@);
    true
}

/// Searches the part of `v` between `lo` and `hi` for the first occurrence of
/// `pat`, and answers with its position counted from `lo`.
pub fn find_in(v: &Vec<char>, lo: usize, hi: usize, pat: &Vec<char>) -> (r: Option<usize>)
    requires
        lo <= hi <= v.len(),
    ensures
        match r {
            Some(i) => first_occurrence(v@.subrange(lo as int, hi as int), pat@) == Some(i as int),
            None => first_occurrence(v@.subrange(lo as int, hi as int), pat@) is None,
        },
{
    let ghost s = v@.subrange(lo as int, hi as int);
    let m: usize = pat.len();
    if hi - lo < m {
        proof {
            lemma_first_occurrence_absent(s, pat@);
        }
        return None;
    }
    let last: usize = hi - lo - m;
    let mut i: usize = 0;
    while i < last
        invariant
            lo <= hi <= v.len(),
            m == pat.len(),
            last == hi - lo - m,
            i <= last,
            s == v@.subrange(lo as int, hi as int),
            forall|j: int| 0 <= j < i ==> !occurs_at(s, pat@, j),
        decreases last - i,
    {
        let found = matches_at(v, lo + i, pat);
        proof {
            assert(s.subrange(i as int, i + m) =~= v@.subrange(lo + i, lo + i + m));
        }
        if found {
            proof {
                lemma_first_occurrence_found(s, pat@, i as int);
            }
            return Some(i);
        }
        i += 1;
    }
    let found = matches_at(v, lo + last, pat);
    proof {
        assert(s.subrange(last as int, last + m) =~= v@.subrange(lo + last, lo + last + m));
    }
    if found {
        proof {
            lemma_first_occurrence_found(s, pat@, last as int);
        }
        Some(last)
    } else {
        proof {
            lemma_first_occurrence_absent(s, pat@);
        }
        None
    }
}

/// The bounds, within `lo..hi` of `v`, of what trimming leaves of that part.
pub fn trim_bounds(v: &Vec<char>, lo: usize, hi: usize) -> (r: (usize, usize))
    requires
        lo <= hi <= v.len(),
    ensures
        lo <= r.0 <= r.1 <= hi,
        v@.subrange(r.0 as int, r.1 as int) == trim(v@.subrange(lo as int, hi as int)),
{
    let mut a: usize = lo;
    while a < hi && is_whitespace(v[a])
        invariant
            lo <= a <= hi <= v.len(),
            trim_start(v@.subrange(lo as int, hi as int)) == trim_start(
                v@.subrange(a as int, hi as int),
            ),
        decreases hi - a,
    {
        proof {
            assert(v@.subrange(a as int, hi as int).drop_first() =~= v@.subrange(
                a + 1,
                hi as int,
            ));
        }
        a += 1;
    }
    let mut b: usize = hi;
    while a < b && is_whitespace(v[b - 1])
        invariant
            lo <= a <= b <= hi <= v.len(),
            trim_start(v@.subrange(lo as int, hi as int)) == v@.subrange(a as int, hi as int),
            trim_end(v@.subrange(a as int, hi as int)) == trim_end(v@.subrange(a as int, b as int)),
        decreases b - a,
    {
        proof {
            assert(v@.subrange(a as int, b as int).drop_last() =~= v@.subrange(
                a as int,
                b - 1,
            ));
        }
        b -= 1;
    }
    (a, b)
}

} // verus!
