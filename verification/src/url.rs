//! The URL matcher: a broad scan that picks the first thing in a text that looks like
//! a web address, and a strict check of its shape.
//!
//! Positions are counted in characters, not in bytes.

use crate::text::{
    ascii_letter, chars_of, is_ascii_letter, is_white_space, is_word_char, white_space, word_char,
};
use vstd::prelude::*;

verus! {

broadcast use vstd::string::group_string_axioms;

/// `http://` stands in `s` at `i`.
pub open spec fn http_at(s: Seq<char>, i: int) -> bool {
    &&& 0 <= i
    &&& i + 7 <= s.len()
    &&& s[i] == 'h'
    &&& s[i + 1] == 't'
    &&& s[i + 2] == 't'
    &&& s[i + 3] == 'p'
    &&& s[i + 4] == ':'
    &&& s[i + 5] == '/'
    &&& s[i + 6] == '/'
}

/// `https://` stands in `s` at `i`.
pub open spec fn https_at(s: Seq<char>, i: int) -> bool {
    &&& 0 <= i
    &&& i + 8 <= s.len()
    &&& s[i] == 'h'
    &&& s[i + 1] == 't'
    &&& s[i + 2] == 't'
    &&& s[i + 3] == 'p'
    &&& s[i + 4] == 's'
    &&& s[i + 5] == ':'
    &&& s[i + 6] == '/'
    &&& s[i + 7] == '/'
}

/// The length of the scheme, `://` included, that stands in `s` at `i`; 0 if none does.
pub open spec fn scheme_at(s: Seq<char>, i: int) -> int {
    if http_at(s, i) {
        7
    } else if https_at(s, i) {
        8
    } else {
        0
    }
}

/// A candidate starts at `i`: a scheme, and at least one character after it that is
/// no white space.
pub open spec fn candidate_at(s: Seq<char>, i: int) -> bool {
    let k = scheme_at(s, i);
    k > 0 && i + k < s.len() && !white_space(s[i + k])
}

/// The leftmost candidate starts at `a`.
pub open spec fn first_candidate_at(s: Seq<char>, a: int) -> bool {
    candidate_at(s, a) && forall|j: int| 0 <= j < a ==> !candidate_at(s, j)
}

/// The run of characters that are no white space and that begins at `a` ends before `e`.
pub open spec fn run_end(s: Seq<char>, a: int, e: int) -> bool {
    &&& 0 <= a <= e <= s.len()
    &&& forall|j: int| a <= j < e ==> !white_space(s[j])
    &&& (e == s.len() || white_space(s[e]))
}

/// The leftmost candidate of `s` is `s[a..e]`: it runs on to the next white space
/// or to the end of the text.
pub open spec fn is_candidate(s: Seq<char>, a: int, e: int) -> bool {
    first_candidate_at(s, a) && run_end(s, a, e)
}

/// The span of the leftmost candidate of `s`, if `s` has one.
pub open spec fn candidate(s: Seq<char>) -> Option<(int, int)> {
    if exists|a: int, e: int| is_candidate(s, a, e) {
        let (a, e) = choose|a: int, e: int| is_candidate(s, a, e);
        Some((a, e))
    } else {
        None
    }
}

/// A character of a host name: a word character, a hyphen or a dot.
pub open spec fn host_char(c: char) -> bool {
    word_char(c) || c == '-' || c == '.'
}

/// `u` is a scheme, then a non-empty stretch of host characters, then a dot at `dot`,
/// then a top-level label of two or more letters that ends before `end`; what is left
/// from `end` on is empty, or a path: a slash followed by anything but white space.
pub open spec fn url_shape(u: Seq<char>, dot: int, end: int) -> bool {
    &&& scheme_at(u, 0) > 0
    &&& scheme_at(u, 0) < dot
    &&& dot + 3 <= end <= u.len()
    &&& forall|i: int| scheme_at(u, 0) <= i < dot ==> host_char(u[i])
    &&& u[dot] == '.'
    &&& forall|i: int| dot < i < end ==> ascii_letter(u[i])
    &&& (end == u.len() || u[end] == '/')
    &&& forall|i: int| end <= i < u.len() ==> !white_space(u[i])
}

/// `u`, as a whole, has the shape of a web address.
pub open spec fn well_formed_url(u: Seq<char>) -> bool {
    exists|dot: int, end: int| url_shape(u, dot, end)
}

/// What the matcher says of a text, over plain sequences.
pub enum UrlVerdict {
    /// The leftmost candidate, which is well formed.
    Valid(Seq<char>),
    /// There is a candidate, and it is not well formed.
    Invalid,
    /// There is no candidate.
    Absent,
}

/// What the matcher says of a text.
#[derive(Clone, Debug, PartialEq, Eq)]
pub enum UrlMatch {
    Valid(String),
    Invalid,
    Absent,
}

impl View for UrlMatch {
    type V = UrlVerdict;

    open spec fn view(&self) -> UrlVerdict {
        match self {
            UrlMatch::Valid(url) => UrlVerdict::Valid(url@),
            UrlMatch::Invalid => UrlVerdict::Invalid,
            UrlMatch::Absent => UrlVerdict::Absent,
        }
    }
}

/// The verdict on `s`: only the leftmost candidate is looked at.
pub open spec fn classify(s: Seq<char>) -> UrlVerdict {
    match candidate(s) {
        None => UrlVerdict::Absent,
        Some((a, e)) => {
            let u = s.subrange(a, e);
            if well_formed_url(u) {
                UrlVerdict::Valid(u)
            } else {
                UrlVerdict::Invalid
            }
        },
    }
}

/// A text has at most one leftmost candidate.
pub proof fn lemma_candidate_unique(s: Seq<char>, a1: int, e1: int, a2: int, e2: int)
    requires
        is_candidate(s, a1, e1),
        is_candidate(s, a2, e2),
    ensures
        a1 == a2,
        e1 == e2,
{
    if a1 < a2 {
        assert(!candidate_at(s, a1));
    }
    if a2 < a1 {
        assert(!candidate_at(s, a2));
    }
    if e1 < e2 {
        assert(!white_space(s[e1]));
    }
    if e2 < e1 {
        assert(!white_space(s[e2]));
    }
}

/// Whoever exhibits the leftmost candidate knows what `candidate` is.
pub proof fn lemma_candidate_is(s: Seq<char>, a: int, e: int)
    requires
        is_candidate(s, a, e),
    ensures
        candidate(s) == Some((a, e)),
{
    let (a2, e2) = choose|a2: int, e2: int| is_candidate(s, a2, e2);
    lemma_candidate_unique(s, a, e, a2, e2);
}

/// A text in which no candidate starts has none.
pub proof fn lemma_candidate_none(s: Seq<char>)
    requires
        forall|i: int| !candidate_at(s, i),
    ensures
        candidate(s) is None,
{
}

/// The length of the scheme that stands in `chars` at `i`.
fn scheme_len(chars: &Vec<char>, i: usize) -> (k: usize)
    requires
        i <= chars.len(),
    ensures
        k == scheme_at(chars@, i as int),
{
    let n = chars.len();
    if n - i < 7 {
        return 0;
    }
    if chars[i] != 'h' || chars[i + 1] != 't' || chars[i + 2] != 't' || chars[i + 3] != 'p' {
        return 0;
    }
    if chars[i + 4] == ':' && chars[i + 5] == '/' && chars[i + 6] == '/' {
        return 7;
    }
    if n - i >= 8 && chars[i + 4] == 's' && chars[i + 5] == ':' && chars[i + 6] == '/' && chars[i
        + 7] == '/' {
        return 8;
    }
    0
}

fn is_host_char(c: char) -> (b: bool)
    ensures
        b == host_char(c),
{
    c == '-' || c == '.' || is_word_char(c)
}

/// The span of the leftmost candidate among `chars`.
fn scan(chars: &Vec<char>) -> (r: Option<(usize, usize)>)
    ensures
        match r {
            Some((a, e)) => is_candidate(chars@, a as int, e as int),
            None => forall|i: int| !candidate_at(chars@, i),
        },
{
    let n = chars.len();
    let mut i: usize = 0;
    while i < n
        invariant
            i <= n == chars@.len(),
            forall|j: int| 0 <= j < i ==> !candidate_at(chars@, j),
        decreases n - i,
    {
        let k = scheme_len(chars, i);
        if k > 0 && n - i > k && !is_white_space(chars[i + k]) {
            let mut e: usize = i + k + 1;
            while e < n && !is_white_space(chars[e])
                invariant
                    i + k < e <= n == chars@.len(),
                    k == scheme_at(chars@, i as int),
                    k > 0,
                    forall|j: int| i + k <= j < e ==> !white_space(chars@[j]),
                decreases n - e,
            {
                e += 1;
            }
            return Some((i, e));
        }
        i += 1;
    }
    None
}

/// Finds the leftmost candidate of `text`: where it starts and where it ends, in
/// characters.
pub fn find_candidate(text: &str) -> (r: Option<(usize, usize)>)
    ensures
        match r {
            Some((a, e)) => candidate(text@) == Some((a as int, e as int)),
            None => candidate(text@) is None,
        },
{
    let chars = chars_of(text);
    let r = scan(&chars);
    proof {
        match r {
            Some((a, e)) => lemma_candidate_is(text@, a as int, e as int),
            None => lemma_candidate_none(text@),
        }
    }
    r
}

/// The strict check: whether `url`, as a whole, has the shape of a web address.
pub fn is_valid_url(url: &str) -> (b: bool)
    ensures
        b == well_formed_url(url@),
{
    let chars = chars_of(url);
    let n = chars.len();
    let k = scheme_len(&chars, 0);
    if k == 0 {
        return false;
    }
    // The host characters end at `p`.
    let mut p: usize = k;
    while p < n && is_host_char(chars[p])
        invariant
            k <= p <= n == chars@.len(),
            forall|i: int| k <= i < p ==> host_char(chars@[i]),
        decreases n - p,
    {
        p += 1;
    }
    assert forall|dot: int, end: int| url_shape(chars@, dot, end) implies end == p by {
        if end < p {
            assert(host_char(chars@[end]));
        }
        if p < end {
            if p < dot {
                assert(host_char(chars@[p as int]));
            } else if p > dot {
                assert(ascii_letter(chars@[p as int]));
            }
        }
    }
    if p < n && chars[p] != '/' {
        return false;
    }
    let mut q: usize = p;
    while q < n
        invariant
            p <= q <= n == chars@.len(),
            chars@ == url@,
            forall|dot: int, end: int| url_shape(chars@, dot, end) ==> end == p,
            forall|i: int| p <= i < q ==> !white_space(chars@[i]),
        decreases n - q,
    {
        if is_white_space(chars[q]) {
            return false;
        }
        q += 1;
    }
    // The letters before `p` begin at `t`.
    let mut t: usize = p;
    while t > k && is_ascii_letter(chars[t - 1])
        invariant
            k <= t <= p,
            p <= chars@.len(),
            forall|i: int| t <= i < p ==> ascii_letter(chars@[i]),
        decreases t,
    {
        t -= 1;
    }
    assert forall|dot: int, end: int| url_shape(chars@, dot, end) implies dot == t - 1 by {
        if dot >= t {
            assert(ascii_letter(chars@[dot]));
        }
        if dot < t - 1 {
            assert(ascii_letter(chars@[t - 1]));
        }
    }
    if t >= k + 2 && p - t >= 2 && chars[t - 1] == '.' {
        assert(url_shape(chars@, t - 1, p as int));
        true
    } else {
        false
    }
}

/// The URL matcher: looks for the leftmost candidate in `text` and checks its shape.
pub fn match_url(text: &str) -> (m: UrlMatch)
    ensures
        m@ == classify(text@),
{
    match find_candidate(text) {
        None => UrlMatch::Absent,
        Some((a, e)) => {
            let found = text.substring_char(a, e);
            if is_valid_url(found) {
                UrlMatch::Valid(found.to_owned())
            } else {
                UrlMatch::Invalid
            }
        },
    }
}

/// A text in which neither `http://` nor `https://` occurs holds no URL.
pub proof fn lemma_absent_without_scheme(s: Seq<char>)
    requires
        forall|i: int| !http_at(s, i) && !https_at(s, i),
    ensures
        classify(s) == UrlVerdict::Absent,
{
    lemma_candidate_none(s);
}

/// A well-formed URL without white space in it, which is followed by white space or by
/// the end of the text and before which no candidate starts, is what the matcher
/// returns, whatever else the text holds.
pub proof fn lemma_extracts_delimited_url(before: Seq<char>, url: Seq<char>, after: Seq<char>)
    requires
        well_formed_url(url),
        forall|i: int| 0 <= i < url.len() ==> !white_space(url[i]),
        after.len() == 0 || white_space(after[0]),
        forall|j: int| 0 <= j < before.len() ==> !candidate_at(before + url + after, j),
    ensures
        classify(before + url + after) == UrlVerdict::Valid(url),
{
    let s = before + url + after;
    let a = before.len() as int;
    let e = a + url.len();
    let (dot, end) = choose|dot: int, end: int| url_shape(url, dot, end);
    assert forall|i: int| 0 <= i < url.len() implies s[a + i] == url[i] by {}
    assert(http_at(url, 0) ==> http_at(s, a));
    assert(https_at(url, 0) ==> https_at(s, a));
    assert(!http_at(url, 0) ==> !http_at(s, a)) by {
        if http_at(s, a) {
            assert(a + 7 <= e) by {
                assert(scheme_at(url, 0) >= 7);
            }
        }
    }
    assert(scheme_at(s, a) == scheme_at(url, 0));
    assert(s[a + scheme_at(url, 0)] == url[scheme_at(url, 0)]);
    assert(candidate_at(s, a));
    assert forall|j: int| a <= j < e implies !white_space(s[j]) by {
        assert(s[j] == url[j - a]);
    }
    if after.len() > 0 {
        assert(s[e] == after[0]);
    }
    assert(is_candidate(s, a, e));
    lemma_candidate_is(s, a, e);
    assert(s.subrange(a, e) =~= url);
}

/// Without a dot, nothing is well formed.
pub proof fn lemma_dotless_is_malformed(u: Seq<char>)
    requires
        forall|i: int| 0 <= i < u.len() ==> u[i] != '.',
    ensures
        !well_formed_url(u),
{
}

/// A text whose leftmost candidate holds no dot is invalid.
pub proof fn lemma_dotless_candidate_is_invalid(s: Seq<char>, a: int, e: int)
    requires
        is_candidate(s, a, e),
        forall|i: int| a <= i < e ==> s[i] != '.',
    ensures
        classify(s) == UrlVerdict::Invalid,
{
    lemma_candidate_is(s, a, e);
    lemma_dotless_is_malformed(s.subrange(a, e));
}

/// What the matcher returns as valid passes the strict check, and the matcher returns
/// it again when it is given that URL alone: validating twice changes nothing.
pub proof fn lemma_valid_is_stable(s: Seq<char>, u: Seq<char>)
    requires
        classify(s) == UrlVerdict::Valid(u),
    ensures
        well_formed_url(u),
        classify(u) == UrlVerdict::Valid(u),
{
    let (a, e) = choose|a: int, e: int| is_candidate(s, a, e);
    assert(u == s.subrange(a, e));
    let (dot, end) = choose|dot: int, end: int| url_shape(u, dot, end);
    assert forall|j: int| 0 <= j < u.len() implies !white_space(u[j]) by {
        assert(u[j] == s[a + j]);
    }
    assert(is_candidate(u, 0, u.len() as int));
    lemma_candidate_is(u, 0, u.len() as int);
    assert(u.subrange(0, u.len() as int) =~= u);
}

} // verus!
