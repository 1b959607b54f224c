//! Extraction of the charge percentage and the time remaining from the text
//! that the battery status utility prints.
//!
//! The utility prints a line such as
//! `Battery 0: Discharging, 75%, 02:30:45 remaining`. A reading is present
//! exactly when some run of digits ends at a `%` and a well-formed `HH:MM:SS`
//! group starts somewhere after that `%`. The extracted percentage is the
//! whole digit run before the first such `%`; the extracted time is the first
//! well-formed group after it. Both fields are taken verbatim: nothing checks
//! that the percentage is at most 100 or that the time components are in
//! range.

use vstd::prelude::*;

verus! {

/// One battery reading: the percentage digits and the `HH:MM:SS` time
/// remaining, both exactly as they stood in the status text.
#[derive(Clone, Debug, PartialEq, Eq)]
pub struct ExtractedReading {
    pub percentage: String,
    pub remaining: String,
}

/// A decimal digit.
pub open spec fn is_digit_char(c: char) -> bool {
    '0' <= c && c <= '9'
}

/// Position `p` ends a percentage: it holds a `%` and the character just
/// before it is a digit.
pub open spec fn pct_at(s: Seq<char>, p: int) -> bool {
    &&& 1 <= p < s.len()
    &&& s[p] == '%'
    &&& is_digit_char(s[p - 1])
}

/// A well-formed time group `DD:DD:DD` (two digits, colon, two digits, colon,
/// two digits) starts at position `t`.
pub open spec fn time_at(s: Seq<char>, t: int) -> bool {
    &&& 0 <= t
    &&& t + 8 <= s.len()
    &&& is_digit_char(s[t])
    &&& is_digit_char(s[t + 1])
    &&& s[t + 2] == ':'
    &&& is_digit_char(s[t + 3])
    &&& is_digit_char(s[t + 4])
    &&& s[t + 5] == ':'
    &&& is_digit_char(s[t + 6])
    &&& is_digit_char(s[t + 7])
}

/// The first position `p >= i` with `pct_at(s, p)`, or `s.len()` when there
/// is none at or after `i`.
pub open spec fn first_pct_from(s: Seq<char>, i: int) -> int
    recommends
        0 <= i <= s.len(),
    decreases s.len() - i,
{
    if i >= s.len() {
        s.len() as int
    } else if pct_at(s, i) {
        i
    } else {
        first_pct_from(s, i + 1)
    }
}

/// The first position `t >= i` with `time_at(s, t)`, or `s.len()` when there
/// is none at or after `i`.
pub open spec fn first_time_from(s: Seq<char>, i: int) -> int
    recommends
        0 <= i <= s.len(),
    decreases s.len() - i,
{
    if i >= s.len() {
        s.len() as int
    } else if time_at(s, i) {
        i
    } else {
        first_time_from(s, i + 1)
    }
}

/// The start of the run of digits that ends just before position `p`: the
/// least `d` such that every character in `s[d..p]` is a digit.
pub open spec fn digit_run_start(s: Seq<char>, p: int) -> int
    recommends
        0 <= p <= s.len(),
    decreases p,
{
    if p <= 0 {
        0
    } else if is_digit_char(s[p - 1]) {
        digit_run_start(s, p - 1)
    } else {
        p
    }
}

/// The two fields that extraction yields from status text `s`, or `None` when
/// the pattern does not match: the digit run ending at the first
/// digit-preceded `%`, and the first well-formed time group after that `%`.
pub open spec fn extracted_fields(s: Seq<char>) -> Option<(Seq<char>, Seq<char>)> {
    let p = first_pct_from(s, 0);
    if p == s.len() {
        None
    } else {
        let t = first_time_from(s, p + 1);
        if t == s.len() {
            None
        } else {
            Some((s.subrange(digit_run_start(s, p), p), s.subrange(t, t + 8)))
        }
    }
}

fn digit_char(c: char) -> (r: bool)
    ensures
        r == is_digit_char(c),
{
    '0' <= c && c <= '9'
}

proof fn lemma_first_pct_from_unique(s: Seq<char>, i: int, p: int)
    requires
        0 <= i <= p <= s.len(),
        forall|q: int| i <= q < p ==> !pct_at(s, q),
        p < s.len() ==> pct_at(s, p),
    ensures
        first_pct_from(s, i) == p,
    decreases p - i,
{
    if i < p {
        assert(!pct_at(s, i));
        lemma_first_pct_from_unique(s, i + 1, p);
    }
}

proof fn lemma_first_time_from_unique(s: Seq<char>, i: int, t: int)
    requires
        0 <= i <= t <= s.len(),
        forall|u: int| i <= u < t ==> !time_at(s, u),
        t < s.len() ==> time_at(s, t),
    ensures
        first_time_from(s, i) == t,
    decreases t - i,
{
    if i < t {
        assert(!time_at(s, i));
        lemma_first_time_from_unique(s, i + 1, t);
    }
}

proof fn lemma_digit_run_start_unique(s: Seq<char>, d: int, p: int)
    requires
        0 <= d <= p <= s.len(),
        forall|k: int| d <= k < p ==> is_digit_char(s[k]),
        d == 0 || !is_digit_char(s[d - 1]),
    ensures
        digit_run_start(s, p) == d,
    decreases p - d,
{
    if d < p {
        assert(is_digit_char(s[p - 1]));
        lemma_digit_run_start_unique(s, d, p - 1);
    }
}

proof fn lemma_first_pct_from_props(s: Seq<char>, i: int)
    requires
        0 <= i <= s.len(),
    ensures
        i <= first_pct_from(s, i) <= s.len(),
        first_pct_from(s, i) < s.len() ==> pct_at(s, first_pct_from(s, i)),
        forall|q: int| i <= q < first_pct_from(s, i) ==> !pct_at(s, q),
    decreases s.len() - i,
{
    if i < s.len() && !pct_at(s, i) {
        lemma_first_pct_from_props(s, i + 1);
    }
}

proof fn lemma_first_time_from_props(s: Seq<char>, i: int)
    requires
        0 <= i <= s.len(),
    ensures
        i <= first_time_from(s, i) <= s.len(),
        first_time_from(s, i) < s.len() ==> time_at(s, first_time_from(s, i)),
        forall|u: int| i <= u < first_time_from(s, i) ==> !time_at(s, u),
    decreases s.len() - i,
{
    if i < s.len() && !time_at(s, i) {
        lemma_first_time_from_props(s, i + 1);
    }
}

fn first_pct_index(text: &str, n: usize) -> (r: Option<usize>)
    requires
        n == text@.len(),
    ensures
        (match r {
            Some(p) => p < n && pct_at(text@, p as int) && first_pct_from(text@, 0) == p as int,
            None => first_pct_from(text@, 0) == text@.len(),
        }),
{
    let mut i: usize = 1;
    while i < n
        invariant
            n == text@.len(),
            1 <= i,
            forall|q: int| 0 <= q < i ==> !pct_at(text@, q),
        decreases n - i,
    {
        if text.get_char(i) == '%' && digit_char(text.get_char(i - 1)) {
            proof {
                lemma_first_pct_from_unique(text@, 0, i as int);
            }
            return Some(i);
        }
        i += 1;
    }
    proof {
        lemma_first_pct_from_unique(text@, 0, text@.len() as int);
    }
    None
}

fn time_here(text: &str, t: usize, n: usize) -> (r: bool)
    requires
        n == text@.len(),
        t < n,
    ensures
        r == time_at(text@, t as int),
{
    if n - t < 8 {
        return false;
    }
    digit_char(text.get_char(t)) && digit_char(text.get_char(t + 1)) && text.get_char(t + 2)
        == ':' && digit_char(text.get_char(t + 3)) && digit_char(text.get_char(t + 4))
        && text.get_char(t + 5) == ':' && digit_char(text.get_char(t + 6)) && digit_char(
        text.get_char(t + 7),
    )
}

fn first_time_index(text: &str, start: usize, n: usize) -> (r: Option<usize>)
    requires
        n == text@.len(),
        start <= n,
    ensures
        (match r {
            Some(t) => t < n && time_at(text@, t as int) && first_time_from(
                text@,
                start as int,
            ) == t as int,
            None => first_time_from(text@, start as int) == text@.len(),
        }),
{
    let mut t: usize = start;
    while t < n
        invariant
            n == text@.len(),
            start <= t,
            forall|u: int| start <= u < t ==> !time_at(text@, u),
        decreases n - t,
    {
        if time_here(text, t, n) {
            proof {
                lemma_first_time_from_unique(text@, start as int, t as int);
            }
            return Some(t);
        }
        t += 1;
    }
    proof {
        lemma_first_time_from_unique(text@, start as int, text@.len() as int);
    }
    None
}

fn run_start_index(text: &str, p: usize, n: usize) -> (r: usize)
    requires
        n == text@.len(),
        p < n,
    ensures
        r <= p,
        r as int == digit_run_start(text@, p as int),
{
    let mut d: usize = p;
    while d > 0 && digit_char(text.get_char(d - 1))
        invariant
            n == text@.len(),
            d <= p < n,
            forall|k: int| d <= k < p ==> is_digit_char(text@[k]),
        decreases d,
    {
        d -= 1;
    }
    proof {
        lemma_digit_run_start_unique(text@, d as int, p as int);
    }
    d
}

/// Pull the percentage and the time remaining out of status text.
///
/// Returns `Some` exactly when the text holds a digit run ending at a `%`
/// with a well-formed `HH:MM:SS` group somewhere after it; the fields are
/// then the run before the first such `%` and the first group after it,
/// verbatim. Extraction is all-or-nothing: a percentage with no time group
/// after it yields `None`.
pub fn extract_battery_fields(text: &str) -> (r: Option<ExtractedReading>)
    ensures
        (match r {
            Some(reading) => extracted_fields(text@) == Some(
                (reading.percentage@, reading.remaining@),
            ),
            None => extracted_fields(text@) is None,
        }),
{
    let n: usize = text.unicode_len();
    let p = match first_pct_index(text, n) {
        Some(p) => p,
        None => {
            return None;
        },
    };
    let t = match first_time_index(text, p + 1, n) {
        Some(t) => t,
        None => {
            return None;
        },
    };
    let d = run_start_index(text, p, n);
    let percentage = text.substring_char(d, p).to_owned();
    let remaining = text.substring_char(t, t + 8).to_owned();
    Some(ExtractedReading { percentage, remaining })
}

/// The extraction law: when `p` ends the first digit-preceded `%` of `s`,
/// `[d, p)` is the whole digit run before it, and `t` starts the first
/// well-formed time group after it, extraction yields exactly `s[d..p]` as
/// the percentage and `s[t..t+8]` as the time remaining.
pub proof fn lemma_extracted_fields_first_match(s: Seq<char>, d: int, p: int, t: int)
    requires
        pct_at(s, p),
        forall|q: int| 0 <= q < p ==> !pct_at(s, q),
        time_at(s, t),
        p < t,
        forall|u: int| p < u < t ==> !time_at(s, u),
        0 <= d < p,
        forall|k: int| d <= k < p ==> is_digit_char(s[k]),
        d == 0 || !is_digit_char(s[d - 1]),
    ensures
        extracted_fields(s) == Some((s.subrange(d, p), s.subrange(t, t + 8))),
{
    lemma_first_pct_from_unique(s, 0, p);
    lemma_first_time_from_unique(s, p + 1, t);
    lemma_digit_run_start_unique(s, d, p);
}

/// The match law: extraction yields fields exactly when some digit run ends
/// at a `%` and a well-formed time group starts after that `%`. In
/// particular, text with no digit-preceded `%`, or none followed by a time
/// group, yields no fields, and so does the empty text.
pub proof fn lemma_match_exists_iff(s: Seq<char>)
    ensures
        extracted_fields(s) is Some <==> (exists|p: int, t: int|
            pct_at(s, p) && p < t && time_at(s, t)),
{
    lemma_first_pct_from_props(s, 0);
    let p0 = first_pct_from(s, 0);
    if p0 < s.len() {
        lemma_first_time_from_props(s, p0 + 1);
        let t0 = first_time_from(s, p0 + 1);
        if t0 < s.len() {
            assert(pct_at(s, p0) && p0 < t0 && time_at(s, t0));
        } else {
            if exists|p: int, t: int| pct_at(s, p) && p < t && time_at(s, t) {
                let (p, t) = choose|p: int, t: int| pct_at(s, p) && p < t && time_at(s, t);
                assert(p0 <= p);
                assert(!time_at(s, t));
            }
        }
    } else {
        if exists|p: int, t: int| pct_at(s, p) && p < t && time_at(s, t) {
            let (p, t) = choose|p: int, t: int| pct_at(s, p) && p < t && time_at(s, t);
            assert(!pct_at(s, p));
        }
    }
}

/// The no-match law: text with no digit run ending at a `%` followed by a
/// well-formed time group yields no fields.
pub proof fn lemma_no_match(s: Seq<char>)
    requires
        forall|p: int, t: int| !(pct_at(s, p) && p < t && time_at(s, t)),
    ensures
        extracted_fields(s) is None,
{
    lemma_match_exists_iff(s);
}

/// The idempotence law: the extracted fields are a function of the text
/// alone, so any two results that the extractor's contract allows for the
/// same text are equal.
pub proof fn lemma_extraction_deterministic(
    s: Seq<char>,
    r1: Option<(Seq<char>, Seq<char>)>,
    r2: Option<(Seq<char>, Seq<char>)>,
)
    requires
        r1 == extracted_fields(s),
        r2 == extracted_fields(s),
    ensures
        r1 == r2,
{
}

} // verus!
