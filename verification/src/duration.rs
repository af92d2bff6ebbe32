//! Durations written as `1h`, `1h30m`, `45min` or `30s`, turned into seconds.
//!
//! The tokens are found by the `regex` crate with the pattern
//! `(?i)(\d+)(h|m|min|s)`; what is done with them is proved here.

use vstd::prelude::*;
use crate::text::{chars_eq_ignore_ascii_case, chars_of, digits_at_most, digits_upto, eq_ignore_ascii_case_spec, str_eq_ignore_ascii_case};

verus! {

/// Why a duration text was refused.
#[derive(Debug, Clone, Copy, PartialEq, Eq, Structural)]
pub enum TimeParseError {
    /// The number of the token at this index is not a `u32`.
    InvalidNumber(usize),
    /// The unit of the token at this index is none of `h`, `m`, `min`, `s`.
    UnknownUnit(usize),
    /// No token was found in the text.
    NoMatch,
    /// The tokens add up to zero seconds.
    Zero,
    /// The sum does not fit in a `u32`.
    Overflow,
}

/// The (number, unit) pairs that the pattern `(?i)(\d+)(h|m|min|s)` finds in
/// `text`, leftmost first and without overlap, as the `regex` crate finds them.
pub uninterp spec fn time_pattern_matches(text: Seq<char>) -> Seq<(Seq<char>, Seq<char>)>;

/// Collects, with the `regex` crate (`Regex::new` on the fixed pattern
/// `(?i)(\d+)(h|m|min|s)`, then `Regex::captures_iter`), the texts of the two
/// groups of each match in `text`. Claimed: the pairs are
/// `time_pattern_matches(text)`. The pattern is valid `regex` syntax, so
/// compiling it does not fail.
#[verifier::external_body]
fn find_time_tokens(text: &str) -> (r: Vec<(String, String)>)
    ensures
        pairs_view(r@) == time_pattern_matches(text@),
{
    let re = regex::Regex::new(r"(?i)(\d+)(h|m|min|s)").expect("the duration pattern is valid");
    re.captures_iter(text).map(|c| (c[1].to_string(), c[2].to_string())).collect()
}

/// The character sequences of a list of string pairs.
pub open spec fn pairs_view(v: Seq<(String, String)>) -> Seq<(Seq<char>, Seq<char>)> {
    v.map_values(|p: (String, String)| (p.0@, p.1@))
}

/// What `u32::from_str` gives: an optional `+`, then at least one ASCII digit,
/// with a value no larger than `u32::MAX`.
pub open spec fn u32_from_str(s: Seq<char>) -> Option<u32> {
    let d = if s.len() > 0 && s[0] == '+' { s.drop_first() } else { s };
    match digits_at_most(d, u32::MAX as int) {
        Some(v) => Some(v as u32),
        None => None,
    }
}

/// Seconds per unit: `h` is an hour, `m` and `min` a minute, `s` a second,
/// letters compared without regard to case.
pub open spec fn unit_seconds(u: Seq<char>) -> Option<int> {
    if eq_ignore_ascii_case_spec(u, seq!['h']) {
        Some(3600)
    } else if eq_ignore_ascii_case_spec(u, seq!['m']) || eq_ignore_ascii_case_spec(
        u,
        seq!['m', 'i', 'n'],
    ) {
        Some(60)
    } else if eq_ignore_ascii_case_spec(u, seq!['s']) {
        Some(1)
    } else {
        None
    }
}

/// The seconds that the token at index `i` stands for.
pub open spec fn token_seconds(tok: (Seq<char>, Seq<char>), i: usize) -> Result<int, TimeParseError> {
    match u32_from_str(tok.0) {
        None => Err(TimeParseError::InvalidNumber(i)),
        Some(v) => match unit_seconds(tok.1) {
            None => Err(TimeParseError::UnknownUnit(i)),
            Some(m) => Ok(v * m),
        },
    }
}

/// The running total over the tokens, in whole numbers, stopping at the first
/// token whose number or unit is refused.
pub open spec fn tokens_total(toks: Seq<(Seq<char>, Seq<char>)>) -> Result<int, TimeParseError>
    decreases toks.len(),
{
    if toks.len() == 0 {
        Ok(0)
    } else {
        match tokens_total(toks.drop_last()) {
            Err(e) => Err(e),
            Ok(t) => match token_seconds(toks.last(), (toks.len() - 1) as usize) {
                Err(e) => Err(e),
                Ok(x) => Ok(t + x),
            },
        }
    }
}

/// No running total on the way, before a token is refused, exceeds `u32::MAX`.
pub open spec fn tokens_fit(toks: Seq<(Seq<char>, Seq<char>)>) -> bool {
    forall|k: int|
        0 <= k <= toks.len() ==> (#[trigger] tokens_total(toks.take(k)) matches Ok(t) ==> t
            <= u32::MAX)
}

/// The seconds that the tokens stand for: their total, refused when there is no
/// token or when it comes to zero.
pub open spec fn seconds_of_tokens(toks: Seq<(Seq<char>, Seq<char>)>) -> Result<u32, TimeParseError> {
    match tokens_total(toks) {
        Err(e) => Err(e),
        Ok(t) => if toks.len() == 0 {
            Err(TimeParseError::NoMatch)
        } else if t == 0 {
            Err(TimeParseError::Zero)
        } else {
            Ok(t as u32)
        },
    }
}

/// `auto` and `off`, in any case, stand for no duration.
pub open spec fn is_auto_or_off(s: Seq<char>) -> bool {
    eq_ignore_ascii_case_spec(s, seq!['a', 'u', 't', 'o']) || eq_ignore_ascii_case_spec(
        s,
        seq!['o', 'f', 'f'],
    )
}

/// What a duration text stands for, given the tokens that the pattern finds in it.
pub open spec fn duration_from_tokens(toks: Seq<(Seq<char>, Seq<char>)>) -> Result<Option<u32>, TimeParseError> {
    if !tokens_fit(toks) {
        Err(TimeParseError::Overflow)
    } else {
        match seconds_of_tokens(toks) {
            Ok(v) => Ok(Some(v)),
            Err(e) => Err(e),
        }
    }
}

/// What a duration text stands for: nothing for `auto` and `off`, else what
/// the tokens found in it stand for.
pub open spec fn time_outcome(s: Seq<char>) -> Result<Option<u32>, TimeParseError> {
    if is_auto_or_off(s) {
        Ok(None)
    } else {
        duration_from_tokens(time_pattern_matches(s))
    }
}

proof fn lemma_take_drop_last<A>(s: Seq<A>, k: int)
    requires
        0 < k <= s.len(),
    ensures
        s.take(k).drop_last() == s.take(k - 1),
        s.take(k).last() == s[k - 1],
        s.take(k).len() == k,
{
    assert(s.take(k).drop_last() =~= s.take(k - 1));
}

/// Once a prefix is refused, every longer prefix is refused with the same error.
proof fn lemma_error_persists(toks: Seq<(Seq<char>, Seq<char>)>, k: int, j: int)
    requires
        0 <= k <= j <= toks.len(),
        tokens_total(toks.take(k)) is Err,
    ensures
        tokens_total(toks.take(j)) == tokens_total(toks.take(k)),
    decreases j - k,
{
    if j > k {
        lemma_error_persists(toks, k, j - 1);
        lemma_take_drop_last(toks, j);
    }
}

/// A token that is read stands for no negative number of seconds.
proof fn lemma_token_nonnegative(tok: (Seq<char>, Seq<char>), i: usize)
    ensures
        token_seconds(tok, i) matches Ok(x) ==> x >= 0,
{
    if let Some(v) = u32_from_str(tok.0) {
        if let Some(m) = unit_seconds(tok.1) {
            assert(v as int * m >= 0) by (nonlinear_arith)
                requires
                    v >= 0,
                    m >= 0,
            ;
        }
    }
}

/// Every running total on the way to a total that is read lies between
/// zero and that total.
proof fn lemma_prefix_totals_bounded(toks: Seq<(Seq<char>, Seq<char>)>, k: int, j: int)
    requires
        0 <= k <= j <= toks.len(),
        tokens_total(toks.take(j)) is Ok,
    ensures
        tokens_total(toks.take(k)) matches Ok(a) && 0 <= a <= tokens_total(toks.take(j))->Ok_0,
    decreases j,
{
    if j == 0 {
        assert(toks.take(k) =~= toks.take(0));
    } else if k == j {
        lemma_take_drop_last(toks, j);
        lemma_token_nonnegative(toks.take(j).last(), (j - 1) as usize);
        lemma_prefix_totals_bounded(toks, j - 1, j - 1);
    } else {
        lemma_take_drop_last(toks, j);
        lemma_token_nonnegative(toks.take(j).last(), (j - 1) as usize);
        lemma_prefix_totals_bounded(toks, k, j - 1);
    }
}

/// A duration is refused as too long only when its total exceeds
/// `u32::MAX`: tokens whose total is read, fits and is positive give
/// exactly that many seconds; no tokens give `NoMatch`; a zero total gives
/// `Zero`.
pub proof fn durations_that_fit_are_read(toks: Seq<(Seq<char>, Seq<char>)>)
    ensures
        tokens_total(toks) matches Ok(t) ==> (0 < t <= u32::MAX && toks.len() > 0 ==> duration_from_tokens(toks)
            == Ok::<Option<u32>, TimeParseError>(Some(t as u32))),
        tokens_total(toks) matches Ok(t) ==> (t == 0 && toks.len() > 0 ==> duration_from_tokens(toks) == Err::<
            Option<u32>,
            TimeParseError,
        >(TimeParseError::Zero)),
        toks.len() == 0 ==> duration_from_tokens(toks) == Err::<Option<u32>, TimeParseError>(TimeParseError::NoMatch),
        duration_from_tokens(toks) == Err::<Option<u32>, TimeParseError>(TimeParseError::Overflow) ==> !(tokens_total(
            toks,
        ) matches Ok(t) && t <= u32::MAX),
{
    assert(toks.take(toks.len() as int) =~= toks);
    if tokens_total(toks) is Ok {
        assert forall|k: int| 0 <= k <= toks.len() implies (#[trigger] tokens_total(toks.take(k)) matches Ok(p) ==> p
            <= tokens_total(toks)->Ok_0) by {
            lemma_prefix_totals_bounded(toks, k, toks.len() as int);
        }
    }
    if toks.len() == 0 {
        assert forall|k: int| 0 <= k <= toks.len() implies (#[trigger] tokens_total(toks.take(k)) matches Ok(p) ==> p
            <= u32::MAX) by {
            assert(toks.take(k) =~= toks);
        }
    }
}

/// Each unit stands for its number of seconds, whatever the case of its
/// letters: an hour 3600, a minute (`m` or `min`) 60, a second 1.
pub proof fn units_of_time(n: Seq<char>, v: u32, i: usize)
    requires
        u32_from_str(n) == Some(v),
    ensures
        token_seconds((n, seq!['h']), i) == Ok::<int, TimeParseError>(v * 3600),
        token_seconds((n, seq!['H']), i) == Ok::<int, TimeParseError>(v * 3600),
        token_seconds((n, seq!['m']), i) == Ok::<int, TimeParseError>(v * 60),
        token_seconds((n, seq!['m', 'i', 'n']), i) == Ok::<int, TimeParseError>(v * 60),
        token_seconds((n, seq!['M', 'I', 'N']), i) == Ok::<int, TimeParseError>(v * 60),
        token_seconds((n, seq!['s']), i) == Ok::<int, TimeParseError>(v as int),
        token_seconds((n, seq!['S']), i) == Ok::<int, TimeParseError>(v as int),
{
    let h = seq!['h'];
    let m = seq!['m'];
    let min = seq!['m', 'i', 'n'];
    let sec = seq!['s'];
    crate::text::lemma_agree(seq!['h'], h);
    crate::text::lemma_agree(seq!['H'], h);
    crate::text::lemma_agree(seq!['m'], m);
    crate::text::lemma_agree(seq!['m', 'i', 'n'], min);
    crate::text::lemma_agree(seq!['M', 'I', 'N'], min);
    crate::text::lemma_agree(seq!['s'], sec);
    crate::text::lemma_agree(seq!['S'], sec);
    crate::text::lemma_differ_at(seq!['m'], h, 0);
    crate::text::lemma_differ_at(seq!['s'], h, 0);
    crate::text::lemma_differ_at(seq!['S'], h, 0);
    crate::text::lemma_differ_at(seq!['s'], m, 0);
    crate::text::lemma_differ_at(seq!['S'], m, 0);
    assert(!eq_ignore_ascii_case_spec(seq!['s'], min));
    assert(unit_seconds(seq!['s']) == Some(1int));
    assert(v * 1 == v as int);
}

/// Reads `u32::from_str` of the characters `s`.
pub fn u32_from_chars(s: &[char]) -> (r: Option<u32>)
    ensures
        r == u32_from_str(s@),
{
    let start: usize = if s.len() > 0 && s[0] == '+' { 1 } else { 0 };
    assert(s@.skip(start as int) =~= (if s@.len() > 0 && s@[0] == '+' { s@.drop_first() } else { s@ }));
    let r = digits_upto(s, start, 0xffff_ffff);
    let ghost d = s@.skip(start as int);
    match r {
        Some(v) => {
            assert(digits_at_most(d, u32::MAX as int) == Some(v as int));
            Some(v as u32)
        },
        None => None,
    }
}

/// Seconds per unit, as `unit_seconds` states.
fn unit_seconds_of(u: &[char]) -> (r: Option<u32>)
    ensures
        match unit_seconds(u@) {
            Some(m) => r == Some(m as u32),
            None => r is None,
        },
{
    let h = ['h'];
    let m = ['m'];
    let min = ['m', 'i', 'n'];
    let sec = ['s'];
    assert(h@ =~= seq!['h']);
    assert(m@ =~= seq!['m']);
    assert(min@ =~= seq!['m', 'i', 'n']);
    assert(sec@ =~= seq!['s']);
    if chars_eq_ignore_ascii_case(u, h.as_slice()) {
        Some(3600)
    } else if chars_eq_ignore_ascii_case(u, m.as_slice()) || chars_eq_ignore_ascii_case(
        u,
        min.as_slice(),
    ) {
        Some(60)
    } else if chars_eq_ignore_ascii_case(u, sec.as_slice()) {
        Some(1)
    } else {
        None
    }
}

/// The seconds that one token stands for, as `token_seconds` states.
fn token_seconds_of(tok: &(String, String), i: usize) -> (r: Result<u64, TimeParseError>)
    ensures
        match token_seconds((tok.0@, tok.1@), i) {
            Ok(x) => r == Ok::<u64, TimeParseError>(x as u64) && 0 <= x <= 3600 * u32::MAX,
            Err(e) => r == Err::<u64, TimeParseError>(e),
        },
{
    let num = chars_of(tok.0.as_str());
    let unit = chars_of(tok.1.as_str());
    match u32_from_chars(num.as_slice()) {
        None => Err(TimeParseError::InvalidNumber(i)),
        Some(v) => match unit_seconds_of(unit.as_slice()) {
            None => Err(TimeParseError::UnknownUnit(i)),
            Some(m) => {
                assert(v as int * m as int <= 3600 * u32::MAX) by (nonlinear_arith)
                    requires
                        m <= 3600,
                        v <= u32::MAX,
                ;
                Ok(v as u64 * m as u64)
            },
        },
    }
}

proof fn lemma_pairs_view_take(toks: Seq<(String, String)>, k: int)
    requires
        0 <= k <= toks.len(),
    ensures
        pairs_view(toks.take(k)) == pairs_view(toks).take(k),
        pairs_view(toks).len() == toks.len(),
{
    assert(pairs_view(toks.take(k)) =~= pairs_view(toks).take(k));
}

/// Whether no running total over `toks` exceeds `u32::MAX` before a token is refused.
pub fn tokens_fit_u32(toks: &Vec<(String, String)>) -> (r: bool)
    ensures
        r == tokens_fit(pairs_view(toks@)),
{
    let ghost pv = pairs_view(toks@);
    let mut acc: u64 = 0;
    let mut i: usize = 0;
    proof {
        lemma_pairs_view_take(toks@, 0);
        assert(pv.take(0).len() == 0);
    }
    while i < toks.len()
        invariant
            pv == pairs_view(toks@),
            pv.len() == toks@.len(),
            i <= toks@.len(),
            tokens_total(pv.take(i as int)) == Ok::<int, TimeParseError>(acc as int),
            acc <= u32::MAX,
            forall|k: int|
                0 <= k <= i ==> (#[trigger] tokens_total(pv.take(k)) matches Ok(t) ==> t
                    <= u32::MAX),
        decreases toks@.len() - i,
    {
        proof {
            lemma_take_drop_last(pv, i + 1);
            assert(pv[i as int] == (toks@[i as int].0@, toks@[i as int].1@));
        }
        match token_seconds_of(&toks[i], i) {
            Err(_) => {
                assert forall|k: int| 0 <= k <= pv.len() implies (#[trigger] tokens_total(
                    pv.take(k),
                ) matches Ok(t) ==> t <= u32::MAX) by {
                    if k > i {
                        lemma_error_persists(pv, i + 1, k);
                    }
                }
                assert(pv.take(pv.len() as int) =~= pv);
                return true;
            },
            Ok(x) => {
                if acc + x > 0xffff_ffff {
                    assert(tokens_total(pv.take(i + 1)) == Ok::<int, TimeParseError>(acc + x));
                    return false;
                }
                acc = acc + x;
            },
        }
        i = i + 1;
    }
    assert(pv.take(pv.len() as int) =~= pv);
    true
}

/// The seconds that the tokens stand for, as `seconds_of_tokens` states.
pub fn seconds_from_tokens(toks: &Vec<(String, String)>) -> (r: Result<u32, TimeParseError>)
    requires
        tokens_fit(pairs_view(toks@)),
    ensures
        r == seconds_of_tokens(pairs_view(toks@)),
        r matches Ok(n) ==> n > 0,
{
    let ghost pv = pairs_view(toks@);
    let mut total: u32 = 0;
    let mut i: usize = 0;
    proof {
        assert(pv.take(0).len() == 0);
    }
    while i < toks.len()
        invariant
            pv == pairs_view(toks@),
            pv.len() == toks@.len(),
            tokens_fit(pv),
            i <= toks@.len(),
            tokens_total(pv.take(i as int)) == Ok::<int, TimeParseError>(total as int),
        decreases toks@.len() - i,
    {
        proof {
            lemma_take_drop_last(pv, i + 1);
            assert(pv[i as int] == (toks@[i as int].0@, toks@[i as int].1@));
        }
        match token_seconds_of(&toks[i], i) {
            Err(e) => {
                proof {
                    lemma_error_persists(pv, i + 1, pv.len() as int);
                    assert(pv.take(pv.len() as int) =~= pv);
                }
                return Err(e);
            },
            Ok(x) => {
                assert(tokens_total(pv.take(i + 1)) matches Ok(t) ==> t <= u32::MAX);
                total = total + x as u32;
            },
        }
        i = i + 1;
    }
    assert(pv.take(pv.len() as int) =~= pv);
    if toks.len() == 0 {
        Err(TimeParseError::NoMatch)
    } else if total == 0 {
        Err(TimeParseError::Zero)
    } else {
        Ok(total)
    }
}

/// Parses a duration such as `1h`, `1h30m`, `45min` or `30s` into seconds;
/// `auto` and `off` give `None`.
///
/// Where the sum would not fit in a `u32` the result is `Err(Overflow)`.
pub fn parse_time_to_seconds(time_str: &str) -> (r: Result<Option<u32>, TimeParseError>)
    ensures
        r == time_outcome(time_str@),
        r matches Ok(Some(n)) ==> n > 0,
{
    proof {
        reveal_strlit("auto");
        reveal_strlit("off");
    }
    assert("auto"@ =~= seq!['a', 'u', 't', 'o']);
    assert("off"@ =~= seq!['o', 'f', 'f']);
    if str_eq_ignore_ascii_case(time_str, "auto") || str_eq_ignore_ascii_case(time_str, "off") {
        return Ok(None);
    }
    let toks = find_time_tokens(time_str);
    if !tokens_fit_u32(&toks) {
        Err(TimeParseError::Overflow)
    } else {
        match seconds_from_tokens(&toks) {
            Ok(v) => Ok(Some(v)),
            Err(e) => Err(e),
        }
    }
}

} // verus!
