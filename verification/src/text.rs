//! Character-level helpers on strings, each with an exact contract.

use vstd::prelude::*;

verus! {

/// The characters of `s`, in order.
pub fn chars_of(s: &str) -> (v: Vec<char>)
    ensures
        v@ == s@,
{
    let n = s.unicode_len();
    let mut v: Vec<char> = Vec::new();
    let mut i: usize = 0;
    while i < n
        invariant
            n == s@.len(),
            i <= n,
            v@ == s@.subrange(0, i as int),
        decreases n - i,
    {
        v.push(s.get_char(i));
        i = i + 1;
    }
    assert(v@ =~= s@);
    v
}

/// Whether two strings hold the same characters.
pub fn str_eq(a: &str, b: &str) -> (r: bool)
    ensures
        r == (a@ == b@),
{
    let n = a.unicode_len();
    if n != b.unicode_len() {
        return false;
    }
    let mut i: usize = 0;
    while i < n
        invariant
            n == a@.len(),
            n == b@.len(),
            i <= n,
            a@.subrange(0, i as int) == b@.subrange(0, i as int),
        decreases n - i,
    {
        if a.get_char(i) != b.get_char(i) {
            assert(a@[i as int] != b@[i as int]);
            return false;
        }
        assert(a@.subrange(0, i + 1) =~= a@.subrange(0, i as int).push(a@[i as int]));
        assert(b@.subrange(0, i + 1) =~= b@.subrange(0, i as int).push(b@[i as int]));
        i = i + 1;
    }
    assert(a@ =~= a@.subrange(0, n as int));
    assert(b@ =~= b@.subrange(0, n as int));
    true
}


/// The code of `c` with ASCII upper-case letters mapped to lower case.
pub open spec fn lower_code(c: char) -> u32 {
    if 'A' <= c && c <= 'Z' {
        (c as u32 + 32) as u32
    } else {
        c as u32
    }
}

/// `a` and `b` have the same length and agree at each position once ASCII
/// letters are compared without regard to case (other characters must be equal).
pub open spec fn eq_ignore_ascii_case_spec(a: Seq<char>, b: Seq<char>) -> bool {
    &&& a.len() == b.len()
    &&& forall|i: int| 0 <= i < a.len() ==> #[trigger] lower_code(a[i]) == lower_code(b[i])
}

/// `s` ends with `suffix`, comparing ASCII letters without regard to case.
pub open spec fn ends_with_ignore_ascii_case_spec(s: Seq<char>, suffix: Seq<char>) -> bool {
    suffix.len() <= s.len() && eq_ignore_ascii_case_spec(
        s.subrange(s.len() - suffix.len(), s.len() as int),
        suffix,
    )
}

pub fn lower_code_of(c: char) -> (r: u32)
    ensures
        r == lower_code(c),
{
    if 'A' <= c && c <= 'Z' {
        c as u32 + 32
    } else {
        c as u32
    }
}

/// Case-insensitive comparison of two character sequences (ASCII letters only).
pub fn chars_eq_ignore_ascii_case(a: &[char], b: &[char]) -> (r: bool)
    ensures
        r == eq_ignore_ascii_case_spec(a@, b@),
{
    if a.len() != b.len() {
        return false;
    }
    let mut i: usize = 0;
    while i < a.len()
        invariant
            a@.len() == b@.len(),
            i <= a@.len(),
            forall|j: int| 0 <= j < i ==> #[trigger] lower_code(a@[j]) == lower_code(b@[j]),
        decreases a@.len() - i,
    {
        if lower_code_of(a[i]) != lower_code_of(b[i]) {
            return false;
        }
        i = i + 1;
    }
    true
}

/// Case-insensitive comparison of two strings (ASCII letters only), as
/// `str::eq_ignore_ascii_case` compares them.
pub fn str_eq_ignore_ascii_case(a: &str, b: &str) -> (r: bool)
    ensures
        r == eq_ignore_ascii_case_spec(a@, b@),
{
    let va = chars_of(a);
    let vb = chars_of(b);
    chars_eq_ignore_ascii_case(va.as_slice(), vb.as_slice())
}

/// Whether `s` ends with `suffix`, comparing ASCII letters without regard to case.
pub fn ends_with_ignore_ascii_case(s: &[char], suffix: &[char]) -> (r: bool)
    ensures
        r == ends_with_ignore_ascii_case_spec(s@, suffix@),
{
    if suffix.len() > s.len() {
        return false;
    }
    let off = s.len() - suffix.len();
    let mut i: usize = 0;
    while i < suffix.len()
        invariant
            off + suffix@.len() == s@.len(),
            s@.len() == s.len(),
            i <= suffix@.len(),
            forall|j: int|
                0 <= j < i ==> #[trigger] lower_code(s@.subrange(off as int, s@.len() as int)[j])
                    == lower_code(suffix@[j]),
        decreases suffix@.len() - i,
    {
        if lower_code_of(s[off + i]) != lower_code_of(suffix[i]) {
            assert(s@.subrange(off as int, s@.len() as int)[i as int] == s@[off + i]);
            return false;
        }
        assert(s@.subrange(off as int, s@.len() as int)[i as int] == s@[off + i]);
        i = i + 1;
    }
    true
}


pub open spec fn is_ascii_digit(c: char) -> bool {
    '0' <= c && c <= '9'
}

pub open spec fn all_ascii_digits(s: Seq<char>) -> bool {
    forall|i: int| 0 <= i < s.len() ==> #[trigger] is_ascii_digit(s[i])
}

/// The value of a string of ASCII digits, read in base ten.
pub open spec fn decimal_value(s: Seq<char>) -> int
    decreases s.len(),
{
    if s.len() == 0 {
        0
    } else {
        decimal_value(s.drop_last()) * 10 + (s.last() as int - '0' as int)
    }
}

/// The value of `s` when it is a non-empty string of ASCII digits.
pub open spec fn digits_value(s: Seq<char>) -> Option<int> {
    if s.len() > 0 && all_ascii_digits(s) {
        Some(decimal_value(s))
    } else {
        None
    }
}

/// The value of `s` when it is a non-empty string of ASCII digits worth at most `cap`.
pub open spec fn digits_at_most(s: Seq<char>, cap: int) -> Option<int> {
    match digits_value(s) {
        Some(v) => if v <= cap { Some(v) } else { None },
        None => None,
    }
}

proof fn lemma_digits_prefix(s: Seq<char>, k: int)
    requires
        0 <= k < s.len(),
        all_ascii_digits(s.take(k)),
        is_ascii_digit(s[k]),
    ensures
        all_ascii_digits(s.take(k + 1)),
        s.take(k + 1).drop_last() == s.take(k),
        s.take(k + 1).last() == s[k],
{
    assert(s.take(k + 1).drop_last() =~= s.take(k));
    assert forall|j: int| 0 <= j < k + 1 implies #[trigger] is_ascii_digit(s.take(k + 1)[j]) by {
        if j < k {
            assert(s.take(k + 1)[j] == s.take(k)[j]);
        }
    }
}

pub proof fn lemma_decimal_nonneg(d: Seq<char>)
    requires
        all_ascii_digits(d),
    ensures
        decimal_value(d) >= 0,
    decreases d.len(),
{
    if d.len() > 0 {
        let p = d.drop_last();
        assert(is_ascii_digit(d[d.len() - 1]));
        assert(all_ascii_digits(p)) by {
            assert forall|j: int| 0 <= j < p.len() implies #[trigger] is_ascii_digit(p[j]) by {
                assert(p[j] == d[j]);
            }
        }
        lemma_decimal_nonneg(p);
    }
}

/// A digit string is worth at least as much as any of its prefixes.
pub proof fn lemma_decimal_prefix_bound(d: Seq<char>, k: int)
    requires
        0 <= k <= d.len(),
        all_ascii_digits(d),
    ensures
        decimal_value(d) >= decimal_value(d.take(k)),
    decreases d.len(),
{
    if d.len() == 0 || k == d.len() {
        assert(d.take(k) =~= d);
    } else {
        assert(is_ascii_digit(d[d.len() - 1]));
        let p = d.drop_last();
        assert(all_ascii_digits(p)) by {
            assert forall|j: int| 0 <= j < p.len() implies #[trigger] is_ascii_digit(p[j]) by {
                assert(p[j] == d[j]);
            }
        }
        lemma_decimal_prefix_bound(p, k);
        assert(p.take(k) =~= d.take(k));
        lemma_decimal_nonneg(p);
    }
}

/// Reads the characters of `s` from index `start` on as a whole number of at most `cap`.
pub fn digits_upto(s: &[char], start: usize, cap: u64) -> (r: Option<u64>)
    requires
        start <= s@.len(),
        cap <= u32::MAX,
    ensures
        match digits_at_most(s@.skip(start as int), cap as int) {
            Some(v) => r == Some(v as u64),
            None => r is None,
        },
        r matches Some(x) ==> digits_at_most(s@.skip(start as int), cap as int) == Some(x as int),
{
    let ghost d = s@.skip(start as int);
    if start >= s.len() {
        return None;
    }
    let mut acc: u64 = 0;
    let mut i: usize = start;
    while i < s.len()
        invariant
            start <= i <= s@.len(),
            s@.len() == s.len(),
            d == s@.skip(start as int),
            d.len() > 0,
            all_ascii_digits(d.take(i - start)),
            acc == decimal_value(d.take(i - start)),
            acc <= cap,
            cap <= u32::MAX,
        decreases s@.len() - i,
    {
        let c = s[i];
        let k: usize = i - start;
        assert(d[k as int] == c);
        if !('0' <= c && c <= '9') {
            assert(!is_ascii_digit(d[k as int]));
            return None;
        }
        proof {
            lemma_digits_prefix(d, k as int);
        }
        let digit = (c as u32 - '0' as u32) as u64;
        acc = acc * 10 + digit;
        if acc > cap {
            proof {
                if all_ascii_digits(d) {
                    lemma_decimal_prefix_bound(d, k + 1);
                }
            }
            return None;
        }
        i = i + 1;
    }
    assert(d.take(d.len() as int) =~= d);
    Some(acc)
}

/// Whether two character sequences are equal.
pub fn chars_eq(a: &[char], b: &[char]) -> (r: bool)
    ensures
        r == (a@ == b@),
{
    if a.len() != b.len() {
        return false;
    }
    let mut i: usize = 0;
    while i < a.len()
        invariant
            a@.len() == b@.len(),
            i <= a@.len(),
            forall|j: int| 0 <= j < i ==> a@[j] == b@[j],
        decreases a@.len() - i,
    {
        if a[i] != b[i] {
            return false;
        }
        i = i + 1;
    }
    assert(a@ =~= b@);
    true
}


/// Two texts that differ, without regard to case, at one index are not equal so.
pub proof fn lemma_differ_at(a: Seq<char>, b: Seq<char>, k: int)
    requires
        0 <= k < a.len(),
        k < b.len(),
        lower_code(a[k]) != lower_code(b[k]),
    ensures
        !eq_ignore_ascii_case_spec(a, b),
{
}

/// Texts that agree, without regard to case, at every index are equal so.
pub proof fn lemma_agree(a: Seq<char>, b: Seq<char>)
    requires
        a.len() == b.len(),
        forall|i: int| 0 <= i < a.len() ==> lower_code(a[i]) == lower_code(b[i]),
    ensures
        eq_ignore_ascii_case_spec(a, b),
{
}

} // verus!
