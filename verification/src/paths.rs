//! Paths as text: the parts of `std::path` the library reads, and suffixes.
//!
//! How a path splits into components is the standard library's business and
//! is named here, not restated; what is built from the parts is proved.

use vstd::prelude::*;
use crate::args::opt_str;
use crate::text::chars_of;

verus! {

/// The final component of the path, as `std::path::Path::file_name` gives it.
pub uninterp spec fn path_file_name(p: Seq<char>) -> Option<Seq<char>>;

/// The extension of the final component, as `std::path::Path::extension` gives it.
pub uninterp spec fn path_extension(p: Seq<char>) -> Option<Seq<char>>;

/// The path without its final component, as `std::path::Path::parent` gives it.
pub uninterp spec fn path_parent(p: Seq<char>) -> Option<Seq<char>>;

/// `name` appended to `base`, as `std::path::Path::join` gives it.
pub uninterp spec fn path_join(base: Seq<char>, name: Seq<char>) -> Seq<char>;

/// Calls `std::path::Path::file_name`. The result is the file name the
/// standard library gives for this text, whatever it is, as text.
#[verifier::external_body]
pub(crate) fn file_name(p: &str) -> (r: Option<String>)
    ensures
        opt_str(r) == path_file_name(p@),
{
    match std::path::Path::new(p).file_name() {
        Some(n) => Some(n.to_string_lossy().into_owned()),
        None => None,
    }
}

/// Calls `std::path::Path::extension`. The result is the extension the
/// standard library gives for this text, whatever it is, as text.
#[verifier::external_body]
pub(crate) fn extension(p: &str) -> (r: Option<String>)
    ensures
        opt_str(r) == path_extension(p@),
{
    match std::path::Path::new(p).extension() {
        Some(e) => Some(e.to_string_lossy().into_owned()),
        None => None,
    }
}

/// Calls `std::path::Path::parent`. The result is the parent the standard
/// library gives for this text, whatever it is, as text.
#[verifier::external_body]
pub(crate) fn parent(p: &str) -> (r: Option<String>)
    ensures
        opt_str(r) == path_parent(p@),
{
    match std::path::Path::new(p).parent() {
        Some(d) => Some(d.to_string_lossy().into_owned()),
        None => None,
    }
}

/// Calls `std::path::Path::join`. The result is the joined path the standard
/// library gives for these texts, whatever it is, as text.
#[verifier::external_body]
pub(crate) fn join(base: &str, name: &str) -> (r: String)
    ensures
        r@ == path_join(base@, name@),
{
    std::path::Path::new(base).join(name).to_string_lossy().into_owned()
}

/// `s` without the suffix `suffix`, where it ends with it.
pub open spec fn strip_suffix(s: Seq<char>, suffix: Seq<char>) -> Option<Seq<char>> {
    if suffix.len() <= s.len() && s.subrange(s.len() - suffix.len(), s.len() as int) == suffix {
        Some(s.subrange(0, s.len() - suffix.len()))
    } else {
        None
    }
}

/// `s` without the suffix `suffix`, where it ends with it.
pub fn strip_suffix_of(s: &str, suffix: &str) -> (r: Option<String>)
    ensures
        opt_str(r) == strip_suffix(s@, suffix@),
{
    let sc = chars_of(s);
    let fc = chars_of(suffix);
    let n = sc.len();
    let k = fc.len();
    if k > n {
        return None;
    }
    let mut i: usize = 0;
    while i < k
        invariant
            sc@ == s@,
            fc@ == suffix@,
            n == sc@.len(),
            k == fc@.len(),
            k <= n,
            i <= k,
            forall|j: int| 0 <= j < i ==> sc@[n - k + j] == fc@[j],
        decreases k - i,
    {
        if sc[n - k + i] != fc[i] {
            assert(s@.subrange(n - k, n as int)[i as int] != suffix@[i as int]);
            return None;
        }
        i = i + 1;
    }
    assert(s@.subrange(n - k, n as int) =~= suffix@);
    Some(String::from_str(s.substring_char(0, n - k)))
}

/// `a` followed by `b`.
pub fn concat(a: &str, b: &str) -> (r: String)
    ensures
        r@ == a@ + b@,
{
    String::from_str(a).concat(b)
}

} // verus!
