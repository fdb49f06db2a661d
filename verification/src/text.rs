//! Text helpers shared by the other modules.

use vstd::prelude::*;
use vstd::string::*;
use crate::scan::{LAUNCHER_PATTERN, ORIGINAL_PATTERN};

verus! {

/// What `regex::Regex::new(pattern)` and then `Regex::is_match(haystack)`
/// give: `None` where the pattern does not compile, else whether it matches
/// somewhere in the haystack.
pub uninterp spec fn regex_search(pattern: Seq<char>, haystack: Seq<char>) -> Option<bool>;

/// What `glob::Pattern::new(pattern)` and then `Pattern::matches(text)` give:
/// `None` where the pattern is not valid, else whether it matches the whole
/// text under the default match options.
pub uninterp spec fn glob_match(pattern: Seq<char>, text: Seq<char>) -> Option<bool>;

/// A pattern whose match the glob crate decides the same way on every
/// platform. Under the default match options the crate asks the platform
/// what a path separator is in two places: where two `*` stand side by
/// side, which means "any directories", and where it compares a character
/// of the pattern with one of the text, because on Windows any two
/// separators count as equal. A pattern with no `**`, no `/` and no `\`
/// reaches neither.
pub open spec fn is_portable_glob(pattern: Seq<char>) -> bool {
    &&& forall|i: int|
        0 <= i < pattern.len() - 1 ==> !(#[trigger] pattern[i] == '*' && pattern[i + 1] == '*')
    &&& !pattern.contains('/')
    &&& !pattern.contains('\\')
}

/// One of the two regular expressions that the scan uses. Both are far
/// below the size at which compiling a pattern is refused.
pub open spec fn is_scan_pattern(pattern: Seq<char>) -> bool {
    pattern == LAUNCHER_PATTERN@ || pattern == ORIGINAL_PATTERN@
}

/// What `str::trim` gives: the text without leading and trailing
/// whitespace, as Unicode defines whitespace.
pub uninterp spec fn trimmed(text: Seq<char>) -> Seq<char>;

/// What `str::to_lowercase` gives: the lowercase form of the text, as
/// Unicode defines it.
pub uninterp spec fn lowercased(text: Seq<char>) -> Seq<char>;

/// Compiles `pattern` with `regex::Regex::new` and tests `haystack` with
/// `Regex::is_match`. Trusted: for the two patterns of the scan the answer
/// depends on the two texts alone and is called `regex_search`; nothing else
/// is claimed of it.
#[verifier::external_body]
pub(crate) fn regex_is_match(pattern: &str, haystack: &str) -> (r: Option<bool>)
    requires
        is_scan_pattern(pattern@),
    ensures
        r == regex_search(pattern@, haystack@),
{
    match regex::Regex::new(pattern) {
        Ok(re) => Some(re.is_match(haystack)),
        Err(_) => None,
    }
}

/// Compiles `pattern` with `glob::Pattern::new` and tests `text` with
/// `Pattern::matches`. Trusted: for a pattern without `**`, `/` and `\` the
/// answer depends on the two texts alone and is called `glob_match`; nothing
/// else is claimed of it.
#[verifier::external_body]
pub(crate) fn glob_matches(pattern: &str, text: &str) -> (r: Option<bool>)
    requires
        is_portable_glob(pattern@),
    ensures
        r == glob_match(pattern@, text@),
{
    match glob::Pattern::new(pattern) {
        Ok(compiled) => Some(compiled.matches(text)),
        Err(_) => None,
    }
}

/// Calls `str::trim`. Trusted: the result is called `trimmed`.
#[verifier::external_body]
pub(crate) fn trim(text: &str) -> (r: &str)
    ensures
        r@ == trimmed(text@),
{
    text.trim()
}

/// Calls `str::to_lowercase`. Trusted: the result is called `lowercased`.
#[verifier::external_body]
pub(crate) fn to_lowercase(text: &str) -> (r: String)
    ensures
        r@ == lowercased(text@),
{
    text.to_lowercase()
}

/// `s` ends with `suffix`.
pub open spec fn is_suffix(s: Seq<char>, suffix: Seq<char>) -> bool {
    suffix.len() <= s.len() && s.subrange(s.len() - suffix.len(), s.len() as int) == suffix
}

/// `s` starts with `prefix`.
pub open spec fn is_prefix(s: Seq<char>, prefix: Seq<char>) -> bool {
    prefix.len() <= s.len() && s.subrange(0, prefix.len() as int) == prefix
}

/// Whether two strings hold the same characters.
pub fn str_eq(a: &str, b: &str) -> (r: bool)
    ensures
        r == (a@ == b@),
{
    let n: usize = a.unicode_len();
    if b.unicode_len() != n {
        return false;
    }
    let mut i: usize = 0;
    while i < n
        invariant
            i <= n,
            n == a@.len(),
            n == b@.len(),
            forall|j: int| 0 <= j < i ==> a@[j] == b@[j],
        decreases n - i,
    {
        if a.get_char(i) != b.get_char(i) {
            return false;
        }
        i += 1;
    }
    assert(a@ =~= b@);
    true
}

/// Whether `s` ends with `suffix`.
pub fn ends_with(s: &str, suffix: &str) -> (r: bool)
    ensures
        r == is_suffix(s@, suffix@),
{
    let n: usize = s.unicode_len();
    let m: usize = suffix.unicode_len();
    if m > n {
        return false;
    }
    str_eq(s.substring_char(n - m, n), suffix)
}

/// Whether `s` starts with `prefix`.
pub fn starts_with(s: &str, prefix: &str) -> (r: bool)
    ensures
        r == is_prefix(s@, prefix@),
{
    let n: usize = s.unicode_len();
    let m: usize = prefix.unicode_len();
    if m > n {
        return false;
    }
    str_eq(s.substring_char(0, m), prefix)
}

/// Whether `c` occurs in `s`.
pub fn contains_char(s: &str, c: char) -> (r: bool)
    ensures
        r == s@.contains(c),
{
    let n: usize = s.unicode_len();
    let mut i: usize = 0;
    while i < n
        invariant
            i <= n,
            n == s@.len(),
            forall|j: int| 0 <= j < i ==> s@[j] != c,
        decreases n - i,
    {
        if s.get_char(i) == c {
            return true;
        }
        i += 1;
    }
    false
}

} // verus!
