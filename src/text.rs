//! Small verified string utilities used throughout the library.

use vstd::prelude::*;

verus! {

/// `a` equals the lowercase ASCII text `lower` when ASCII upper-case letters
/// of `a` are folded to lower case.
pub open spec fn char_folds_to(a: char, lower: char) -> bool {
    if 'A' <= a && a <= 'Z' {
        a as u32 + 32 == lower as u32
    } else {
        a == lower
    }
}

/// `s` matches `lower` ignoring ASCII case (`lower` is written in lower case).
pub open spec fn matches_ignore_ascii_case(s: Seq<char>, lower: Seq<char>) -> bool {
    &&& s.len() == lower.len()
    &&& forall|i: int| 0 <= i < s.len() ==> char_folds_to(#[trigger] s[i], lower[i])
}

/// Exact equality of two texts.
pub fn str_eq(a: &str, b: &str) -> (r: bool)
    ensures
        r == (a@ == b@),
{
    let n = a.unicode_len();
    let m = b.unicode_len();
    if n != m {
        return false;
    }
    let mut i: usize = 0;
    while i < n
        invariant
            n == a@.len(),
            m == b@.len(),
            n == m,
            i <= n,
            forall|j: int| 0 <= j < i ==> a@[j] == b@[j],
        decreases n - i,
    {
        if a.get_char(i) != b.get_char(i) {
            return false;
        }
        i = i + 1;
    }
    assert(a@ =~= b@);
    true
}

/// Case-insensitive (ASCII) comparison of `s` with a lower-case text.
pub fn eq_ignore_ascii_case_lower(s: &str, lower: &str) -> (r: bool)
    ensures
        r == matches_ignore_ascii_case(s@, lower@),
{
    let n = s.unicode_len();
    let m = lower.unicode_len();
    if n != m {
        return false;
    }
    let mut i: usize = 0;
    while i < n
        invariant
            n == s@.len(),
            m == lower@.len(),
            n == m,
            i <= n,
            forall|j: int| 0 <= j < i ==> char_folds_to(#[trigger] s@[j], lower@[j]),
        decreases n - i,
    {
        let c = s.get_char(i);
        let l = lower.get_char(i);
        let ok = if 'A' <= c && c <= 'Z' {
            (c as u32) + 32 == (l as u32)
        } else {
            c == l
        };
        if !ok {
            return false;
        }
        i = i + 1;
    }
    true
}

} // verus!

verus! {

/// What `str::trim` leaves of a text: the text without leading and trailing
/// Unicode white space.
pub uninterp spec fn trimmed(s: Seq<char>) -> Seq<char>;

/// Relies on `str::trim`: the result is the text with leading and trailing
/// white space removed, which depends on the characters alone.
#[verifier::external_body]
pub(crate) fn trim_text(s: &str) -> (r: &str)
    ensures
        r@ == trimmed(s@),
{
    s.trim()
}

} // verus!

verus! {

/// `s` ends with `suffix`.
pub open spec fn has_suffix(s: Seq<char>, suffix: Seq<char>) -> bool {
    s.len() >= suffix.len() && s.subrange(s.len() - suffix.len(), s.len() as int) == suffix
}

/// Whether `s` ends with `suffix`.
pub fn ends_with(s: &str, suffix: &str) -> (r: bool)
    ensures
        r == has_suffix(s@, suffix@),
{
    let n = s.unicode_len();
    let m = suffix.unicode_len();
    if m > n {
        return false;
    }
    let off = n - m;
    let mut i: usize = 0;
    while i < m
        invariant
            n == s@.len(),
            m == suffix@.len(),
            off == n - m,
            i <= m,
            forall|j: int| 0 <= j < i ==> s@[off + j] == suffix@[j],
        decreases m - i,
    {
        if s.get_char(off + i) != suffix.get_char(i) {
            assert(s@.subrange(n - m, n as int)[i as int] != suffix@[i as int]);
            return false;
        }
        i = i + 1;
    }
    assert(s@.subrange(n - m, n as int) =~= suffix@);
    true
}

/// The text chrono writes for the UTC minute of a Unix timestamp with the
/// pattern `%Y-%m-%d %H:%M`.
pub uninterp spec fn utc_minute_text(secs: i64) -> Seq<char>;

/// Relies on `chrono::DateTime::<Utc>::from_timestamp` and `format`: a
/// timestamp within chrono's calendar range is written as
/// `YYYY-MM-DD HH:MM`; one outside gives `None`. Every timestamp of the
/// years 1970 to 9999 lies in that range.
#[verifier::external_body]
pub(crate) fn format_utc_minute(secs: i64) -> (r: Option<String>)
    ensures
        r matches Some(t) ==> t@ == utc_minute_text(secs),
        0 <= secs <= 253402300799 ==> r is Some,
{
    match chrono::DateTime::<chrono::Utc>::from_timestamp(secs, 0) {
        Some(d) => Some(d.format("%Y-%m-%d %H:%M").to_string()),
        None => None,
    }
}

} // verus!

verus! {

/// The number of white-space separated words of a text, as
/// `str::split_whitespace` counts them.
pub uninterp spec fn word_count_of(s: Seq<char>) -> int;

/// Relies on `str::split_whitespace` and `Iterator::count`: the number of
/// words depends on the characters alone.
#[verifier::external_body]
pub(crate) fn count_words_raw(text: &str) -> (r: u64)
    ensures
        r as int == word_count_of(text@),
{
    text.split_whitespace().count() as u64
}

/// The number of words of a text, saturated at `i64::MAX`.
pub open spec fn count_words_spec(s: Seq<char>) -> i64 {
    if word_count_of(s) <= i64::MAX as int {
        word_count_of(s) as i64
    } else {
        i64::MAX
    }
}

/// The number of words of `text`, saturated at `i64::MAX`.
pub fn count_words(text: &str) -> (r: i64)
    ensures
        r == count_words_spec(text@),
{
    let n = count_words_raw(text);
    if n <= i64::MAX as u64 {
        n as i64
    } else {
        i64::MAX
    }
}

} // verus!

verus! {

/// `t` occurs in `s` at position `i`.
pub open spec fn occurs_at(s: Seq<char>, t: Seq<char>, i: int) -> bool {
    0 <= i && i + t.len() <= s.len() && s.subrange(i, i + t.len()) == t
}

/// `t` occurs somewhere in `s`.
pub open spec fn has_substring(s: Seq<char>, t: Seq<char>) -> bool {
    exists|i: int| occurs_at(s, t, i)
}

fn matches_at(s: &str, n: usize, t: &str, m: usize, i: usize) -> (r: bool)
    requires
        n == s@.len(),
        m == t@.len(),
        i + m <= n,
    ensures
        r == occurs_at(s@, t@, i as int),
{
    let mut j: usize = 0;
    while j < m
        invariant
            n == s@.len(),
            m == t@.len(),
            i + m <= n,
            j <= m,
            forall|k: int| 0 <= k < j ==> s@[i + k] == t@[k],
        decreases m - j,
    {
        if s.get_char(i + j) != t.get_char(j) {
            assert(s@.subrange(i as int, i + m)[j as int] != t@[j as int]);
            return false;
        }
        j = j + 1;
    }
    assert(s@.subrange(i as int, i + m) =~= t@);
    true
}

/// Whether `t` occurs in `s`.
pub fn contains_text(s: &str, t: &str) -> (r: bool)
    ensures
        r == has_substring(s@, t@),
{
    let n = s.unicode_len();
    let m = t.unicode_len();
    if m > n {
        assert(forall|i: int| !occurs_at(s@, t@, i));
        return false;
    }
    let last = n - m;
    let mut i: usize = 0;
    loop
        invariant
            n == s@.len(),
            m == t@.len(),
            m <= n,
            last == n - m,
            i <= last,
            forall|k: int| 0 <= k < i ==> !occurs_at(s@, t@, k),
        ensures
            forall|k: int| 0 <= k <= last ==> !occurs_at(s@, t@, k),
        decreases last - i,
    {
        if matches_at(s, n, t, m, i) {
            return true;
        }
        if i == last {
            break;
        }
        i = i + 1;
    }
    assert forall|k: int| !occurs_at(s@, t@, k) by {
        if 0 <= k && k <= last {
        }
    }
    false
}

/// What `str::replace` gives: every occurrence of `from` in `s` replaced
/// by `to`.
pub uninterp spec fn replaced(s: Seq<char>, from: Seq<char>, to: Seq<char>) -> Seq<char>;

/// Relies on `str::replace`: the result depends on the three texts alone.
#[verifier::external_body]
pub(crate) fn replace_text(s: &str, from: &str, to: &str) -> (r: String)
    ensures
        r@ == replaced(s@, from@, to@),
{
    s.replace(from, to)
}

/// `a` followed by `b`, as a new text.
pub fn join(a: &str, b: &str) -> (r: String)
    ensures
        r@ == a@ + b@,
{
    let mut s = String::from_str(a);
    s.append(b);
    s
}

} // verus!
