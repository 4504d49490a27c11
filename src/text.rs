use vstd::prelude::*;
use crate::storage::{is_substring, opt_seq};

verus! {

/// Whether `needle` occurs as a contiguous part of `hay`; an empty needle
/// always does.
pub fn str_contains(hay: &str, needle: &str) -> (r: bool)
    ensures
        r == is_substring(needle@, hay@),
{
    let h = hay.unicode_len();
    let n = needle.unicode_len();
    if n > h {
        assert forall|i: int| 0 <= i && i + needle@.len() <= hay@.len() implies #[trigger] hay@.subrange(i, i + needle@.len()) != needle@ by {}
        return false;
    }
    let mut i: usize = 0;
    loop
        invariant
            h == hay@.len(),
            n == needle@.len(),
            n <= h,
            0 <= i <= h - n,
            forall|j: int| 0 <= j < i ==> #[trigger] hay@.subrange(j, j + n) != needle@,
        ensures
            forall|j: int| 0 <= j <= h - n ==> #[trigger] hay@.subrange(j, j + n) != needle@,
        decreases h - n - i,
    {
        let part = hay.substring_char(i, i + n);
        if str_eq(part, needle) {
            assert(hay@.subrange(i as int, i as int + needle@.len()) == needle@);
            return true;
        }
        if i == h - n {
            assert(hay@.subrange(i as int, i as int + n) != needle@);
            break;
        }
        i = i + 1;
    }
    assert forall|j: int| 0 <= j && j + needle@.len() <= hay@.len() implies #[trigger] hay@.subrange(j, j + needle@.len()) != needle@ by {
        assert(j <= h - n);
    }
    false
}

/// The characters of the Unicode `White_Space` property.
pub open spec fn is_white_space(c: char) -> bool {
    ('\u{9}' <= c && c <= '\u{d}') || c == ' ' || c == '\u{85}' || c == '\u{a0}'
        || c == '\u{1680}' || ('\u{2000}' <= c && c <= '\u{200a}') || c == '\u{2028}'
        || c == '\u{2029}' || c == '\u{202f}' || c == '\u{205f}' || c == '\u{3000}'
}

/// `s` without its leading white space.
pub open spec fn trim_start_of(s: Seq<char>) -> Seq<char>
    decreases s.len(),
{
    if s.len() > 0 && is_white_space(s[0]) {
        trim_start_of(s.drop_first())
    } else {
        s
    }
}

/// `s` without its trailing white space.
pub open spec fn trim_end_of(s: Seq<char>) -> Seq<char>
    decreases s.len(),
{
    if s.len() > 0 && is_white_space(s.last()) {
        trim_end_of(s.drop_last())
    } else {
        s
    }
}

/// `s` without its leading and trailing white space.
pub open spec fn trim_of(s: Seq<char>) -> Seq<char> {
    trim_end_of(trim_start_of(s))
}

/// Relies on `str::trim`: leading and trailing characters with the Unicode
/// `White_Space` property are removed.
#[verifier::external_body]
pub(crate) fn trim(s: &str) -> (r: String)
    ensures
        r@ == trim_of(s@),
{
    s.trim().to_string()
}

/// The host of `s` when `s` parses as a URL that has one.
pub uninterp spec fn url_host_of(s: Seq<char>) -> Option<Seq<char>>;

/// Relies on `url::Url::parse` and `url::Url::host_str`: the host of the
/// parsed URL, or none when parsing fails or the URL has no host. The result
/// depends on the text alone.
#[verifier::external_body]
fn url_host(s: &str) -> (r: Option<String>)
    ensures
        opt_seq(r) == url_host_of(s@),
{
    match url::Url::parse(s) {
        Ok(u) => match u.host_str() {
            Some(h) => Some(h.to_string()),
            None => None,
        },
        Err(_) => None,
    }
}

/// The label shown for a host: the host, or nothing.
pub fn host_label(host: Option<String>) -> (r: String)
    ensures
        r@ == match opt_seq(host) {
            Some(h) => h,
            None => Seq::<char>::empty(),
        },
{
    match host {
        Some(h) => h,
        None => String::new(),
    }
}

/// The host part of the URL in flight, as the picker's footer shows it;
/// empty when the URL has no host or does not parse.
pub fn footer_host(url: &str) -> (r: String)
    ensures
        r@ == match url_host_of(url@) {
            Some(h) => h,
            None => Seq::<char>::empty(),
        },
{
    host_label(url_host(url))
}

/// `s` cut to its first `max_chars` characters, followed by `...`, when it is
/// longer than that; `s` itself otherwise.
pub fn truncate_string(s: &str, max_chars: usize) -> (r: String)
    ensures
        s@.len() <= max_chars ==> r@ == s@,
        s@.len() > max_chars ==> r@ == s@.subrange(0, max_chars as int) + "..."@,
{
    if s.unicode_len() <= max_chars {
        String::from_str(s)
    } else {
        let mut r = String::from_str(s.substring_char(0, max_chars));
        r.append("...");
        r
    }
}

/// Whether two strings hold the same characters.
pub fn str_eq(a: &str, b: &str) -> (r: bool)
    ensures
        r == (a@ == b@),
{
    let n = a.unicode_len();
    if n != b.unicode_len() {
        return false;
    }
    let mut i: usize = 0;
    while i < n
        invariant
            n == a@.len() == b@.len(),
            0 <= i <= n,
            forall|j: int| 0 <= j < i ==> a@[j] == b@[j],
        decreases n - i,
    {
        if a.get_char(i) != b.get_char(i) {
            return false;
        }
        i = i + 1;
    }
    assert(a@ =~= b@);
    true
}

} // verus!
