use vstd::prelude::*;
use vstd::string::StrSliceExecFns;
use vstd::utf8::{decode_utf8, encode_utf8, is_ascii_chars, valid_utf8};

verus! {

/// `needle` occurs in `hay` as a run of consecutive elements.
pub open spec fn seq_contains_run<T>(hay: Seq<T>, needle: Seq<T>) -> bool {
    exists|i: int| 0 <= i <= hay.len() - needle.len() && #[trigger] hay.subrange(i, i + needle.len()) == needle
}

/// The characters of `s`, in order.
pub fn chars_of(s: &str) -> (chars: Vec<char>)
    ensures
        chars@ == s@,
{
    broadcast use vstd::string::group_string_axioms;
    let mut chars: Vec<char> = Vec::new();
    for c in it: s.chars()
        invariant
            chars@ == it.seq().take(it.index() as int),
    {
        chars.push(c);
    }
    chars
}


/// Whether `needle` occurs in `hay` starting at position `start`.
fn run_at(hay: &Vec<char>, needle: &Vec<char>, start: usize) -> (found: bool)
    requires
        start + needle@.len() <= hay@.len(),
    ensures
        found == (hay@.subrange(start as int, start + needle@.len()) == needle@),
{
    let mut j: usize = 0;
    while j < needle.len()
        invariant
            start + needle@.len() <= hay@.len(),
            hay@.len() == hay.len(),
            j <= needle@.len(),
            forall|t: int| 0 <= t < j ==> hay@[start + t] == needle@[t],
        decreases needle@.len() - j,
    {
        if hay[start + j] != needle[j] {
            assert(hay@.subrange(start as int, start + needle@.len())[j as int] != needle@[j as int]);
            return false;
        }
        j += 1;
    }
    assert(hay@.subrange(start as int, start + needle@.len()) =~= needle@);
    true
}

/// Whether the characters of `needle` occur consecutively in `hay`.
pub fn contains_run(hay: &Vec<char>, needle: &Vec<char>) -> (found: bool)
    ensures
        found == seq_contains_run(hay@, needle@),
{
    if needle.len() > hay.len() {
        return false;
    }
    let last: usize = hay.len() - needle.len();
    let mut i: usize = 0;
    loop
        invariant
            last == hay@.len() - needle@.len(),
            i <= last,
            forall|k: int| 0 <= k < i ==> #[trigger] hay@.subrange(k, k + needle@.len()) != needle@,
        decreases last - i,
    {
        if run_at(hay, needle, i) {
            return true;
        }
        if i == last {
            return false;
        }
        i += 1;
    }
}

/// Whether `needle` occurs in `hay` (what `str::contains` answers for a
/// string pattern).
pub fn str_contains(hay: &str, needle: &str) -> (found: bool)
    ensures
        found == seq_contains_run(hay@, needle@),
{
    let h = chars_of(hay);
    let n = chars_of(needle);
    contains_run(&h, &n)
}


/// The characters of `s` in lower case, as `str::to_lowercase` gives them
/// (by the Unicode lowercase mapping, which depends on `s` alone).
pub uninterp spec fn lowercase_of(s: Seq<char>) -> Seq<char>;

/// The ASCII letter `c` in lower case; any other character unchanged.
pub open spec fn ascii_lower_char(c: char) -> char {
    if 'A' <= c <= 'Z' {
        ((c as u32) + 32) as char
    } else {
        c
    }
}

/// Every ASCII capital letter of `s` in lower case, the rest unchanged.
pub open spec fn ascii_lowercase(s: Seq<char>) -> Seq<char> {
    s.map_values(|c: char| ascii_lower_char(c))
}

/// Calls `str::to_lowercase`. Claimed: the result is `lowercase_of` applied to
/// the characters of `s`; for a string of ASCII characters alone, that is the
/// string with `A`-`Z` turned into `a`-`z` (the Unicode lowercase mapping of
/// the ASCII range). The mapping beyond ASCII is not stated here.
#[verifier::external_body]
pub(crate) fn to_lowercase(s: &str) -> (lower: String)
    ensures
        lower@ == lowercase_of(s@),
        is_ascii_chars(s@) ==> lower@ == ascii_lowercase(s@),
{
    s.to_lowercase()
}

/// Calls `String::from_utf8`. Claimed, as its documentation says: it succeeds
/// exactly when `bytes` are valid UTF-8, and the string then holds the
/// characters that the bytes encode.
#[verifier::external_body]
pub(crate) fn string_from_utf8(bytes: Vec<u8>) -> (s: Option<String>)
    ensures
        s is Some <==> valid_utf8(bytes@),
        s matches Some(t) ==> t@ == decode_utf8(bytes@),
{
    String::from_utf8(bytes).ok()
}

/// The bytes of a C string copy of `s`: its UTF-8 bytes and a terminating NUL,
/// or `None` where `s` holds a NUL byte of its own (a C string cannot).
pub fn c_string_bytes(s: &str) -> (bytes: Option<Vec<u8>>)
    ensures
        bytes is Some <==> !encode_utf8(s@).contains(0u8),
        bytes matches Some(b) ==> b@ == encode_utf8(s@).push(0u8),
{
    let mut out = s.as_bytes_vec();
    let n = out.len();
    let mut i: usize = 0;
    while i < n
        invariant
            n == out@.len(),
            out@ == encode_utf8(s@),
            forall|k: int| 0 <= k < i ==> out@[k] != 0u8,
        decreases n - i,
    {
        if out[i] == 0u8 {
            assert(out@[i as int] == 0u8);
            return None;
        }
        i += 1;
    }
    out.push(0u8);
    Some(out)
}

} // verus!
