//! Case-insensitive substring search over strings.
use vstd::prelude::*;

verus! {

/// What `str::to_lowercase` returns for a string (full Unicode lowercase
/// mapping, which may change the number of characters).
pub uninterp spec fn lowercase(s: Seq<char>) -> Seq<char>;

/// Calls `str::to_lowercase`. The contract only ties the result to the name
/// `lowercase`; the Unicode case mapping is not written out.
#[verifier::external_body]
fn to_lowercase(s: &str) -> (r: String)
    ensures
        r@ == lowercase(s@),
{
    s.to_lowercase()
}

/// `needle` occurs in `haystack` as a run of consecutive characters.
pub open spec fn contains_seq(haystack: Seq<char>, needle: Seq<char>) -> bool {
    exists|i: int|
        0 <= i <= haystack.len() - needle.len() && #[trigger] haystack.subrange(i, i + needle.len())
            == needle
}

/// Every character is ASCII.
pub open spec fn is_ascii_text(s: Seq<char>) -> bool {
    forall|i: int| 0 <= i < s.len() ==> #[trigger] s[i] <= '\u{7f}'
}

/// The lowercase form of an ASCII letter; any other character is kept.
pub open spec fn ascii_lower_char(c: char) -> char {
    if 'A' <= c <= 'Z' {
        ((c as u32) + 32) as char
    } else {
        c
    }
}

/// Each ASCII letter lowercased, every other character kept.
pub open spec fn ascii_lower(s: Seq<char>) -> Seq<char> {
    s.map_values(|c: char| ascii_lower_char(c))
}

/// The lowercase form of a string: for ASCII text, each letter lowercased;
/// otherwise what `str::to_lowercase` gives.
pub open spec fn lower(s: Seq<char>) -> Seq<char> {
    if is_ascii_text(s) {
        ascii_lower(s)
    } else {
        lowercase(s)
    }
}

/// `needle` occurs in `haystack` when both are lowercased.
pub open spec fn contains_ignoring_case(haystack: Seq<char>, needle: Seq<char>) -> bool {
    contains_seq(lower(haystack), lower(needle))
}

/// The characters of `s`.
pub fn chars_of(s: &str) -> (v: Vec<char>)
    ensures
        v@ == s@,
{
    broadcast use vstd::string::group_string_axioms;

    let mut v: Vec<char> = Vec::new();
    for c in it: s.chars()
        invariant
            it.seq() == s@,
            v@ == it.seq().take(it.index() as int),
    {
        v.push(c);
        assert(it.seq().take(it.index() + 1) =~= v@);
    }
    v
}

/// Whether `needle` occurs at position `i` of `haystack`.
fn occurs_at(haystack: &Vec<char>, needle: &Vec<char>, i: usize) -> (b: bool)
    requires
        i + needle@.len() <= haystack@.len(),
    ensures
        b == (haystack@.subrange(i as int, i + needle@.len()) == needle@),
{
    let m = needle.len();
    let mut k: usize = 0;
    while k < m
        invariant
            m == needle@.len(),
            i + m <= haystack@.len(),
            haystack@.len() == haystack.len(),
            k <= m,
            forall|k2: int| 0 <= k2 < k ==> haystack@[i + k2] == needle@[k2],
        decreases m - k,
    {
        if haystack[i + k] != needle[k] {
            assert(haystack@.subrange(i as int, i + m)[k as int] != needle@[k as int]);
            return false;
        }
        k = k + 1;
    }
    assert(haystack@.subrange(i as int, i + m) =~= needle@);
    true
}

/// Whether `needle` occurs in `haystack`.
pub fn contains_chars(haystack: &Vec<char>, needle: &Vec<char>) -> (b: bool)
    ensures
        b == contains_seq(haystack@, needle@),
{
    let n = haystack.len();
    let m = needle.len();
    if m > n {
        return false;
    }
    let mut i: usize = 0;
    loop
        invariant
            n == haystack@.len(),
            m == needle@.len(),
            m <= n,
            i <= n - m,
            forall|i2: int|
                0 <= i2 < i ==> #[trigger] haystack@.subrange(i2, i2 + m) != needle@,
        decreases n - m - i,
    {
        if occurs_at(haystack, needle, i) {
            return true;
        }
        if i == n - m {
            return false;
        }
        i = i + 1;
    }
}

/// Whether every character of `v` is ASCII.
pub fn all_ascii(v: &Vec<char>) -> (b: bool)
    ensures
        b == is_ascii_text(v@),
{
    let n = v.len();
    let mut k: usize = 0;
    while k < n
        invariant
            n == v@.len(),
            k <= n,
            forall|k2: int| 0 <= k2 < k ==> v@[k2] <= '\u{7f}',
        decreases n - k,
    {
        if v[k] > '\u{7f}' {
            return false;
        }
        k = k + 1;
    }
    true
}

/// `v` with each ASCII letter lowercased.
pub fn ascii_lower_vec(v: &Vec<char>) -> (r: Vec<char>)
    ensures
        r@ == ascii_lower(v@),
{
    let n = v.len();
    let mut r: Vec<char> = Vec::new();
    let mut k: usize = 0;
    while k < n
        invariant
            n == v@.len(),
            k <= n,
            r@ == ascii_lower(v@.take(k as int)),
        decreases n - k,
    {
        let c = v[k];
        let l = if 'A' <= c && c <= 'Z' {
            ((c as u8) + 32) as char
        } else {
            c
        };
        r.push(l);
        assert(ascii_lower(v@.take(k + 1)) =~= ascii_lower(v@.take(k as int)).push(ascii_lower_char(c)));
        k = k + 1;
    }
    assert(v@.take(n as int) =~= v@);
    r
}

/// The characters of the lowercase form of `s`.
fn lower_chars(s: &str) -> (v: Vec<char>)
    ensures
        v@ == lower(s@),
{
    let cs = chars_of(s);
    if all_ascii(&cs) {
        ascii_lower_vec(&cs)
    } else {
        chars_of(to_lowercase(s).as_str())
    }
}

/// Whether `needle` occurs in `haystack` once both are lowercased.
pub fn contains_ignoring_case_exec(haystack: &str, needle: &str) -> (b: bool)
    ensures
        b == contains_ignoring_case(haystack@, needle@),
{
    let h = lower_chars(haystack);
    let n = lower_chars(needle);
    contains_chars(&h, &n)
}

} // verus!
