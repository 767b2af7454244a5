//! Case-insensitive regular-expression signatures and the scan that every
//! guard runs over the string arguments of a tool call.
use crate::text::{
    all_ascii, ascii_lower, ascii_lower_vec, chars_of, contains_chars, contains_ignoring_case,
    contains_ignoring_case_exec, contains_seq, is_ascii_text,
};
use regex::RegexBuilder;
use vstd::prelude::*;

verus! {

/// What `regex::RegexBuilder::new(pattern).case_insensitive(true).build()`
/// gives back, as a function of the pattern: `None` when the pattern compiles,
/// `Some(text)` with the `Display` text of `regex::Error` when it does not.
pub uninterp spec fn ci_regex_build(pattern: Seq<char>) -> Option<Seq<char>>;

/// What `Regex::is_match(haystack)` answers for the regex compiled from
/// `pattern` with case-insensitive matching switched on.
pub uninterp spec fn ci_regex_is_match(pattern: Seq<char>, haystack: Seq<char>) -> bool;

/// A pattern that the regex crate accepts (case-insensitive build succeeds).
pub open spec fn compiles(pattern: Seq<char>) -> bool {
    ci_regex_build(pattern) is None
}

/// Every pattern of the list compiles.
pub open spec fn all_compile(patterns: Seq<Seq<char>>) -> bool {
    forall|j: int| 0 <= j < patterns.len() ==> compiles(#[trigger] patterns[j])
}

/// The character sequences held by a sequence of strings.
pub open spec fn views(v: Seq<String>) -> Seq<Seq<char>> {
    v.map_values(|s: String| s@)
}

/// Compiles `pattern` case-insensitively with
/// `regex::RegexBuilder::new(..).case_insensitive(true).build()` and reports
/// the outcome: `None` on success, else the `Display` text of the error.
/// The contract only ties the answer to the name `ci_regex_build`; what
/// patterns the regex crate accepts is not written out.
#[verifier::external_body]
fn ci_regex_check(pattern: &str) -> (r: Option<String>)
    ensures
        match r {
            None => ci_regex_build(pattern@) is None,
            Some(msg) => ci_regex_build(pattern@) == Some(msg@),
        },
{
    match RegexBuilder::new(pattern).case_insensitive(true).build() {
        Ok(_) => None,
        Err(e) => Some(format!("{}", e)),
    }
}

/// Compiles `pattern` case-insensitively and calls `regex::Regex::is_match`
/// on `haystack`. The contract says only that the answer is the named
/// `ci_regex_is_match` of the two strings; the regex semantics are not
/// written out. The pattern is known to compile (`requires`).
#[verifier::external_body]
fn ci_regex_matches(pattern: &str, haystack: &str) -> (b: bool)
    requires
        compiles(pattern@),
    ensures
        b == ci_regex_is_match(pattern@, haystack@),
{
    match RegexBuilder::new(pattern).case_insensitive(true).build() {
        Ok(re) => re.is_match(haystack),
        Err(_) => false,
    }
}

/// How a plugin's patterns are read: as case-insensitive regular
/// expressions, or as text that must occur in an argument, ignoring case.
#[derive(Clone, Copy, PartialEq, Eq, Structural)]
pub enum MatchKind {
    Regex,
    Substring,
}

/// A character that has a meaning of its own in a regular expression (the
/// characters `regex::escape` escapes).
pub open spec fn is_regex_meta(c: char) -> bool {
    c == '\\' || c == '.' || c == '+' || c == '*' || c == '?' || c == '(' || c == ')' || c == '|'
        || c == '[' || c == ']' || c == '{' || c == '}' || c == '^' || c == '$' || c == '#'
        || c == '&' || c == '-' || c == '~'
}

/// An ASCII pattern without meta characters: as a regular expression it
/// stands for its own text.
pub open spec fn is_regex_literal(pattern: Seq<char>) -> bool {
    &&& is_ascii_text(pattern)
    &&& forall|i: int| 0 <= i < pattern.len() ==> !is_regex_meta(#[trigger] pattern[i])
}

/// Whether the case-insensitive regular expression `pattern` matches `arg`.
/// A literal pattern on ASCII text matches exactly where its text occurs,
/// ignoring the case of letters; otherwise it is what the regex crate answers.
pub open spec fn regex_matches(pattern: Seq<char>, arg: Seq<char>) -> bool {
    if is_regex_literal(pattern) && is_ascii_text(arg) {
        contains_seq(ascii_lower(arg), ascii_lower(pattern))
    } else {
        ci_regex_is_match(pattern, arg)
    }
}

/// Whether `pattern`, read as `kind` says, matches `arg`.
pub open spec fn pattern_matches(kind: MatchKind, pattern: Seq<char>, arg: Seq<char>) -> bool {
    match kind {
        MatchKind::Regex => regex_matches(pattern, arg),
        MatchKind::Substring => contains_ignoring_case(arg, pattern),
    }
}

/// The patterns can be used as `kind` says: text always can, regular
/// expressions when they compile.
pub open spec fn usable(kind: MatchKind, patterns: Seq<Seq<char>>) -> bool {
    kind == MatchKind::Regex ==> all_compile(patterns)
}

/// Pattern `j` matches argument `i`.
pub open spec fn hit(kind: MatchKind, patterns: Seq<Seq<char>>, args: Seq<Seq<char>>, i: int, j: int) -> bool {
    &&& 0 <= i < args.len()
    &&& 0 <= j < patterns.len()
    &&& pattern_matches(kind, patterns[j], args[i])
}

/// Some pattern matches some argument.
pub open spec fn any_hit(kind: MatchKind, patterns: Seq<Seq<char>>, args: Seq<Seq<char>>) -> bool {
    exists|i: int, j: int| hit(kind, patterns, args, i, j)
}

/// `(i, j)` is the first hit when arguments are scanned in order and, for each
/// argument, the patterns are tried in order.
pub open spec fn first_hit(kind: MatchKind, patterns: Seq<Seq<char>>, args: Seq<Seq<char>>, i: int, j: int) -> bool {
    &&& hit(kind, patterns, args, i, j)
    &&& forall|i2: int, j2: int|
        #![trigger hit(kind, patterns, args, i2, j2)]
        hit(kind, patterns, args, i2, j2) ==> (i < i2 || (i == i2 && j <= j2))
}

/// Pattern `j` is the pattern of the first hit, for some argument.
pub open spec fn first_hit_at(kind: MatchKind, patterns: Seq<Seq<char>>, args: Seq<Seq<char>>, j: int) -> bool {
    exists|i: int| first_hit(kind, patterns, args, i, j)
}

/// The pattern of the first hit (meaningful when `any_hit`).
pub open spec fn first_hit_pattern(kind: MatchKind, patterns: Seq<Seq<char>>, args: Seq<Seq<char>>) -> Seq<char> {
    let (i, j) = choose|i: int, j: int| first_hit(kind, patterns, args, i, j);
    patterns[j]
}

/// The violation message of a signature list: `None` when no pattern matches
/// any argument, else `prefix`, the pattern of the first hit and a closing
/// quote.
pub open spec fn scan_outcome(
    kind: MatchKind,
    patterns: Seq<Seq<char>>,
    args: Seq<Seq<char>>,
    prefix: Seq<char>,
) -> Option<Seq<char>> {
    if any_hit(kind, patterns, args) {
        Some(prefix + first_hit_pattern(kind, patterns, args) + "'"@)
    } else {
        None
    }
}

/// There is at most one first hit, so any first hit names the chosen pattern.
pub proof fn lemma_first_hit_unique(kind: MatchKind, patterns: Seq<Seq<char>>, args: Seq<Seq<char>>, i: int, j: int)
    requires
        first_hit(kind, patterns, args, i, j),
    ensures
        any_hit(kind, patterns, args),
        first_hit_pattern(kind, patterns, args) == patterns[j],
{
    let (i2, j2) = choose|i2: int, j2: int| first_hit(kind, patterns, args, i2, j2);
    assert(first_hit(kind, patterns, args, i2, j2));
    assert(hit(kind, patterns, args, i2, j2));
    assert(hit(kind, patterns, args, i, j));
    assert(i2 == i && j2 == j);
}

/// Pattern `k` is the first of the list that does not compile.
pub open spec fn first_invalid_at(patterns: Seq<Seq<char>>, k: int) -> bool {
    &&& 0 <= k < patterns.len()
    &&& !compiles(patterns[k])
    &&& forall|k2: int| 0 <= k2 < k ==> compiles(#[trigger] patterns[k2])
}

/// The message for a pattern that does not compile.
pub open spec fn invalid_regex_message(pattern: Seq<char>, error: Seq<char>) -> Seq<char> {
    "Invalid regex '"@ + pattern + "': "@ + error
}

/// What checking a list of patterns reports: `None` when all compile, else
/// the message for the first pattern that does not.
pub open spec fn check_outcome(patterns: Seq<Seq<char>>) -> Option<Seq<char>> {
    if all_compile(patterns) {
        None
    } else {
        let k = choose|k: int| first_invalid_at(patterns, k);
        Some(invalid_regex_message(patterns[k], ci_regex_build(patterns[k]).unwrap()))
    }
}

/// Checks that every pattern compiles case-insensitively. On the first one
/// that does not, returns `Invalid regex '<pattern>': <error text>`.
pub fn check_patterns(patterns: &Vec<String>) -> (r: Result<(), String>)
    ensures
        agrees(r, check_outcome(views(patterns@))),
        r is Ok <==> all_compile(views(patterns@)),
{
    let ghost ps = views(patterns@);
    let n = patterns.len();
    let mut k: usize = 0;
    while k < n
        invariant
            n == patterns@.len(),
            ps == views(patterns@),
            k <= n,
            forall|k2: int| 0 <= k2 < k ==> compiles(#[trigger] ps[k2]),
        decreases n - k,
    {
        let p = &patterns[k];
        match ci_regex_check(p.as_str()) {
            None => {},
            Some(e) => {
                let mut msg = String::from_str("Invalid regex '");
                msg.append(p.as_str());
                msg.append("': ");
                msg.append(e.as_str());
                proof {
                    assert(first_invalid_at(ps, k as int));
                    let k1 = choose|k1: int| first_invalid_at(ps, k1);
                    assert(first_invalid_at(ps, k1));
                    if k1 < k {
                        assert(compiles(ps[k1]));
                    }
                    assert(k1 == k);
                }
                return Err(msg);
            },
        }
        assert(compiles(ps[k as int]));
        k = k + 1;
    }
    Ok(())
}

/// Whether `pattern`, read as `kind` says, matches `arg`.
fn pattern_matches_exec(kind: MatchKind, pattern: &str, arg: &str) -> (b: bool)
    requires
        kind == MatchKind::Regex ==> compiles(pattern@),
    ensures
        b == pattern_matches(kind, pattern@, arg@),
{
    match kind {
        MatchKind::Regex => {
            let p = chars_of(pattern);
            let a = chars_of(arg);
            if is_literal_chars(&p) && all_ascii(&a) {
                contains_chars(&ascii_lower_vec(&a), &ascii_lower_vec(&p))
            } else {
                ci_regex_matches(pattern, arg)
            }
        },
        MatchKind::Substring => contains_ignoring_case_exec(arg, pattern),
    }
}

/// Whether the pattern is a literal (ASCII, no meta characters).
fn is_literal_chars(p: &Vec<char>) -> (b: bool)
    ensures
        b == is_regex_literal(p@),
{
    if !all_ascii(p) {
        return false;
    }
    let n = p.len();
    let mut k: usize = 0;
    while k < n
        invariant
            n == p@.len(),
            k <= n,
            forall|k2: int| 0 <= k2 < k ==> !is_regex_meta(#[trigger] p@[k2]),
        decreases n - k,
    {
        let c = p[k];
        if c == '\\' || c == '.' || c == '+' || c == '*' || c == '?' || c == '(' || c == ')' || c == '|'
            || c == '[' || c == ']' || c == '{' || c == '}' || c == '^' || c == '$' || c == '#'
            || c == '&' || c == '-' || c == '~' {
            assert(is_regex_meta(p@[k as int]));
            return false;
        }
        k = k + 1;
    }
    true
}

/// Scans the arguments in order and, for each, the patterns in order; returns
/// the index of the pattern of the first hit, or `None` when nothing matches.
pub fn scan_patterns(kind: MatchKind, patterns: &Vec<String>, args: &[String]) -> (r: Option<usize>)
    requires
        usable(kind, views(patterns@)),
    ensures
        r is None <==> !any_hit(kind, views(patterns@), views(args@)),
        r matches Some(j) ==> first_hit_at(kind, views(patterns@), views(args@), j as int),
{
    let ghost ps = views(patterns@);
    let ghost a = views(args@);
    let na = args.len();
    let np = patterns.len();
    let mut i: usize = 0;
    while i < na
        invariant
            na == args@.len(),
            np == patterns@.len(),
            ps == views(patterns@),
            a == views(args@),
            usable(kind, ps),
            i <= na,
            forall|i2: int, j2: int| #![trigger hit(kind, ps, a, i2, j2)] i2 < i ==> !hit(kind, ps, a, i2, j2),
        decreases na - i,
    {
        let mut j: usize = 0;
        while j < np
            invariant
                na == args@.len(),
                np == patterns@.len(),
                ps == views(patterns@),
                a == views(args@),
                usable(kind, ps),
                i < na,
                j <= np,
                forall|i2: int, j2: int| #![trigger hit(kind, ps, a, i2, j2)] i2 < i ==> !hit(kind, ps, a, i2, j2),
                forall|j2: int| #![trigger hit(kind, ps, a, i as int, j2)] j2 < j ==> !hit(kind, ps, a, i as int, j2),
            decreases np - j,
        {
            assert(kind == MatchKind::Regex ==> compiles(ps[j as int]));
            if pattern_matches_exec(kind, patterns[j].as_str(), args[i].as_str()) {
                assert(hit(kind, ps, a, i as int, j as int));
                assert(first_hit(kind, ps, a, i as int, j as int));
                return Some(j);
            }
            assert(!hit(kind, ps, a, i as int, j as int));
            j = j + 1;
        }
        i = i + 1;
    }
    assert(!any_hit(kind, ps, a));
    None
}

/// The message of a plugin check agrees with an expected outcome: `Ok` when
/// none is expected, else an error carrying exactly the expected text.
pub open spec fn agrees(r: Result<(), String>, expected: Option<Seq<char>>) -> bool {
    match r {
        Ok(_) => expected is None,
        Err(m) => expected == Some(m@),
    }
}

/// Runs the signature scan and renders the violation as
/// `prefix + <pattern of the first hit> + "'"`.
pub fn signature_violation(
    kind: MatchKind,
    patterns: &Vec<String>,
    args: &[String],
    prefix: &str,
) -> (r: Result<(), String>)
    requires
        usable(kind, views(patterns@)),
    ensures
        agrees(r, scan_outcome(kind, views(patterns@), views(args@), prefix@)),
{
    match scan_patterns(kind, patterns, args) {
        None => Ok(()),
        Some(j) => {
            let mut m = String::from_str(prefix);
            m.append(patterns[j].as_str());
            m.append("'");
            proof {
                let ps = views(patterns@);
                let a = views(args@);
                let i = choose|i: int| first_hit(kind, ps, a, i, j as int);
                lemma_first_hit_unique(kind, ps, a, i, j as int);
            }
            Err(m)
        },
    }
}

} // verus!
