//! Reading `Field : value` lines out of the metadata tool's free-form output.
use vstd::prelude::*;
use crate::text::{inline_space, is_inline_space, trim, trim_range};

verus! {

/// What a field reads when the tool's output gives no value for it.
pub open spec fn unknown() -> Seq<char> {
    "Unknown"@
}

/// Where the colon stands when, from `j` on, only in-line white space precedes one.
pub open spec fn colon_pos(s: Seq<char>, j: int) -> Option<int>
    decreases s.len() - j,
{
    if j < 0 || j >= s.len() {
        None
    } else if s[j] == ':' {
        Some(j)
    } else if is_inline_space(s[j]) {
        colon_pos(s, j + 1)
    } else {
        None
    }
}

/// The end of the line that position `j` lies on: the next line break, or the end of `s`.
pub open spec fn line_end(s: Seq<char>, j: int) -> int
    decreases s.len() - j,
{
    if j < 0 || j >= s.len() {
        s.len() as int
    } else if s[j] == '\n' {
        j
    } else {
        line_end(s, j + 1)
    }
}

/// The field name `f` is written at position `p` of `s`.
pub open spec fn name_at(s: Seq<char>, f: Seq<char>, p: int) -> bool {
    0 <= p && p + f.len() <= s.len() && s.subrange(p, p + f.len()) == f
}

/// At `p` stands `f`, optional white space and a colon: the pattern `f\s*:`.
pub open spec fn match_at(s: Seq<char>, f: Seq<char>, p: int) -> bool {
    name_at(s, f, p) && colon_pos(s, p + f.len()) is Some
}

/// The first position at or after `p` where the pattern for `f` matches.
pub open spec fn first_match(s: Seq<char>, f: Seq<char>, p: int) -> Option<int>
    decreases s.len() + 1 - p,
{
    if p < 0 || p > s.len() {
        None
    } else if match_at(s, f, p) {
        Some(p)
    } else {
        first_match(s, f, p + 1)
    }
}

/// The value of the first match for `f`: the rest of its line after the colon, trimmed.
pub open spec fn field_value(s: Seq<char>, f: Seq<char>) -> Option<Seq<char>> {
    match first_match(s, f, 0) {
        Some(p) => {
            let c = colon_pos(s, p + f.len()).unwrap();
            Some(trim(s.subrange(c + 1, line_end(s, c + 1))))
        },
        None => None,
    }
}

/// The field's value, or the sentinel where there is no match or the value is blank.
pub open spec fn field_or_unknown(s: Seq<char>, f: Seq<char>) -> Seq<char> {
    match field_value(s, f) {
        Some(v) => if v.len() > 0 {
            v
        } else {
            unknown()
        },
        None => unknown(),
    }
}

/// The display fields that the metadata tool gives for one file.
pub struct Metadata {
    pub author: String,
    pub total_pages: String,
}

fn unknown_string() -> (r: String)
    ensures
        r@ == unknown(),
{
    String::from_str("Unknown")
}

fn colon_from(s: &str, n: usize, j: usize) -> (r: Option<usize>)
    requires
        n == s@.len(),
        j <= n,
    ensures
        match r {
            Some(c) => colon_pos(s@, j as int) == Some(c as int) && j <= c < n,
            None => colon_pos(s@, j as int) is None,
        },
{
    let mut k: usize = j;
    while k < n
        invariant
            n == s@.len(),
            j <= k <= n,
            colon_pos(s@, j as int) == colon_pos(s@, k as int),
        decreases n - k,
    {
        let c = s.get_char(k);
        if c == ':' {
            return Some(k);
        } else if inline_space(c) {
            k = k + 1;
        } else {
            return None;
        }
    }
    None
}

fn line_end_from(s: &str, n: usize, j: usize) -> (r: usize)
    requires
        n == s@.len(),
        j <= n,
    ensures
        r as int == line_end(s@, j as int),
        j <= r <= n,
{
    let mut k: usize = j;
    while k < n && s.get_char(k) != '\n'
        invariant
            n == s@.len(),
            j <= k <= n,
            line_end(s@, j as int) == line_end(s@, k as int),
        decreases n - k,
    {
        k = k + 1;
    }
    k
}

fn name_matches_at(s: &str, n: usize, f: &str, m: usize, p: usize) -> (r: bool)
    requires
        n == s@.len(),
        m == f@.len(),
        p <= n,
    ensures
        r == name_at(s@, f@, p as int),
{
    if m > n - p {
        return false;
    }
    let mut k: usize = 0;
    while k < m
        invariant
            n == s@.len(),
            m == f@.len(),
            p + m <= n,
            k <= m,
            forall|i: int| 0 <= i < k ==> s@[p + i] == f@[i],
        decreases m - k,
    {
        if s.get_char(p + k) != f.get_char(k) {
            assert(s@.subrange(p as int, p + m)[k as int] != f@[k as int]);
            return false;
        }
        k = k + 1;
    }
    assert(s@.subrange(p as int, p + m) =~= f@);
    true
}

fn first_match_in(s: &str, n: usize, f: &str, m: usize) -> (r: Option<usize>)
    requires
        n == s@.len(),
        m == f@.len(),
    ensures
        match r {
            Some(p) => first_match(s@, f@, 0) == Some(p as int) && p + m <= n,
            None => first_match(s@, f@, 0) is None,
        },
{
    let mut p: usize = 0;
    while p < n
        invariant
            n == s@.len(),
            m == f@.len(),
            p <= n,
            first_match(s@, f@, 0) == first_match(s@, f@, p as int),
        decreases n - p,
    {
        if name_matches_at(s, n, f, m, p) && colon_from(s, n, p + m).is_some() {
            return Some(p);
        }
        p = p + 1;
    }
    assert(!match_at(s@, f@, n as int));
    assert(first_match(s@, f@, n + 1) is None);
    None
}

/// The value of the first `field : value` line in the tool's output `raw`, trimmed;
/// `"Unknown"` where no line matches or the value is blank.
pub fn parse_field(raw: &str, field: &str) -> (r: String)
    ensures
        r@ == field_or_unknown(raw@, field@),
{
    let n = raw.unicode_len();
    let m = field.unicode_len();
    match first_match_in(raw, n, field, m) {
        None => unknown_string(),
        Some(p) => {
            proof {
                lemma_first_match_matches(raw@, field@, 0, p as int);
            }
            match colon_from(raw, n, p + m) {
                None => unknown_string(),
                Some(c) => {
                    let e = line_end_from(raw, n, c + 1);
                    let (a, b) = trim_range(raw, c + 1, e);
                    if a == b {
                        unknown_string()
                    } else {
                        String::from_str(raw.substring_char(a, b))
                    }
                },
            }
        },
    }
}

proof fn lemma_first_match_matches(s: Seq<char>, f: Seq<char>, q: int, p: int)
    requires
        first_match(s, f, q) == Some(p),
    ensures
        match_at(s, f, p),
    decreases s.len() + 1 - q,
{
    if 0 <= q <= s.len() && !match_at(s, f, q) {
        lemma_first_match_matches(s, f, q + 1, p);
    }
}

/// The author and page count read from the metadata tool's output. Where the tool
/// failed (`tool_ok` false) both fields are `"Unknown"`.
pub fn extract_metadata(raw: &str, tool_ok: bool) -> (r: Metadata)
    ensures
        tool_ok ==> r.author@ == field_or_unknown(raw@, "Author"@),
        tool_ok ==> r.total_pages@ == field_or_unknown(raw@, "PageCount"@),
        !tool_ok ==> r.author@ == unknown() && r.total_pages@ == unknown(),
{
    if tool_ok {
        Metadata { author: parse_field(raw, "Author"), total_pages: parse_field(raw, "PageCount") }
    } else {
        Metadata { author: unknown_string(), total_pages: unknown_string() }
    }
}

/// Where no line of the output matches the author pattern, the author reads `"Unknown"`.
pub proof fn lemma_no_author_line_is_unknown(raw: Seq<char>)
    requires
        forall|p: int| !match_at(raw, "Author"@, p),
    ensures
        field_or_unknown(raw, "Author"@) == unknown(),
{
    lemma_no_match_from(raw, "Author"@, 0);
}

proof fn lemma_no_match_from(s: Seq<char>, f: Seq<char>, p: int)
    requires
        forall|q: int| !match_at(s, f, q),
    ensures
        first_match(s, f, p) is None,
    decreases s.len() + 1 - p,
{
    if 0 <= p <= s.len() {
        lemma_no_match_from(s, f, p + 1);
    }
}

} // verus!
