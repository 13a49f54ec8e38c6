use vstd::prelude::*;

verus! {

/// A character with ASCII upper-case letters mapped to lower case; every
/// other character is left as it is.
pub open spec fn ascii_lower(c: char) -> char {
    if 'A' <= c && c <= 'Z' {
        ((c as u8) + 32) as char
    } else {
        c
    }
}

/// Two strings are equal once ASCII letters are compared without regard to case.
pub open spec fn eq_ignore_ascii_case(a: Seq<char>, b: Seq<char>) -> bool {
    &&& a.len() == b.len()
    &&& forall|i: int| 0 <= i < a.len() ==> ascii_lower(#[trigger] a[i]) == ascii_lower(b[i])
}

/// What remains of a string once leading and trailing whitespace is removed.
pub uninterp spec fn trimmed(s: Seq<char>) -> Seq<char>;

/// Relies on str::trim: the slice without leading and trailing whitespace,
/// which depends on the characters alone.
#[verifier::external_body]
fn trim_str(s: &str) -> (r: &str)
    ensures
        r@ == trimmed(s@),
{
    s.trim()
}

fn lower_char(c: char) -> (r: char)
    ensures
        r == ascii_lower(c),
{
    if 'A' <= c && c <= 'Z' {
        ((c as u8) + 32) as char
    } else {
        c
    }
}

/// Compares two strings, treating ASCII letters without regard to case.
pub fn ascii_case_equal(a: &str, b: &str) -> (r: bool)
    ensures
        r == eq_ignore_ascii_case(a@, b@),
{
    let n = a.unicode_len();
    let m = b.unicode_len();
    if n != m {
        return false;
    }
    let mut i: usize = 0;
    while i < n
        invariant
            n == a@.len(),
            n == b@.len(),
            i <= n,
            forall|j: int| 0 <= j < i ==> ascii_lower(#[trigger] a@[j]) == ascii_lower(b@[j]),
        decreases n - i,
    {
        if lower_char(a.get_char(i)) != lower_char(b.get_char(i)) {
            return false;
        }
        i = i + 1;
    }
    true
}

/// Whether a free-text answer, with surrounding whitespace removed, matches
/// the expected answer.
pub open spec fn open_response_correct(submitted: Seq<char>, expected: Seq<char>) -> bool {
    eq_ignore_ascii_case(trimmed(submitted), expected)
}

/// Grades a free-text answer: surrounding whitespace is ignored, and ASCII
/// letters are compared without regard to case.
pub fn grade_open_response(submitted: &str, expected: &str) -> (r: bool)
    ensures
        r == open_response_correct(submitted@, expected@),
{
    let t = trim_str(submitted);
    ascii_case_equal(t, expected)
}

} // verus!
