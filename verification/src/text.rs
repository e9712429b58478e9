//! Character-level helpers on strings.

use vstd::prelude::*;

verus! {

/// The ASCII lower-case form of `c`; every other character is left as it is.
pub open spec fn ascii_lower(c: char) -> char {
    if 'A' <= c && c <= 'Z' {
        ((c as u32) + 32) as char
    } else {
        c
    }
}

/// `a` and `b` are equal once ASCII letters are folded to lower case.
pub open spec fn eq_ignore_ascii_case(a: Seq<char>, b: Seq<char>) -> bool {
    &&& a.len() == b.len()
    &&& forall|i: int| 0 <= i < a.len() ==> ascii_lower(#[trigger] a[i]) == ascii_lower(b[i])
}

/// Header names match regardless of the case of ASCII letters, and of
/// nothing else: a text matches itself with any ASCII letters raised to
/// upper case, and two matching texts have the same length and agree at
/// every position up to the case of an ASCII letter.
pub proof fn ascii_case_is_all_that_matching_ignores(a: Seq<char>, b: Seq<char>)
    ensures
        eq_ignore_ascii_case(
            a,
            a.map_values(|c: char| if 'a' <= c && c <= 'z' { ((c as u32) - 32) as char } else { c }),
        ),
        eq_ignore_ascii_case(a, b) ==> a.len() == b.len() && forall|i: int|
            0 <= i < a.len() ==> #[trigger] a[i] == b[i] || ('A' <= a[i] && a[i] <= 'Z' && (b[i] as u32)
                == (a[i] as u32) + 32) || ('A' <= b[i] && b[i] <= 'Z' && (a[i] as u32) == (b[i] as u32)
                + 32),
{
    let up = a.map_values(|c: char| if 'a' <= c && c <= 'z' { ((c as u32) - 32) as char } else { c });
    assert forall|i: int| 0 <= i < a.len() implies ascii_lower(#[trigger] a[i]) == ascii_lower(up[i]) by {
        let c = a[i];
        if 'a' <= c && c <= 'z' {
            let u = ((c as u32) - 32) as char;
            assert(u as u32 == (c as u32) - 32);
            assert(((u as u32) + 32) as char == c);
        }
    }
    if eq_ignore_ascii_case(a, b) {
        assert forall|i: int| 0 <= i < a.len() implies #[trigger] a[i] == b[i] || ('A' <= a[i] && a[i] <= 'Z'
            && (b[i] as u32) == (a[i] as u32) + 32) || ('A' <= b[i] && b[i] <= 'Z' && (a[i] as u32) == (
        b[i] as u32) + 32) by {
            assert(ascii_lower(a[i]) == ascii_lower(b[i]));
            let x = a[i];
            let y = b[i];
            if 'A' <= x && x <= 'Z' {
                assert((((x as u32) + 32) as char) as u32 == (x as u32) + 32);
            }
            if 'A' <= y && y <= 'Z' {
                assert((((y as u32) + 32) as char) as u32 == (y as u32) + 32);
            }
        }
    }
}

/// Folds an ASCII upper-case letter to lower case.
pub fn lower_ascii_char(c: char) -> (r: char)
    ensures
        r == ascii_lower(c),
{
    if 'A' <= c && c <= 'Z' {
        let code: u8 = (c as u8) + 32;
        code as char
    } else {
        c
    }
}

/// Whether two strings hold the same characters.
pub fn str_equal(a: &str, b: &str) -> (r: bool)
    ensures
        r == (a@ == b@),
{
    let n: usize = a.unicode_len();
    let m: usize = b.unicode_len();
    if n != m {
        return false;
    }
    let mut i: usize = 0;
    while i < n
        invariant
            n == a@.len(),
            m == b@.len(),
            n == m,
            i <= n,
            forall|j: int| 0 <= j < i ==> a@[j] == b@[j],
        decreases n - i,
    {
        if a.get_char(i) != b.get_char(i) {
            return false;
        }
        i = i + 1;
    }
    assert(a@ =~= b@);
    true
}

/// Whether two strings are equal once ASCII letters are folded to lower case.
pub fn str_eq_ignore_ascii_case(a: &str, b: &str) -> (r: bool)
    ensures
        r == eq_ignore_ascii_case(a@, b@),
{
    let n: usize = a.unicode_len();
    let m: usize = b.unicode_len();
    if n != m {
        return false;
    }
    let mut i: usize = 0;
    while i < n
        invariant
            n == a@.len(),
            m == b@.len(),
            n == m,
            i <= n,
            forall|j: int| 0 <= j < i ==> ascii_lower(#[trigger] a@[j]) == ascii_lower(b@[j]),
        decreases n - i,
    {
        let x = lower_ascii_char(a.get_char(i));
        let y = lower_ascii_char(b.get_char(i));
        if x != y {
            return false;
        }
        i = i + 1;
    }
    true
}

} // verus!
