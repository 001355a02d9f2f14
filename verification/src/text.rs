//! Character-level string helpers shared by the parsers of this crate.

use vstd::prelude::*;
use vstd::string::StrSliceExecFns;

verus! {

/// ASCII lower-casing of one character: `A`..=`Z` become `a`..=`z`,
/// every other character is left as it is.
pub open spec fn ascii_lower(c: char) -> char {
    if 'A' <= c && c <= 'Z' {
        ((c as u32) + 32) as char
    } else {
        c
    }
}

/// ASCII lower-casing of a whole sequence of characters.
pub open spec fn lowercase_seq(s: Seq<char>) -> Seq<char> {
    s.map_values(|c: char| ascii_lower(c))
}

/// Exact equality of two strings.
pub fn str_equals(a: &str, b: &str) -> (r: bool)
    ensures
        r == (a@ == b@),
{
    let n = a.unicode_len();
    let m = b.unicode_len();
    if n != m {
        return false;
    }
    let mut i: usize = 0;
    while i < n
        invariant
            n == a@.len(),
            m == b@.len(),
            n == m,
            i <= n,
            forall|j: int| 0 <= j < i ==> a@[j] == b@[j],
        decreases n - i,
    {
        let c = a.get_char(i);
        let k = b.get_char(i);
        if c != k {
            return false;
        }
        i = i + 1;
    }
    assert(a@ =~= b@);
    true
}

/// Whether `s`, lower-cased character by character over ASCII, equals `keyword`.
pub fn lower_equals(s: &str, keyword: &str) -> (r: bool)
    ensures
        r == (lowercase_seq(s@) == keyword@),
{
    let n = s.unicode_len();
    let m = keyword.unicode_len();
    if n != m {
        assert(lowercase_seq(s@).len() == n);
        return false;
    }
    let mut i: usize = 0;
    while i < n
        invariant
            n == s@.len(),
            m == keyword@.len(),
            n == m,
            i <= n,
            forall|j: int| 0 <= j < i ==> ascii_lower(s@[j]) == keyword@[j],
        decreases n - i,
    {
        let c = s.get_char(i);
        let k = keyword.get_char(i);
        let lc = if 'A' <= c && c <= 'Z' {
            ((c as u8) + 32) as char
        } else {
            c
        };
        assert(lc == ascii_lower(c));
        if lc != k {
            assert(lowercase_seq(s@)[i as int] != keyword@[i as int]);
            return false;
        }
        i = i + 1;
    }
    assert(lowercase_seq(s@) =~= keyword@);
    true
}

} // verus!
