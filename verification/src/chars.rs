//! Character-level helpers shared by the renderer and the escaper.
//!
//! The scanning algorithms of this crate work over vectors of characters;
//! these helpers move between `&str` / `String` and `Vec<char>`.

use vstd::prelude::*;
use vstd::string::*;

verus! {

/// Collects the characters of a string slice into a vector.
pub fn str_to_chars(s: &str) -> (v: Vec<char>)
    ensures
        v@ == s@,
{
    let n = s.unicode_len();
    let mut v: Vec<char> = Vec::new();
    let mut i: usize = 0;
    while i < n
        invariant
            n == s@.len(),
            i <= n,
            v@ == s@.subrange(0, i as int),
        decreases n - i,
    {
        v.push(s.get_char(i));
        i = i + 1;
        proof {
            assert(v@ =~= s@.subrange(0, i as int));
        }
    }
    proof {
        assert(v@ =~= s@);
    }
    v
}

/// Relies on `String: FromIterator<char>`: collecting an iterator of
/// characters builds the string of exactly those characters, in order.
#[verifier::external_body]
pub fn chars_to_string(v: &Vec<char>) -> (s: String)
    ensures
        s@ == v@,
{
    v.iter().collect()
}

/// Compares a string slice against the range `[lo, hi)` of a character vector.
pub fn str_eq_chars_range(s: &str, v: &Vec<char>, lo: usize, hi: usize) -> (r: bool)
    requires
        lo <= hi <= v@.len(),
    ensures
        r == (s@ == v@.subrange(lo as int, hi as int)),
{
    let n = s.unicode_len();
    if n != hi - lo {
        proof {
            assert(s@.len() != v@.subrange(lo as int, hi as int).len());
        }
        return false;
    }
    let mut i: usize = 0;
    while i < n
        invariant
            n == s@.len(),
            lo <= hi <= v@.len(),
            hi - lo == n,
            i <= n,
            forall|j: int| 0 <= j < i ==> s@[j] == v@[lo + j],
        decreases n - i,
    {
        if s.get_char(i) != v[lo + i] {
            proof {
                assert(s@[i as int] != v@.subrange(lo as int, hi as int)[i as int]);
            }
            return false;
        }
        i = i + 1;
    }
    proof {
        assert(s@ =~= v@.subrange(lo as int, hi as int));
    }
    true
}

} // verus!
