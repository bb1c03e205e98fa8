//! Video identifiers.
//!
//! A client supplies a video identifier as an opaque string that is used
//! only as a lookup key in the metadata store.  The store keys its records
//! by 24-character hexadecimal object identifiers, so the gateway rejects
//! anything else before any backend is contacted.

use vstd::prelude::*;
use vstd::string::StrSliceExecFns;

verus! {

/// Whether `c` is an ASCII hexadecimal digit (`0-9`, `a-f`, `A-F`).
pub open spec fn is_hex_digit(c: char) -> bool {
    let n = c as u32;
    (48 <= n && n <= 57) || (97 <= n && n <= 102) || (65 <= n && n <= 70)
}

/// A well-formed video identifier: exactly 24 hexadecimal characters.
pub open spec fn valid_video_id(s: Seq<char>) -> bool {
    s.len() == 24 && (forall|i: int| 0 <= i < s.len() ==> is_hex_digit(#[trigger] s[i]))
}

/// Checks that `id` is a syntactically well-formed video identifier.
pub fn check_video_id(id: &str) -> (r: bool)
    ensures
        r == valid_video_id(id@),
{
    let len = id.unicode_len();
    if len != 24 {
        return false;
    }
    let mut i: usize = 0;
    while i < 24
        invariant
            0 <= i <= 24,
            id@.len() == 24,
            forall|j: int| 0 <= j < i ==> is_hex_digit(#[trigger] id@[j]),
        decreases 24 - i,
    {
        let c = id.get_char(i);
        let n = c as u32;
        let hex = (48 <= n && n <= 57) || (97 <= n && n <= 102) || (65 <= n && n <= 70);
        if !hex {
            return false;
        }
        i = i + 1;
    }
    true
}

/// Compares two string slices by their character sequences.
pub fn str_eq(a: &str, b: &str) -> (r: bool)
    ensures
        r == (a@ == b@),
{
    let alen = a.unicode_len();
    let blen = b.unicode_len();
    if alen != blen {
        return false;
    }
    let mut i: usize = 0;
    while i < alen
        invariant
            0 <= i <= alen,
            alen == a@.len(),
            alen == b@.len(),
            forall|j: int| 0 <= j < i ==> a@[j] == b@[j],
        decreases alen - i,
    {
        if a.get_char(i) != b.get_char(i) {
            return false;
        }
        i = i + 1;
    }
    proof {
        assert(a@ =~= b@);
    }
    true
}

} // verus!
