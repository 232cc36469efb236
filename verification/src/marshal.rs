//! Marshalling of high-level values into the foreign representation.
//!
//! Text crosses the foreign boundary as a NUL-terminated byte string, so a
//! string is representable there exactly when its UTF-8 encoding contains no
//! NUL byte.  Booleans cross as the integers `0` and `1`.

use vstd::prelude::*;
use vstd::string::StringSliceAdditionalSpecFns;
use vstd::utf8::encode_utf8;

verus! {

/// A string can be handed to the foreign boundary exactly when its UTF-8
/// encoding contains no embedded NUL byte, since the foreign representation
/// is NUL-terminated and cannot encode one.
pub open spec fn c_string_ok(s: Seq<char>) -> bool {
    !encode_utf8(s).contains(0u8)
}

/// The foreign encoding of a boolean: `1` for true, `0` for false, and
/// never any other value.
pub open spec fn spec_c_bool(b: bool) -> u32 {
    if b {
        1
    } else {
        0
    }
}

/// Maps a boolean to the foreign `0`/`1` convention.
pub fn as_c_bool(b: bool) -> (r: u32)
    ensures
        r == spec_c_bool(b),
{
    if b {
        1
    } else {
        0
    }
}

/// Decides whether a string may cross the foreign boundary, that is,
/// whether its UTF-8 encoding is free of embedded NUL bytes.
pub fn check_c_string(s: &str) -> (ok: bool)
    ensures
        ok == c_string_ok(s@),
{
    let bytes = s.as_bytes();
    let n = bytes.len();
    let mut i: usize = 0;
    while i < n
        invariant
            bytes@ == s.spec_bytes(),
            n == bytes@.len(),
            0 <= i <= n,
            forall|j: int| 0 <= j < i ==> bytes@[j] != 0u8,
        decreases n - i,
    {
        if bytes[i] == 0u8 {
            assert(s.spec_bytes().contains(0u8)) by {
                assert(s.spec_bytes()[i as int] == 0u8);
            }
            return false;
        }
        i += 1;
    }
    assert(forall|j: int| 0 <= j < bytes@.len() ==> bytes@[j] != 0u8);
    assert(!s.spec_bytes().contains(0u8)) by {
        if s.spec_bytes().contains(0u8) {
            let j = choose|j: int| 0 <= j < s.spec_bytes().len() && s.spec_bytes()[j] == 0u8;
            assert(bytes@[j] == 0u8);
        }
    }
    true
}

} // verus!
