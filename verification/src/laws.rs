//! The guarantees of the wrapper's own logic, stated and proved once over
//! the spec-level model that every contract in this crate speaks through.

use vstd::prelude::*;
use vstd::utf8::{char_is_scalar, encode_scalar, encode_utf8, is_scalar};
use crate::marshal::{c_string_ok, spec_c_bool};
use crate::simconnect::{
    close_ok, close_rejected, handle_after_open, handle_is_open, open_ok, open_requests_call,
};

verus! {

/// Opening an already-open connection issues no vendor call and leaves the
/// handle untouched, so a second `open` without an intervening `close`
/// completes with success exactly like the first: opening is idempotent.
pub proof fn lemma_open_idempotent(h: u64)
    requires
        open_ok(h),
    ensures
        !open_requests_call(h),
        handle_after_open(h, None) == h,
        open_ok(handle_after_open(h, None)),
{
}

/// Closing a connection that is not open is rejected outright: the close
/// request is refused before any vendor call is built.
pub proof fn lemma_close_on_closed_rejected(h: u64)
    requires
        !handle_is_open(h),
    ensures
        close_rejected(h),
{
}

/// When the vendor call clears the handle, the close succeeds and the
/// connection is observed closed afterwards.
pub proof fn lemma_close_releases(observed_handle: u64)
    requires
        observed_handle == 0,
    ensures
        close_ok(observed_handle),
        !handle_is_open(observed_handle),
{
}

/// A boolean crosses the foreign boundary as exactly `0` or `1`, and as
/// `1` exactly when it is true — never any other integer value.
pub proof fn lemma_c_bool_binary(b: bool)
    ensures
        spec_c_bool(b) == 0 || spec_c_bool(b) == 1,
        (spec_c_bool(b) == 1) <==> b,
{
}

/// Concatenation holds a byte exactly when one of its parts does.
proof fn lemma_concat_contains(a: Seq<u8>, b: Seq<u8>, x: u8)
    ensures
        (a + b).contains(x) <==> a.contains(x) || b.contains(x),
{
    if a.contains(x) {
        let i = choose|i: int| 0 <= i < a.len() && a[i] == x;
        assert((a + b)[i] == x);
    }
    if b.contains(x) {
        let i = choose|i: int| 0 <= i < b.len() && b[i] == x;
        assert((a + b)[a.len() + i] == x);
    }
    if (a + b).contains(x) {
        let i = choose|i: int| 0 <= i < (a + b).len() && (a + b)[i] == x;
        if i < a.len() {
            assert(a[i] == x);
        } else {
            assert(b[i - a.len()] == x);
        }
    }
}

/// The UTF-8 encoding of a single scalar contains a NUL byte exactly when
/// the scalar is NUL itself: every byte of a multi-byte encoding has its
/// high bit set, and a one-byte encoding is the scalar value.
proof fn lemma_encode_scalar_nul(v: u32)
    requires
        is_scalar(v),
    ensures
        encode_scalar(v).contains(0u8) <==> v == 0,
{
    let e = encode_scalar(v);
    if vstd::utf8::has_width_1_encoding(v) {
        assert(e[0] == (v & 0x7F) as u8);
        assert(v <= 0x7F ==> (((v & 0x7F) as u8 == 0u8) <==> v == 0)) by (bit_vector);
        if v == 0 {
            assert(e.contains(0u8)) by {
                assert(e[0] == 0u8);
            }
        } else {
            assert forall|i: int| 0 <= i < e.len() implies e[i] != 0u8 by {
                assert(e[0] != 0u8);
            }
        }
    } else {
        assert(forall|y: u8| (0x80u8 | y) != 0u8) by (bit_vector);
        assert(forall|y: u8| (0xC0u8 | y) != 0u8) by (bit_vector);
        assert(forall|y: u8| (0xE0u8 | y) != 0u8) by (bit_vector);
        assert(forall|y: u8| (0xF0u8 | y) != 0u8) by (bit_vector);
        assert forall|i: int| 0 <= i < e.len() implies e[i] != 0u8 by {
        }
    }
}

/// A character sequence has a NUL-free UTF-8 encoding exactly when it has
/// no NUL character: the fail-fast check on text arguments rejects
/// precisely the strings with an embedded NUL.
pub proof fn lemma_c_string_ok_chars(s: Seq<char>)
    ensures
        c_string_ok(s) <==> (forall|i: int| 0 <= i < s.len() ==> s[i] != '\0'),
    decreases s.len(),
{
    if s.len() == 0 {
    } else {
        let c = s[0];
        let rest = s.drop_first();
        char_is_scalar(c);
        lemma_encode_scalar_nul(c as u32);
        lemma_c_string_ok_chars(rest);
        lemma_concat_contains(encode_scalar(c as u32), encode_utf8(rest), 0u8);
        assert('\0' as u32 == 0);
        if c as u32 == 0 {
            vstd::utf8::char_u32_cast(c, c as u32);
            vstd::utf8::char_u32_cast('\0', 0u32);
        }
        assert(c as u32 == 0 <==> c == '\0');
        assert forall|i: int| 0 < i < s.len() implies s[i] == rest[i - 1] by {
        }
        if forall|i: int| 0 <= i < s.len() ==> s[i] != '\0' {
            // A NUL-free sequence has a NUL-free tail, and its head scalar
            // is not NUL, so neither part of the encoding holds a NUL byte.
            assert(forall|i: int| 0 <= i < rest.len() ==> rest[i] != '\0');
        }
        if !c_string_ok(s) && c != '\0' {
            // The NUL byte comes from the tail: name the NUL character there.
            assert(!c_string_ok(rest));
            let i = choose|i: int| 0 <= i < rest.len() && rest[i] == '\0';
            assert(s[i + 1] == '\0');
        }
    }
}

/// A string with an embedded NUL character cannot cross the foreign
/// boundary: no forwarding call is ever built from it.
pub proof fn lemma_embedded_nul_rejected(s: Seq<char>, i: int)
    requires
        0 <= i < s.len(),
        s[i] == '\0',
    ensures
        !c_string_ok(s),
{
    lemma_c_string_ok_chars(s);
}

} // verus!
