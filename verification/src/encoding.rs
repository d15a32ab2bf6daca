//! UTF-8 validation of path bytes.
//!
//! Cargo requires every path named in a directive to be valid UTF-8 text, so
//! a path arrives here as raw bytes and is checked against vstd's model of
//! UTF-8 before it is treated as text.

use vstd::prelude::*;
use vstd::utf8::decode_utf8;
use vstd::utf8::decode_first_scalar;
use vstd::utf8::is_continuation_byte;
use vstd::utf8::length_of_first_scalar;
use vstd::utf8::pop_first_scalar;
use vstd::utf8::partial_valid_partial_invalid_utf8;
use vstd::utf8::partial_valid_utf8;
use vstd::utf8::partial_valid_utf8_extend;
use vstd::utf8::valid_first_scalar;
use vstd::utf8::valid_utf8;

use crate::errors::BuildError;

verus! {

/// Width in bytes of the well-formed UTF-8 encoding of a single Unicode
/// scalar at the start of `t`, or 0 when `t` does not begin with one.
pub open spec fn first_scalar_width(t: Seq<u8>) -> int {
    if t.len() >= 1 && t[0] < 0x80 {
        1
    } else if t.len() >= 2 && 0xc2 <= t[0] <= 0xdf && is_continuation_byte(t[1]) {
        2
    } else if t.len() >= 3 && 0xe0 <= t[0] <= 0xef && is_continuation_byte(t[1])
        && is_continuation_byte(t[2]) && (t[0] == 0xe0 ==> t[1] >= 0xa0) && (t[0] == 0xed ==> t[1]
        <= 0x9f) {
        3
    } else if t.len() >= 4 && 0xf0 <= t[0] <= 0xf4 && is_continuation_byte(t[1])
        && is_continuation_byte(t[2]) && is_continuation_byte(t[3]) && (t[0] == 0xf0 ==> t[1]
        >= 0x90) && (t[0] == 0xf4 ==> t[1] <= 0x8f) {
        4
    } else {
        0
    }
}

/// The width test of `first_scalar_width` accepts exactly the prefixes that
/// vstd's UTF-8 model counts as a well-formed scalar encoding, and where it
/// accepts, the two agree on the width.
pub proof fn lemma_first_scalar_width(t: Seq<u8>)
    requires
        t.len() >= 1,
    ensures
        first_scalar_width(t) != 0 <==> valid_first_scalar(t),
        first_scalar_width(t) != 0 ==> length_of_first_scalar(t) == first_scalar_width(t)
            && first_scalar_width(t) <= t.len(),
{
    let b0 = t[0];
    if b0 < 0x80 {
        assert((b0 & 0x7f) < 0x80) by (bit_vector);
    } else if b0 <= 0xbf {
        // a continuation byte in leading position matches no leading pattern
    } else if b0 <= 0xc1 {
        if t.len() >= 2 && is_continuation_byte(t[1]) {
            let b1 = t[1];
            // the two-byte encodings that start with 0xc0 or 0xc1 are overlong
            assert(((((b0 & 0x1f) as u32) << 6) | ((b1 & 0x3f) as u32)) < 0x80) by (bit_vector)
                requires
                    0xc0 <= b0 <= 0xc1,
            ;
        }
    } else if b0 <= 0xdf {
        if t.len() >= 2 && is_continuation_byte(t[1]) {
            let b1 = t[1];
            assert(0x80 <= ((((b0 & 0x1f) as u32) << 6) | ((b1 & 0x3f) as u32)) < 0xd800)
                by (bit_vector)
                requires
                    0xc2 <= b0 <= 0xdf && 0x80 <= b1 <= 0xbf,
            ;
        }
    } else if b0 <= 0xef {
        if t.len() >= 3 && is_continuation_byte(t[1]) && is_continuation_byte(t[2]) {
            let b1 = t[1];
            let b2 = t[2];
            if b0 == 0xe0 && b1 < 0xa0 {
                // overlong: the scalar would fit in two bytes
                assert(((((b0 & 0x0f) as u32) << 12) | (((b1 & 0x3f) as u32) << 6) | ((b2
                    & 0x3f) as u32)) < 0x800) by (bit_vector)
                    requires
                        b0 == 0xe0 && 0x80 <= b1 < 0xa0 && 0x80 <= b2 <= 0xbf,
                ;
            } else if b0 == 0xed && b1 > 0x9f {
                // the surrogate range 0xd800..=0xdfff
                assert(0xd800 <= ((((b0 & 0x0f) as u32) << 12) | (((b1 & 0x3f) as u32) << 6) | ((b2
                    & 0x3f) as u32)) <= 0xdfff) by (bit_vector)
                    requires
                        b0 == 0xed && 0x9f < b1 <= 0xbf && 0x80 <= b2 <= 0xbf,
                ;
            } else {
                assert(0x800 <= ((((b0 & 0x0f) as u32) << 12) | (((b1 & 0x3f) as u32) << 6) | ((b2
                    & 0x3f) as u32)) && !(0xd800 <= ((((b0 & 0x0f) as u32) << 12) | (((b1
                    & 0x3f) as u32) << 6) | ((b2 & 0x3f) as u32)) <= 0xdfff)) by (bit_vector)
                    requires
                        0xe0 <= b0 <= 0xef && 0x80 <= b1 <= 0xbf && 0x80 <= b2 <= 0xbf && (b0
                            == 0xe0 ==> b1 >= 0xa0) && (b0 == 0xed ==> b1 <= 0x9f),
                ;
            }
        }
    } else if b0 <= 0xf4 {
        if t.len() >= 4 && is_continuation_byte(t[1]) && is_continuation_byte(t[2])
            && is_continuation_byte(t[3]) {
            let b1 = t[1];
            let b2 = t[2];
            let b3 = t[3];
            if b0 == 0xf0 && b1 < 0x90 {
                // overlong: the scalar would fit in three bytes
                assert(((((b0 & 0x07) as u32) << 18) | (((b1 & 0x3f) as u32) << 12) | (((b2
                    & 0x3f) as u32) << 6) | ((b3 & 0x3f) as u32)) < 0x10000) by (bit_vector)
                    requires
                        b0 == 0xf0 && 0x80 <= b1 < 0x90 && 0x80 <= b2 <= 0xbf && 0x80 <= b3 <= 0xbf,
                ;
            } else if b0 == 0xf4 && b1 > 0x8f {
                // past the last scalar 0x10ffff
                assert(((((b0 & 0x07) as u32) << 18) | (((b1 & 0x3f) as u32) << 12) | (((b2
                    & 0x3f) as u32) << 6) | ((b3 & 0x3f) as u32)) > 0x10ffff) by (bit_vector)
                    requires
                        b0 == 0xf4 && 0x8f < b1 <= 0xbf && 0x80 <= b2 <= 0xbf && 0x80 <= b3 <= 0xbf,
                ;
            } else {
                assert(0x10000 <= ((((b0 & 0x07) as u32) << 18) | (((b1 & 0x3f) as u32) << 12) | (((
                b2 & 0x3f) as u32) << 6) | ((b3 & 0x3f) as u32)) <= 0x10ffff) by (bit_vector)
                    requires
                        0xf0 <= b0 <= 0xf4 && 0x80 <= b1 <= 0xbf && 0x80 <= b2 <= 0xbf && 0x80 <= b3
                            <= 0xbf && (b0 == 0xf0 ==> b1 >= 0x90) && (b0 == 0xf4 ==> b1 <= 0x8f),
                ;
            }
        }
    } else if b0 <= 0xf7 {
        if t.len() >= 4 && is_continuation_byte(t[1]) && is_continuation_byte(t[2])
            && is_continuation_byte(t[3]) {
            let b1 = t[1];
            let b2 = t[2];
            let b3 = t[3];
            // every scalar starting 0xf5..=0xf7 lies past 0x10ffff
            assert(((((b0 & 0x07) as u32) << 18) | (((b1 & 0x3f) as u32) << 12) | (((b2
                & 0x3f) as u32) << 6) | ((b3 & 0x3f) as u32)) > 0x10ffff) by (bit_vector)
                requires
                    0xf5 <= b0 <= 0xf7 && 0x80 <= b1 <= 0xbf && 0x80 <= b2 <= 0xbf && 0x80 <= b3
                        <= 0xbf,
            ;
        }
    } else {
        // b0 >= 0xf8 matches no leading pattern
    }
}

/// Bytes that are all ASCII form valid text and decode to one character per
/// byte with the same value, so a directive shows an ASCII path
/// byte-for-byte.
pub proof fn lemma_ascii_decodes_identically(bytes: Seq<u8>)
    requires
        forall|k: int| 0 <= k < bytes.len() ==> bytes[k] < 0x80,
    ensures
        valid_utf8(bytes),
        decode_utf8(bytes) == bytes.map_values(|b: u8| b as char),
    decreases bytes.len(),
{
    if bytes.len() == 0 {
        assert(decode_utf8(bytes) =~= bytes.map_values(|b: u8| b as char));
    } else {
        let b0 = bytes[0];
        lemma_first_scalar_width(bytes);
        let rest = pop_first_scalar(bytes);
        assert(rest =~= bytes.subrange(1, bytes.len() as int));
        assert(forall|k: int| 0 <= k < rest.len() ==> rest[k] < 0x80);
        lemma_ascii_decodes_identically(rest);
        assert((b0 & 0x7f) == b0) by (bit_vector)
            requires
                b0 < 0x80,
        ;
        assert(decode_first_scalar(bytes) == b0 as u32);
        assert(decode_utf8(bytes) =~= bytes.map_values(|b: u8| b as char));
    }
}

/// True exactly when `b` has the form of a UTF-8 continuation byte.
fn is_continuation(b: u8) -> (r: bool)
    ensures
        r == is_continuation_byte(b),
{
    0x80 <= b && b <= 0xbf
}

/// Decides whether the given bytes are a valid UTF-8 encoding.
pub fn is_valid_utf8(s: &[u8]) -> (r: bool)
    ensures
        r == valid_utf8(s@),
{
    let n: usize = s.len();
    let mut i: usize = 0;
    proof {
        assert(s@.subrange(0, 0) =~= Seq::<u8>::empty());
    }
    while i < n
        invariant
            i <= n,
            n == s@.len(),
            partial_valid_utf8(s@, i as int),
        decreases n - i,
    {
        let ghost tail = s@.subrange(i as int, n as int);
        let b0 = s[i];
        let rem: usize = n - i;
        let w: usize = if b0 < 0x80 {
            1
        } else if 0xc2 <= b0 && b0 <= 0xdf {
            if rem >= 2 && is_continuation(s[i + 1]) {
                2
            } else {
                0
            }
        } else if 0xe0 <= b0 && b0 <= 0xef {
            if rem >= 3 && is_continuation(s[i + 1]) && is_continuation(s[i + 2]) && (b0 != 0xe0
                || s[i + 1] >= 0xa0) && (b0 != 0xed || s[i + 1] <= 0x9f) {
                3
            } else {
                0
            }
        } else if 0xf0 <= b0 && b0 <= 0xf4 {
            if rem >= 4 && is_continuation(s[i + 1]) && is_continuation(s[i + 2])
                && is_continuation(s[i + 3]) && (b0 != 0xf0 || s[i + 1] >= 0x90) && (b0 != 0xf4
                || s[i + 1] <= 0x8f) {
                4
            } else {
                0
            }
        } else {
            0
        };
        proof {
            assert(tail.len() == n - i);
            assert(w as int == first_scalar_width(tail));
            lemma_first_scalar_width(tail);
        }
        if w == 0 {
            proof {
                assert(!valid_utf8(tail));
                partial_valid_partial_invalid_utf8(s@, i as int);
            }
            return false;
        }
        proof {
            partial_valid_utf8_extend(s@, i as int);
        }
        i = i + w;
    }
    proof {
        assert(s@.subrange(0, n as int) =~= s@);
    }
    true
}

/// Relies on core::str::from_utf8: a slice of bytes that is a valid UTF-8
/// encoding converts to the text those bytes encode.
#[verifier::external_body]
fn utf8_str(v: &[u8]) -> (r: &str)
    requires
        valid_utf8(v@),
    ensures
        r@ == decode_utf8(v@),
{
    match core::str::from_utf8(v) {
        Ok(s) => s,
        Err(_) => "",
    }
}

/// Checks that a path's bytes are valid UTF-8 — which cargo requires of every
/// path named in a directive — and hands the path back as text; bytes that
/// are not valid text are reported as an encoding error carrying them.
pub fn utf8_cargo_path(path: &[u8]) -> (r: Result<&str, BuildError>)
    ensures
        r is Ok <==> valid_utf8(path@),
        r matches Ok(s) ==> s@ == decode_utf8(path@),
        r matches Err(e) ==> e matches BuildError::EncodingError { path: p } && p@ == path@,
{
    if is_valid_utf8(path) {
        Ok(utf8_str(path))
    } else {
        Err(BuildError::EncodingError { path: vstd::slice::slice_to_vec(path) })
    }
}

} // verus!
