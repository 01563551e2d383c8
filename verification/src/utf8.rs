//! UTF-8 validity of byte strings: a specification of well-formed UTF-8 and
//! a verified validator. Environment entries handed to a child process must
//! decode as text; this module decides that.

use vstd::prelude::*;

verus! {

/// Whether `b` is a UTF-8 continuation byte.
pub open spec fn is_continuation_byte(b: u8) -> bool {
    0x80 <= b && b <= 0xBF
}

/// The length of the well-formed UTF-8 encoded character that starts at
/// position `i` of `s`, or 0 if no well-formed character starts there.
/// The shortest-form rule is enforced: overlong encodings, surrogate code
/// points and code points beyond U+10FFFF are not well-formed.
pub open spec fn encoded_char_len(s: Seq<u8>, i: int) -> int
    recommends
        0 <= i < s.len(),
{
    let b0 = s[i];
    if b0 <= 0x7F {
        1
    } else if 0xC2 <= b0 && b0 <= 0xDF {
        if i + 1 < s.len() && is_continuation_byte(s[i + 1]) {
            2
        } else {
            0
        }
    } else if b0 == 0xE0 {
        if i + 2 < s.len() && 0xA0 <= s[i + 1] && s[i + 1] <= 0xBF && is_continuation_byte(
            s[i + 2],
        ) {
            3
        } else {
            0
        }
    } else if 0xE1 <= b0 && b0 <= 0xEC {
        if i + 2 < s.len() && is_continuation_byte(s[i + 1]) && is_continuation_byte(s[i + 2]) {
            3
        } else {
            0
        }
    } else if b0 == 0xED {
        if i + 2 < s.len() && 0x80 <= s[i + 1] && s[i + 1] <= 0x9F && is_continuation_byte(
            s[i + 2],
        ) {
            3
        } else {
            0
        }
    } else if 0xEE <= b0 && b0 <= 0xEF {
        if i + 2 < s.len() && is_continuation_byte(s[i + 1]) && is_continuation_byte(s[i + 2]) {
            3
        } else {
            0
        }
    } else if b0 == 0xF0 {
        if i + 3 < s.len() && 0x90 <= s[i + 1] && s[i + 1] <= 0xBF && is_continuation_byte(
            s[i + 2],
        ) && is_continuation_byte(s[i + 3]) {
            4
        } else {
            0
        }
    } else if 0xF1 <= b0 && b0 <= 0xF3 {
        if i + 3 < s.len() && is_continuation_byte(s[i + 1]) && is_continuation_byte(s[i + 2])
            && is_continuation_byte(s[i + 3]) {
            4
        } else {
            0
        }
    } else if b0 == 0xF4 {
        if i + 3 < s.len() && 0x80 <= s[i + 1] && s[i + 1] <= 0x8F && is_continuation_byte(
            s[i + 2],
        ) && is_continuation_byte(s[i + 3]) {
            4
        } else {
            0
        }
    } else {
        0
    }
}

/// Whether the suffix of `s` that starts at position `i` is a well-formed
/// sequence of UTF-8 encoded characters.
pub open spec fn is_utf8_from(s: Seq<u8>, i: int) -> bool
    recommends
        0 <= i <= s.len(),
    decreases s.len() - i,
{
    if i < 0 || i >= s.len() {
        true
    } else {
        let l = encoded_char_len(s, i);
        l > 0 && is_utf8_from(s, i + l)
    }
}

/// Whether the whole byte string is well-formed UTF-8.
pub open spec fn is_utf8(s: Seq<u8>) -> bool {
    is_utf8_from(s, 0)
}

/// Returns whether `b` is a UTF-8 continuation byte.
fn continuation(b: u8) -> (r: bool)
    ensures
        r == is_continuation_byte(b),
{
    0x80 <= b && b <= 0xBF
}

/// Returns the length of the well-formed UTF-8 encoded character starting at
/// position `i`, or 0 if no well-formed character starts there.
fn char_len_at(bytes: &Vec<u8>, i: usize) -> (l: usize)
    requires
        i < bytes@.len(),
    ensures
        l as int == encoded_char_len(bytes@, i as int),
{
    let n = bytes.len();
    let b0 = bytes[i];
    if b0 <= 0x7F {
        1
    } else if 0xC2 <= b0 && b0 <= 0xDF {
        if n - i > 1 && continuation(bytes[i + 1]) {
            2
        } else {
            0
        }
    } else if b0 == 0xE0 {
        if n - i > 2 && 0xA0 <= bytes[i + 1] && bytes[i + 1] <= 0xBF && continuation(
            bytes[i + 2],
        ) {
            3
        } else {
            0
        }
    } else if 0xE1 <= b0 && b0 <= 0xEC {
        if n - i > 2 && continuation(bytes[i + 1]) && continuation(bytes[i + 2]) {
            3
        } else {
            0
        }
    } else if b0 == 0xED {
        if n - i > 2 && 0x80 <= bytes[i + 1] && bytes[i + 1] <= 0x9F && continuation(
            bytes[i + 2],
        ) {
            3
        } else {
            0
        }
    } else if 0xEE <= b0 && b0 <= 0xEF {
        if n - i > 2 && continuation(bytes[i + 1]) && continuation(bytes[i + 2]) {
            3
        } else {
            0
        }
    } else if b0 == 0xF0 {
        if n - i > 3 && 0x90 <= bytes[i + 1] && bytes[i + 1] <= 0xBF && continuation(bytes[i + 2])
            && continuation(bytes[i + 3]) {
            4
        } else {
            0
        }
    } else if 0xF1 <= b0 && b0 <= 0xF3 {
        if n - i > 3 && continuation(bytes[i + 1]) && continuation(bytes[i + 2]) && continuation(
            bytes[i + 3],
        ) {
            4
        } else {
            0
        }
    } else if b0 == 0xF4 {
        if n - i > 3 && 0x80 <= bytes[i + 1] && bytes[i + 1] <= 0x8F && continuation(bytes[i + 2])
            && continuation(bytes[i + 3]) {
            4
        } else {
            0
        }
    } else {
        0
    }
}

/// Returns whether the byte string is well-formed UTF-8, that is, whether it
/// can be decoded as text.
pub fn is_valid_utf8(bytes: &Vec<u8>) -> (valid: bool)
    ensures
        valid == is_utf8(bytes@),
{
    let n = bytes.len();
    let mut i: usize = 0;
    while i < n
        invariant
            i <= n,
            n == bytes@.len(),
            is_utf8(bytes@) == is_utf8_from(bytes@, i as int),
        decreases n - i,
    {
        let l = char_len_at(bytes, i);
        if l == 0 {
            proof {
                assert(!is_utf8_from(bytes@, i as int));
            }
            return false;
        }
        proof {
            assert(i + l <= n);
            assert(is_utf8_from(bytes@, i as int) == is_utf8_from(bytes@, i as int + l as int));
        }
        i = i + l;
    }
    true
}

} // verus!
