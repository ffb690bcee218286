//! UTF-8 validity of a response body.
//!
//! The report exchange accepts any response whose body decodes as UTF-8
//! text; a body that does not is a decode failure. The shortest-form UTF-8
//! encoding is spelled out here byte range by byte range — continuation
//! bytes `0x80..=0xBF`, the narrowed second-byte ranges after `0xE0`, `0xED`,
//! `0xF0` and `0xF4` that exclude overlong forms, surrogates and
//! out-of-range code points — and the checker is proved against it.

use vstd::prelude::*;

verus! {

/// A UTF-8 continuation byte: high bits `10`.
pub open spec fn is_cont_byte(b: u8) -> bool {
    0x80 <= b && b <= 0xBF
}

/// The byte sequence is well-formed UTF-8: a concatenation of shortest-form
/// encodings of code points outside the surrogate range.
pub open spec fn is_valid_utf8(s: Seq<u8>) -> bool
    decreases s.len(),
{
    if s.len() == 0 {
        true
    } else {
        let b0 = s[0];
        if b0 < 0x80 {
            is_valid_utf8(s.skip(1))
        } else if 0xC2 <= b0 && b0 <= 0xDF {
            s.len() >= 2 && is_cont_byte(s[1]) && is_valid_utf8(s.skip(2))
        } else if b0 == 0xE0 {
            s.len() >= 3 && 0xA0 <= s[1] && s[1] <= 0xBF && is_cont_byte(s[2]) && is_valid_utf8(
                s.skip(3))
        } else if b0 == 0xED {
            s.len() >= 3 && 0x80 <= s[1] && s[1] <= 0x9F && is_cont_byte(s[2]) && is_valid_utf8(
                s.skip(3))
        } else if 0xE1 <= b0 && b0 <= 0xEF {
            s.len() >= 3 && is_cont_byte(s[1]) && is_cont_byte(s[2]) && is_valid_utf8(s.skip(3))
        } else if b0 == 0xF0 {
            s.len() >= 4 && 0x90 <= s[1] && s[1] <= 0xBF && is_cont_byte(s[2]) && is_cont_byte(
                s[3]) && is_valid_utf8(s.skip(4))
        } else if 0xF1 <= b0 && b0 <= 0xF3 {
            s.len() >= 4 && is_cont_byte(s[1]) && is_cont_byte(s[2]) && is_cont_byte(s[3])
                && is_valid_utf8(s.skip(4))
        } else if b0 == 0xF4 {
            s.len() >= 4 && 0x80 <= s[1] && s[1] <= 0x8F && is_cont_byte(s[2]) && is_cont_byte(
                s[3]) && is_valid_utf8(s.skip(4))
        } else {
            false
        }
    }
}

fn is_cont(b: u8) -> (r: bool)
    ensures
        r == is_cont_byte(b),
{
    0x80 <= b && b <= 0xBF
}

/// Whether the whole body is well-formed UTF-8.
pub fn utf8_body_valid(body: &[u8]) -> (ok: bool)
    ensures
        ok == is_valid_utf8(body@),
{
    let n = body.len();
    let mut i: usize = 0;
    proof {
        assert(body@.skip(0) =~= body@);
    }
    while i < n
        invariant
            n == body@.len(),
            i <= n,
            is_valid_utf8(body@) == is_valid_utf8(body@.skip(i as int)),
        decreases n - i,
    {
        let ghost s = body@.skip(i as int);
        let b0 = body[i];
        assert(s[0] == b0);
        if b0 < 0x80 {
            proof {
                assert(s.skip(1) =~= body@.skip(i + 1));
            }
            i = i + 1;
        } else if 0xC2 <= b0 && b0 <= 0xDF {
            if n - i < 2 {
                return false;
            }
            let b1 = body[i + 1];
            assert(s[1] == b1);
            if !is_cont(b1) {
                return false;
            }
            proof {
                assert(s.skip(2) =~= body@.skip(i + 2));
            }
            i = i + 2;
        } else if b0 == 0xE0 {
            if n - i < 3 {
                return false;
            }
            let b1 = body[i + 1];
            let b2 = body[i + 2];
            assert(s[1] == b1 && s[2] == b2);
            if !(0xA0 <= b1 && b1 <= 0xBF) || !is_cont(b2) {
                return false;
            }
            proof {
                assert(s.skip(3) =~= body@.skip(i + 3));
            }
            i = i + 3;
        } else if b0 == 0xED {
            if n - i < 3 {
                return false;
            }
            let b1 = body[i + 1];
            let b2 = body[i + 2];
            assert(s[1] == b1 && s[2] == b2);
            if !(0x80 <= b1 && b1 <= 0x9F) || !is_cont(b2) {
                return false;
            }
            proof {
                assert(s.skip(3) =~= body@.skip(i + 3));
            }
            i = i + 3;
        } else if 0xE1 <= b0 && b0 <= 0xEF {
            if n - i < 3 {
                return false;
            }
            let b1 = body[i + 1];
            let b2 = body[i + 2];
            assert(s[1] == b1 && s[2] == b2);
            if !is_cont(b1) || !is_cont(b2) {
                return false;
            }
            proof {
                assert(s.skip(3) =~= body@.skip(i + 3));
            }
            i = i + 3;
        } else if b0 == 0xF0 {
            if n - i < 4 {
                return false;
            }
            let b1 = body[i + 1];
            let b2 = body[i + 2];
            let b3 = body[i + 3];
            assert(s[1] == b1 && s[2] == b2 && s[3] == b3);
            if !(0x90 <= b1 && b1 <= 0xBF) || !is_cont(b2) || !is_cont(b3) {
                return false;
            }
            proof {
                assert(s.skip(4) =~= body@.skip(i + 4));
            }
            i = i + 4;
        } else if 0xF1 <= b0 && b0 <= 0xF3 {
            if n - i < 4 {
                return false;
            }
            let b1 = body[i + 1];
            let b2 = body[i + 2];
            let b3 = body[i + 3];
            assert(s[1] == b1 && s[2] == b2 && s[3] == b3);
            if !is_cont(b1) || !is_cont(b2) || !is_cont(b3) {
                return false;
            }
            proof {
                assert(s.skip(4) =~= body@.skip(i + 4));
            }
            i = i + 4;
        } else if b0 == 0xF4 {
            if n - i < 4 {
                return false;
            }
            let b1 = body[i + 1];
            let b2 = body[i + 2];
            let b3 = body[i + 3];
            assert(s[1] == b1 && s[2] == b2 && s[3] == b3);
            if !(0x80 <= b1 && b1 <= 0x8F) || !is_cont(b2) || !is_cont(b3) {
                return false;
            }
            proof {
                assert(s.skip(4) =~= body@.skip(i + 4));
            }
            i = i + 4;
        } else {
            return false;
        }
    }
    proof {
        assert(body@.skip(n as int) =~= Seq::<u8>::empty());
    }
    true
}

} // verus!
