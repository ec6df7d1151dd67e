//! Boundary text.
//!
//! Text crosses the boundary in two directions: the host hands in raw
//! C-string bytes that must be validated as UTF-8 before any use, and the
//! library hands back descriptions that must be representable as
//! NUL-terminated allocations. Both conditions are decided here.

use vstd::prelude::*;
use vstd::utf8::*;

verus! {

/// Free of the NUL terminator, so the text is representable as a
/// NUL-terminated host allocation without truncation.
pub open spec fn nul_free(s: Seq<char>) -> bool {
    forall|i: int| 0 <= i < s.len() ==> s[i] != '\0'
}

/// Text fit to cross the boundary outward as a recorded failure or an
/// identity: non-empty and NUL-free, so the host can hold it as a
/// NUL-terminated allocation and a recorded failure is distinguishable from
/// "nothing recorded".
pub open spec fn boundary_text_ok(s: Seq<char>) -> bool {
    &&& s.len() > 0
    &&& nul_free(s)
}

/// Law: every text the library releases across the boundary is NUL-free, so
/// the host-side allocation it becomes can be handed back for release intact
/// and exactly once.
pub proof fn lemma_boundary_text_round_trips(s: Seq<char>)
    requires
        boundary_text_ok(s),
    ensures
        nul_free(s),
{
}

/// Decide `boundary_text_ok` for a string.
pub fn check_boundary_text(s: &str) -> (r: bool)
    ensures
        r == boundary_text_ok(s@),
{
    let n = s.unicode_len();
    if n == 0 {
        return false;
    }
    let mut i: usize = 0;
    while i < n
        invariant
            n == s@.len(),
            0 < n,
            0 <= i <= n,
            forall|j: int| 0 <= j < i ==> s@[j] != '\0',
        decreases n - i,
    {
        if s.get_char(i) == '\0' {
            return false;
        }
        i = i + 1;
    }
    true
}

/// The description used where no better text can cross the boundary.
pub proof fn lemma_fallback_text_ok()
    ensures
        boundary_text_ok("boundary failure"@),
{
    reveal_strlit("boundary failure");
}

/// Classify the scalar encoding that begins at position `i` of `bytes`:
/// its width in bytes when it is a well-formed UTF-8 scalar encoding, or
/// zero when it is not.
fn first_scalar_width(bytes: &Vec<u8>, i: usize) -> (w: usize)
    requires
        i < bytes@.len(),
    ensures
        ({
            let suf = bytes@.subrange(i as int, bytes@.len() as int);
            &&& (w == 0 ==> !valid_first_scalar(suf))
            &&& (w != 0 ==> valid_first_scalar(suf) && w == length_of_first_scalar(suf)
                && i + w <= bytes@.len())
        }),
{
    let n = bytes.len();
    let ghost suf = bytes@.subrange(i as int, bytes@.len() as int);
    proof {
        assert(forall|k: int| 0 <= k < suf.len() ==> suf[k] == bytes@[i + k]);
    }
    let b0 = bytes[i];
    proof {
        assert(suf[0] == b0);
    }
    if b0 <= 0x7f {
        proof {
            assert(b0 & 0x7f <= 0x7f) by (bit_vector);
        }
        1
    } else if b0 <= 0xbf {
        // a continuation byte cannot lead a scalar
        0
    } else if b0 <= 0xdf {
        if n - i < 2 {
            return 0;
        }
        let b1 = bytes[i + 1];
        proof {
            assert(suf[1] == b1);
        }
        if !(0x80 <= b1 && b1 <= 0xbf) {
            return 0;
        }
        let cp: u32 = (((b0 & 0x1f) as u32) << 6u32) | ((b1 & 0x3f) as u32);
        proof {
            assert(cp == codepoint_width_2(b0, b1));
            assert((((b0 & 0x1f) as u32) << 6u32) | ((b1 & 0x3f) as u32) <= 0x7ff)
                by (bit_vector);
        }
        if cp < 0x80 {
            // overlong encoding
            return 0;
        }
        2
    } else if b0 <= 0xef {
        if n - i < 3 {
            return 0;
        }
        let b1 = bytes[i + 1];
        let b2 = bytes[i + 2];
        proof {
            assert(suf[1] == b1);
            assert(suf[2] == b2);
        }
        if !(0x80 <= b1 && b1 <= 0xbf) {
            return 0;
        }
        if !(0x80 <= b2 && b2 <= 0xbf) {
            return 0;
        }
        let cp: u32 = (((b0 & 0x0f) as u32) << 12u32) | (((b1 & 0x3f) as u32) << 6u32) | ((b2
            & 0x3f) as u32);
        proof {
            assert(cp == codepoint_width_3(b0, b1, b2));
        }
        if cp < 0x800 {
            // overlong encoding
            return 0;
        }
        if 0xd800 <= cp && cp <= 0xdfff {
            // surrogate range
            return 0;
        }
        3
    } else if b0 <= 0xf7 {
        if n - i < 4 {
            return 0;
        }
        let b1 = bytes[i + 1];
        let b2 = bytes[i + 2];
        let b3 = bytes[i + 3];
        proof {
            assert(suf[1] == b1);
            assert(suf[2] == b2);
            assert(suf[3] == b3);
        }
        if !(0x80 <= b1 && b1 <= 0xbf) {
            return 0;
        }
        if !(0x80 <= b2 && b2 <= 0xbf) {
            return 0;
        }
        if !(0x80 <= b3 && b3 <= 0xbf) {
            return 0;
        }
        let cp: u32 = (((b0 & 0x07) as u32) << 18u32) | (((b1 & 0x3f) as u32) << 12u32) | (((b2
            & 0x3f) as u32) << 6u32) | ((b3 & 0x3f) as u32);
        proof {
            assert(cp == codepoint_width_4(b0, b1, b2, b3));
        }
        if cp < 0x10000 || 0x10ffff < cp {
            // overlong encoding or beyond the last scalar
            return 0;
        }
        4
    } else {
        // 0xf8..=0xff never appears in UTF-8
        0
    }
}

/// Decide whether `bytes` are a well-formed UTF-8 encoding, in the sense of
/// `vstd::utf8::valid_utf8`. This is the validation applied to every
/// C-string path the host hands across the boundary.
pub fn is_valid_utf8(bytes: &Vec<u8>) -> (r: bool)
    ensures
        r == valid_utf8(bytes@),
{
    let n = bytes.len();
    let mut i: usize = 0;
    proof {
        assert(bytes@.subrange(0, n as int) =~= bytes@);
    }
    while i < n
        invariant
            n == bytes@.len(),
            0 <= i <= n,
            valid_utf8(bytes@) == valid_utf8(bytes@.subrange(i as int, n as int)),
        decreases n - i,
    {
        let w = first_scalar_width(bytes, i);
        let ghost suf = bytes@.subrange(i as int, n as int);
        if w == 0 {
            proof {
                assert(suf.len() > 0);
                assert(!valid_utf8(suf));
            }
            return false;
        }
        proof {
            let rest = bytes@.subrange(i + w, n as int);
            assert(pop_first_scalar(suf) =~= rest);
            assert(valid_utf8(suf) == (valid_first_scalar(suf) && valid_utf8(
                pop_first_scalar(suf),
            )));
        }
        i = i + w;
    }
    proof {
        assert(bytes@.subrange(i as int, n as int).len() == 0);
        assert(valid_utf8(bytes@.subrange(i as int, n as int)));
    }
    true
}

} // verus!
