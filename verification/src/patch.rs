//! Word-level breakpoint patching.
//!
//! A software breakpoint is installed by rewriting the 8-byte machine word
//! at the chosen address: the lowest byte becomes the trap opcode, the seven
//! higher bytes keep their original values bit for bit.  The masking logic is
//! a pure function on words, independent of the process I/O that reads and
//! writes target memory.

use vstd::prelude::*;

verus! {

/// The single-byte software-breakpoint instruction of the host
/// instruction-set architecture (x86 `INT3`).
pub const TRAP_OPCODE: u8 = 0xCC;

/// Byte `k` of a word, counting from the least significant byte.
pub open spec fn word_byte(w: u64, k: int) -> u8 {
    if k == 0 {
        (w & 0xff) as u8
    } else if k == 1 {
        ((w >> 8) & 0xff) as u8
    } else if k == 2 {
        ((w >> 16) & 0xff) as u8
    } else if k == 3 {
        ((w >> 24) & 0xff) as u8
    } else if k == 4 {
        ((w >> 32) & 0xff) as u8
    } else if k == 5 {
        ((w >> 40) & 0xff) as u8
    } else if k == 6 {
        ((w >> 48) & 0xff) as u8
    } else {
        ((w >> 56) & 0xff) as u8
    }
}

/// What patching does to a word: the low byte is forced to the trap opcode,
/// bits 8..64 are untouched.
pub open spec fn spec_patched_word(w: u64) -> u64 {
    (w & 0xffff_ffff_ffff_ff00) | (TRAP_OPCODE as u64)
}

/// Patching rewrites exactly one byte: afterwards, byte 0 of the word is
/// the trap opcode and bytes 1 through 7 keep their pre-patch values.
pub proof fn lemma_patched_word_bytes(w: u64)
    ensures
        word_byte(spec_patched_word(w), 0) == TRAP_OPCODE,
        forall|k: int| 1 <= k < 8 ==> word_byte(spec_patched_word(w), k) == word_byte(w, k),
{
    let p = spec_patched_word(w);
    assert(((w & 0xffff_ffff_ffff_ff00u64) | 0xccu64) & 0xff == 0xcc) by (bit_vector);
    assert((((w & 0xffff_ffff_ffff_ff00u64) | 0xccu64) >> 8) & 0xff == (w >> 8) & 0xff)
        by (bit_vector);
    assert((((w & 0xffff_ffff_ffff_ff00u64) | 0xccu64) >> 16) & 0xff == (w >> 16) & 0xff)
        by (bit_vector);
    assert((((w & 0xffff_ffff_ffff_ff00u64) | 0xccu64) >> 24) & 0xff == (w >> 24) & 0xff)
        by (bit_vector);
    assert((((w & 0xffff_ffff_ffff_ff00u64) | 0xccu64) >> 32) & 0xff == (w >> 32) & 0xff)
        by (bit_vector);
    assert((((w & 0xffff_ffff_ffff_ff00u64) | 0xccu64) >> 40) & 0xff == (w >> 40) & 0xff)
        by (bit_vector);
    assert((((w & 0xffff_ffff_ffff_ff00u64) | 0xccu64) >> 48) & 0xff == (w >> 48) & 0xff)
        by (bit_vector);
    assert((((w & 0xffff_ffff_ffff_ff00u64) | 0xccu64) >> 56) & 0xff == (w >> 56) & 0xff)
        by (bit_vector);
}

/// Compute the word that installs a breakpoint over `w`: low byte replaced
/// by the trap opcode, the other seven bytes preserved.
pub fn patched_word(w: u64) -> (r: u64)
    ensures
        r == spec_patched_word(w),
        word_byte(r, 0) == TRAP_OPCODE,
        forall|k: int| 1 <= k < 8 ==> word_byte(r, k) == word_byte(w, k),
{
    proof {
        lemma_patched_word_bytes(w);
    }
    (w & 0xffff_ffff_ffff_ff00) | (TRAP_OPCODE as u64)
}

} // verus!
