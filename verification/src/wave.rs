//! A deterministic test signal: one period of a triangle ("sawtooth") sweep
//! across a 220-slot buffer, rising from -0.25 of the 16-bit range to +0.25
//! over the first half and falling back over the second, packed as mono
//! protocol words.

use vstd::prelude::*;
use vstd::arithmetic::div_mod::{lemma_mod_multiples_vanish, lemma_small_mod};
use crate::scheduler::TABLE_SIZE;

verus! {

/// The signed 16-bit level of slot `i`: the line from -16384 at slot 0 up
/// to 16384 at slot 110 and back down, with the fractional part truncated
/// toward zero.
pub open spec fn sawtooth_level(i: int) -> int {
    if i < 55 {
        -((16384 * (55 - i)) / 55)
    } else if i < 110 {
        (16384 * (i - 55)) / 55
    } else if i <= 165 {
        (16384 * (165 - i)) / 55
    } else {
        -((16384 * (i - 165)) / 55)
    }
}

/// The mono protocol word of slot `i`: the level's low 16 bits in two's
/// complement.
pub open spec fn sawtooth_word(i: int) -> int {
    sawtooth_level(i) % 65536
}

/// Fill the first `TABLE_SIZE` slots of `samples` with one period of the
/// test sweep; slots beyond that are left as they are.
pub fn generate_sawtooth_wave(samples: &mut Vec<u32>)
    requires
        old(samples)@.len() >= TABLE_SIZE,
    ensures
        final(samples)@.len() == old(samples)@.len(),
        forall|i: int|
            0 <= i < TABLE_SIZE ==> (#[trigger] final(samples)@[i]) as int == sawtooth_word(i),
        forall|i: int|
            TABLE_SIZE <= i < final(samples)@.len() ==> final(samples)@[i] == old(samples)@[i],
{
    for i in 0..TABLE_SIZE
        invariant
            samples@.len() == old(samples)@.len(),
            samples@.len() >= TABLE_SIZE,
            forall|j: int| 0 <= j < i ==> (#[trigger] samples@[j]) as int == sawtooth_word(j),
            forall|j: int| i <= j < samples@.len() ==> samples@[j] == old(samples)@[j],
    {
        let v: i32 = if i < 55 {
            let m: u32 = (((55 - i) as u32) * 16384) / 55;
            -(m as i32)
        } else if i < 110 {
            let m: u32 = (((i - 55) as u32) * 16384) / 55;
            m as i32
        } else if i <= 165 {
            let m: u32 = (((165 - i) as u32) * 16384) / 55;
            m as i32
        } else {
            let m: u32 = (((i - 165) as u32) * 16384) / 55;
            -(m as i32)
        };
        let w: u32 = if v >= 0 {
            v as u32
        } else {
            (v + 65536) as u32
        };
        proof {
            if v >= 0 {
                lemma_small_mod(v as nat, 65536);
            } else {
                lemma_mod_multiples_vanish(1, v as int, 65536);
                lemma_small_mod((v + 65536) as nat, 65536);
            }
        }
        samples[i] = w;
    }
}

} // verus!
