//! Noise synthesis over the 16.16 fixed-point domain.
//!
//! White noise maps one 32-bit random word to a sample: the low 16 bits are
//! the magnitude's fractional part and bit 31 selects the sign. Brown noise
//! integrates white noise as a leaky random walk whose pre-volume state is
//! kept inside the open interval (-0.25, 0.25) by a reflecting boundary: a
//! step that would cross the boundary is inverted, never clamped.

use vstd::prelude::*;
use vstd::arithmetic::div_mod::lemma_div_is_ordered;
use crate::fx::{fx_add, fx_mul, fx_sub, lemma_wrap32_id, Fix};
use crate::protocol::{sample_to_mono_word, sample_word};
use crate::rng::rng_next_u32;

verus! {

/// Random-walk leakage factor in 16.16 bits (~0.997).
pub const LEAKAGE_BITS: i32 = 65339;

/// Random-walk step scale in 16.16 bits (~0.01).
pub const SCALING_BITS: i32 = 655;

/// Output volume factor in 16.16 bits (0.25).
pub const VOLUME_BITS: i32 = 16384;

/// Reflecting boundary of the pre-volume walk state, 0.25 in 16.16 bits.
pub const WALK_LIMIT_BITS: i32 = 16384;

/// Bit value of the white-noise sample made from one random word: the low
/// 16 bits give the magnitude, bit 31 set negates it.
pub open spec fn white_bits(rv: u32) -> int {
    if rv & 0x8000_0000 == 0 {
        (rv & 0xFFFF) as int
    } else {
        -((rv & 0xFFFF) as int)
    }
}

/// Map one random word to a white-noise sample.
pub fn white_noise_from(rv: u32) -> (s: Fix)
    ensures
        s@ == white_bits(rv),
{
    proof {
        assert(rv & 0xFFFF <= 0xFFFF) by (bit_vector);
    }
    let mag = (rv & 0xFFFF) as i32;
    if rv & 0x8000_0000 == 0 {
        Fix::from_bits(mag)
    } else {
        Fix::from_bits(-mag)
    }
}

/// The white-noise mapping stays strictly inside (-1.0, 1.0 - 2^-16] in
/// magnitude and its sign matches bit 31 of the random word (a zero
/// magnitude gives the zero sample under either sign bit).
pub proof fn lemma_white_noise_range(rv: u32)
    ensures
        -65535 <= white_bits(rv) <= 65535,
        rv & 0x8000_0000 == 0 ==> white_bits(rv) >= 0,
        rv & 0x8000_0000 != 0 ==> white_bits(rv) <= 0,
        rv & 0xFFFF != 0 && rv & 0x8000_0000 == 0 ==> white_bits(rv) > 0,
        rv & 0xFFFF != 0 && rv & 0x8000_0000 != 0 ==> white_bits(rv) < 0,
{
    assert(rv & 0xFFFF <= 0xFFFF) by (bit_vector);
}

/// The walk state stays strictly inside the reflecting boundary.
pub open spec fn in_walk_range(s: int) -> bool {
    -(WALK_LIMIT_BITS as int) < s < WALK_LIMIT_BITS as int
}

/// The tentative next walk state: leak the prior state and add the scaled
/// white step.
pub open spec fn brown_candidate(prior: int, white: int) -> int {
    fx_add(fx_mul(LEAKAGE_BITS as int, prior), fx_mul(white, SCALING_BITS as int))
}

/// The reflected step: the scaled white step is subtracted instead.
pub open spec fn brown_reflect(prior: int, white: int) -> int {
    fx_sub(fx_mul(LEAKAGE_BITS as int, prior), fx_mul(white, SCALING_BITS as int))
}

/// The next walk state: the candidate, unless it reaches the boundary, in
/// which case the step direction is inverted.
pub open spec fn brown_next(prior: int, white: int) -> int {
    let c = brown_candidate(prior, white);
    if c >= WALK_LIMIT_BITS as int || c <= -(WALK_LIMIT_BITS as int) {
        brown_reflect(prior, white)
    } else {
        c
    }
}

/// The volume-scaled sample a walk state emits.
pub open spec fn brown_emit(state: int) -> int {
    fx_mul(state, VOLUME_BITS as int)
}

/// Advance the random walk by one white-noise step.
pub fn brown_step(prior: Fix, white: Fix) -> (next: Fix)
    ensures
        next@ == brown_next(prior@, white@),
{
    let leak = Fix::from_bits(LEAKAGE_BITS);
    let scale = Fix::from_bits(SCALING_BITS);
    let candidate = leak.mul(prior).add(white.mul(scale));
    if candidate.bits >= WALK_LIMIT_BITS || candidate.bits <= -WALK_LIMIT_BITS {
        leak.mul(prior).sub(white.mul(scale))
    } else {
        candidate
    }
}

/// Boundary reflection keeps the pre-volume walk state strictly inside
/// (-0.25, 0.25): from a state inside the boundary, any white-noise step
/// leads back inside it, whether or not it reflects.
pub proof fn lemma_brown_step_in_walk_range(prior: int, white: int)
    requires
        in_walk_range(prior),
        -65535 <= white <= 65535,
    ensures
        in_walk_range(brown_next(prior, white)),
{
    let lp = LEAKAGE_BITS as int * prior;
    let wp = white * SCALING_BITS as int;
    lemma_div_is_ordered(lp, 65339int * 16383, 65536);
    lemma_div_is_ordered(65339 * (-16383), lp, 65536);
    lemma_div_is_ordered(wp, 65535int * 655, 65536);
    lemma_div_is_ordered((-65535) * 655, wp, 65536);
    let l = lp / 65536;
    let w = wp / 65536;
    assert(-16334 <= l <= 16333);
    assert(-655 <= w <= 654);
    lemma_wrap32_id(l);
    lemma_wrap32_id(w);
    lemma_wrap32_id(l + w);
    if l + w >= 16384 || l + w <= -16384 {
        lemma_wrap32_id(l - w);
    }
}

/// The walk state after consuming a sequence of random words, starting from
/// `prior`. Each word becomes a white-noise step.
pub open spec fn brown_state_after(prior: int, ws: Seq<u32>) -> int
    decreases ws.len(),
{
    if ws.len() == 0 {
        prior
    } else {
        brown_next(brown_state_after(prior, ws.drop_last()), white_bits(ws.last()))
    }
}

/// What a completed brown-noise buffer fill looks like: one word of output
/// per random word consumed, each the volume-scaled, packed emission of the
/// walk state right after its step, and `r` the final pre-volume state.
pub open spec fn brown_fill_ok(prior: int, ws: Seq<u32>, out: Seq<u32>, r: int) -> bool {
    &&& ws.len() == out.len()
    &&& r == brown_state_after(prior, ws)
    &&& forall|i: int|
        0 <= i < out.len() ==> (#[trigger] out[i]) as int == sample_word(
            brown_emit(brown_state_after(prior, ws.take(i + 1))),
        )
}

/// Brown noise is deterministic in its inputs: two completed fills that
/// started from the same prior state and consumed the same random words
/// produced bit-for-bit the same output words and the same final state.
pub proof fn lemma_brown_fill_deterministic(
    prior: int,
    ws: Seq<u32>,
    out1: Seq<u32>,
    r1: int,
    out2: Seq<u32>,
    r2: int,
)
    requires
        brown_fill_ok(prior, ws, out1, r1),
        brown_fill_ok(prior, ws, out2, r2),
    ensures
        out1 == out2,
        r1 == r2,
{
    assert forall|i: int| 0 <= i < out1.len() implies out1[i] == out2[i] by {
        assert(out1[i] as int == sample_word(brown_emit(brown_state_after(prior, ws.take(i + 1)))));
        assert(out2[i] as int == sample_word(brown_emit(brown_state_after(prior, ws.take(i + 1)))));
    }
    assert(out1 =~= out2);
}

/// The boundary reflection property lifted to whole runs: a walk that
/// starts inside the reflecting boundary is still inside it after any
/// sequence of random words.
pub proof fn lemma_brown_walk_stays_in_range(prior: int, ws: Seq<u32>)
    requires
        in_walk_range(prior),
    ensures
        in_walk_range(brown_state_after(prior, ws)),
    decreases ws.len(),
{
    if ws.len() > 0 {
        lemma_brown_walk_stays_in_range(prior, ws.drop_last());
        lemma_white_noise_range(ws.last());
        lemma_brown_step_in_walk_range(
            brown_state_after(prior, ws.drop_last()),
            white_bits(ws.last()),
        );
    }
}

/// Draw one white-noise sample from the random source.
pub fn gen_white_noise(rng: &mut rand::rngs::SmallRng) -> (s: Fix)
    ensures
        exists|rv: u32| s@ == white_bits(rv),
        -65535 <= s@ <= 65535,
{
    let rv = rng_next_u32(rng);
    proof {
        lemma_white_noise_range(rv);
    }
    let s = white_noise_from(rv);
    proof {
        assert(s@ == white_bits(rv));
    }
    s
}

/// Fill `samples` with brown noise drawn from the random source, one mono
/// protocol word per slot, carrying the walk state in from `prior_sample`
/// and returning the pre-volume state to carry into the next buffer. The
/// output is exactly the pure replay (`brown_fill_from_words`) of the words
/// the source handed back, and a state inside the reflecting boundary stays
/// inside it.
pub fn generate_brown_noise(
    rng: &mut rand::rngs::SmallRng,
    prior_sample: Fix,
    samples: &mut Vec<u32>,
) -> (r: Fix)
    ensures
        final(samples)@.len() == old(samples)@.len(),
        exists|ws: Seq<u32>| #[trigger] brown_fill_ok(prior_sample@, ws, final(samples)@, r@),
        in_walk_range(prior_sample@) ==> in_walk_range(r@),
{
    let ghost prior0 = prior_sample@;
    let mut state = prior_sample;
    let ghost mut ws: Seq<u32> = Seq::empty();
    let n = samples.len();
    for idx in 0..n
        invariant
            samples@.len() == n,
            ws.len() == idx,
            state@ == brown_state_after(prior0, ws),
            forall|j: int|
                0 <= j < idx ==> (#[trigger] samples@[j]) as int == sample_word(
                    brown_emit(brown_state_after(prior0, ws.take(j + 1))),
                ),
            in_walk_range(prior0) ==> in_walk_range(state@),
    {
        let rv = rng_next_u32(rng);
        let white = white_noise_from(rv);
        proof {
            lemma_white_noise_range(rv);
            if in_walk_range(state@) {
                lemma_brown_step_in_walk_range(state@, white@);
            }
        }
        let next = brown_step(state, white);
        let vol = Fix::from_bits(VOLUME_BITS);
        let emitted = next.mul(vol);
        let word = sample_to_mono_word(emitted);
        samples[idx] = word;
        proof {
            let ws0 = ws;
            ws = ws.push(rv);
            assert(ws.drop_last() =~= ws0);
            assert(ws.take(idx as int + 1) =~= ws);
            assert forall|j: int|
                0 <= j < idx as int + 1 implies (#[trigger] samples@[j]) as int == sample_word(
                brown_emit(brown_state_after(prior0, ws.take(j + 1))),
            ) by {
                if j < idx as int {
                    assert(ws.take(j + 1) =~= ws0.take(j + 1));
                }
            }
        }
        state = next;
    }
    proof {
        assert(brown_fill_ok(prior0, ws, samples@, state@));
    }
    state
}

/// The pure replay of a brown-noise fill: the same prior state and the same
/// random words always produce bit-for-bit the same output words and final
/// state, which is what `brown_fill_ok` pins down word by word.
pub fn brown_fill_from_words(prior: Fix, words: &Vec<u32>, samples: &mut Vec<u32>) -> (r: Fix)
    requires
        old(samples)@.len() == words@.len(),
    ensures
        brown_fill_ok(prior@, words@, final(samples)@, r@),
        in_walk_range(prior@) ==> in_walk_range(r@),
{
    let ghost prior0 = prior@;
    let mut state = prior;
    let n = samples.len();
    for idx in 0..n
        invariant
            samples@.len() == n,
            words@.len() == n,
            state@ == brown_state_after(prior0, words@.take(idx as int)),
            forall|j: int|
                0 <= j < idx ==> (#[trigger] samples@[j]) as int == sample_word(
                    brown_emit(brown_state_after(prior0, words@.take(j + 1))),
                ),
            in_walk_range(prior0) ==> in_walk_range(state@),
    {
        let rv = words[idx];
        let white = white_noise_from(rv);
        proof {
            lemma_white_noise_range(rv);
            if in_walk_range(state@) {
                lemma_brown_step_in_walk_range(state@, white@);
            }
        }
        let next = brown_step(state, white);
        let vol = Fix::from_bits(VOLUME_BITS);
        let emitted = next.mul(vol);
        let word = sample_to_mono_word(emitted);
        samples[idx] = word;
        proof {
            assert(words@.take(idx + 1).drop_last() =~= words@.take(idx as int));
            assert(words@.take(idx + 1).last() == rv);
        }
        state = next;
    }
    proof {
        assert(words@.take(n as int) =~= words@);
    }
    state
}

} // verus!
