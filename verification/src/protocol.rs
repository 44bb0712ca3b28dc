//! The bit-serial audio protocol timing contract: how samples are packed
//! into 32-bit frame words, how a frame is serialized bit by bit alongside
//! the word-select signal, and how the bit-clock divisor is derived from a
//! base timebase with fractional (whole + 8-bit fraction) precision.
//!
//! The hardware sequencer is an external collaborator; this module states
//! the word layout and cadence it must satisfy, and computes the values the
//! core hands it.

use vstd::prelude::*;
use vstd::arithmetic::div_mod::{
    lemma_div_is_ordered, lemma_hoist_over_denominator, lemma_mod_multiples_vanish,
    lemma_multiply_divide_lt, lemma_small_mod,
};
use crate::fx::{fx_mul, Fix};

verus! {

/// Largest positive 16.16 value, used to rescale a normalized sample to the
/// 16-bit integer range before packing.
pub const FX_MAX_BITS: i32 = 0x7FFF_FFFF;

/// The 16-bit protocol word a sample becomes: the sample is rescaled by the
/// largest 16.16 value, its integer part taken (rounding toward minus
/// infinity), and reduced to its low 16 bits in two's complement.
pub open spec fn sample_word(s: int) -> int {
    (fx_mul(s, FX_MAX_BITS as int) / 65536) % 65536
}

/// Pack one sample into the low half of a mono protocol word.
pub fn sample_to_mono_word(s: Fix) -> (w: u32)
    ensures
        w as int == sample_word(s@),
        w < 65536,
{
    let maxv = Fix::from_bits(FX_MAX_BITS);
    let scaled = s.mul(maxv);
    // Shift by a multiple of the divisor so that unsigned division is
    // exactly floor division of the signed value.
    let su: u64 = ((scaled.bits as i64) + 0x8000_0000i64) as u64;
    let q: u64 = su / 65536;
    proof {
        lemma_div_is_ordered(su as int, 0xFFFF_FFFF, 65536);
        lemma_hoist_over_denominator(scaled@, 32768, 65536nat);
    }
    let t: i32 = (q as i32) - 32768;
    let w: u32 = if t >= 0 {
        t as u32
    } else {
        (t + 65536) as u32
    };
    proof {
        if t >= 0 {
            lemma_small_mod(t as nat, 65536);
        } else {
            lemma_mod_multiples_vanish(1, t as int, 65536);
            lemma_small_mod((t + 65536) as nat, 65536);
        }
    }
    w
}

/// Pack a stereo frame: channel A in the high 16 bits, channel B in the low
/// 16 bits, the layout the sequencer shifts out most-significant-bit first.
pub fn pack_frame(a: u16, b: u16) -> (w: u32)
    ensures
        w as int == a as int * 65536 + b as int,
{
    let h: u32 = a as u32;
    let l: u32 = b as u32;
    proof {
        assert((h << 16u32) | l == h * 65536 + l) by (bit_vector)
            requires
                h < 0x10000,
                l < 0x10000,
        ;
    }
    (h << 16u32) | l
}

/// Bit `i` of a frame word in wire order: most significant bit first.
pub open spec fn wire_bit(w: u32, i: u32) -> bool {
    (w >> (31 - i) as u32) & 1 == 1
}

/// Serialize one frame word into its 32-slot wire cadence: each slot is the
/// data bit in wire order paired with the word-select level, low for the 16
/// high (channel A) bits and high for the 16 low (channel B) bits. The bit
/// clock toggles once per slot edge pair, a fixed, non-adaptive cycle of two
/// symmetric halves.
pub fn frame_wire_slots(w: u32) -> (v: Vec<(bool, bool)>)
    ensures
        v@.len() == 32,
        forall|i: int|
            0 <= i < 32 ==> (#[trigger] v@[i]).0 == wire_bit(w, i as u32) && v@[i].1 == (i >= 16),
{
    let mut v: Vec<(bool, bool)> = Vec::new();
    for i in 0..32u32
        invariant
            v@.len() == i as int,
            forall|j: int|
                0 <= j < i as int ==> (#[trigger] v@[j]).0 == wire_bit(w, j as u32) && v@[j].1 == (
                j >= 16),
    {
        let data = ((w >> (31 - i)) & 1) == 1;
        let ws = i >= 16;
        v.push((data, ws));
    }
    v
}

/// The wire cadence recovers exactly the packed frame: while word select is
/// low the data line carries channel A's 16 bits most significant first,
/// and while it is high channel B's.
pub proof fn lemma_frame_wire_roundtrip(a: u16, b: u16, i: u32)
    requires
        i < 32,
    ensures
        (((a as u32) << 16u32) | (b as u32)) as int == a as int * 65536 + b as int,
        i < 16 ==> wire_bit(((a as u32) << 16u32) | (b as u32), i) == (((a as u32) >> (15 - i))
            & 1 == 1),
        i >= 16 ==> wire_bit(((a as u32) << 16u32) | (b as u32), i) == (((b as u32) >> (31 - i))
            & 1 == 1),
{
    let h = a as u32;
    let l = b as u32;
    assert((h << 16u32) | l == h * 65536 + l) by (bit_vector)
        requires
            h < 0x10000,
            l < 0x10000,
    ;
    if i < 16 {
        assert((((h << 16u32) | l) >> ((31 - i) as u32)) & 1 == (h >> ((15 - i) as u32)) & 1)
            by (bit_vector)
            requires
                i < 16,
                h < 0x10000,
                l < 0x10000,
        ;
    } else {
        assert((((h << 16u32) | l) >> ((31 - i) as u32)) & 1 == (l >> ((31 - i) as u32)) & 1)
            by (bit_vector)
            requires
                16 <= i < 32,
                h < 0x10000,
                l < 0x10000,
        ;
    }
}

/// Word-select (sample) frequencies the output format may be configured
/// for; one is fixed at startup.
#[derive(Clone, Copy, PartialEq, Eq, Structural, Debug)]
pub enum SampleFrequency {
    Freq32khz,
    Freq44_1khz,
    Freq48khz,
    Freq96khz,
    Freq192khz,
    Freq384khz,
}

/// The word-select frequency in hertz.
pub open spec fn lrck_hz_of(f: SampleFrequency) -> int {
    match f {
        SampleFrequency::Freq32khz => 32000,
        SampleFrequency::Freq44_1khz => 44100,
        SampleFrequency::Freq48khz => 48000,
        SampleFrequency::Freq96khz => 96000,
        SampleFrequency::Freq192khz => 192000,
        SampleFrequency::Freq384khz => 384000,
    }
}

impl SampleFrequency {
    /// The word-select frequency in hertz.
    pub fn lrck_hz(self) -> (r: u32)
        ensures
            r as int == lrck_hz_of(self),
    {
        match self {
            SampleFrequency::Freq32khz => 32000,
            SampleFrequency::Freq44_1khz => 44100,
            SampleFrequency::Freq48khz => 48000,
            SampleFrequency::Freq96khz => 96000,
            SampleFrequency::Freq192khz => 192000,
            SampleFrequency::Freq384khz => 384000,
        }
    }

    /// The bit-clock rate the sequencer must run at: a fixed 64x multiple of
    /// the word-select frequency.
    pub fn bck_hz(self) -> (r: u32)
        ensures
            r as int == 64 * lrck_hz_of(self),
    {
        let l = self.lrck_hz();
        64 * l
    }
}

/// The fractional clock divisor handed to the sequencer: the whole part and
/// the 8-bit fractional part of `base_hz / (cycles_per_bit * bck_hz)`, both
/// truncated.
pub fn clock_divisor(base_hz: u32, cycles_per_bit: u32, bck_hz: u32) -> (r: (u16, u8))
    requires
        cycles_per_bit > 0,
        bck_hz > 0,
        cycles_per_bit * bck_hz <= u32::MAX,
        base_hz as int / (cycles_per_bit * bck_hz) < 0x10000,
    ensures
        r.0 as int == base_hz as int / (cycles_per_bit as int * bck_hz as int),
        r.1 as int == (base_hz as int % (cycles_per_bit as int * bck_hz as int)) * 256 / (
        cycles_per_bit as int * bck_hz as int),
{
    let d: u32 = cycles_per_bit * bck_hz;
    proof {
        vstd::arithmetic::mul::lemma_mul_strictly_positive(cycles_per_bit as int, bck_hz as int);
    }
    let whole: u32 = base_hz / d;
    let rem: u64 = (base_hz % d) as u64;
    let frac: u64 = (rem * 256) / (d as u64);
    proof {
        lemma_multiply_divide_lt((rem * 256) as int, d as int, 256);
    }
    (whole as u16, frac as u8)
}

} // verus!
