//! Cross-checks of the 16.16 fixed-point domain against the `fixed` crate's
//! I16F16 type, which the pipeline's arithmetic is meant to match bit for
//! bit, and checks of the protocol word packing and divisor computation.

use brownstream::fx::Fix;
use brownstream::protocol::{clock_divisor, frame_wire_slots, pack_frame, sample_to_mono_word, SampleFrequency};
use fixed::types::I16F16;

const PAIRS: [(i32, i32); 12] = [
    (0, 0),
    (65536, 65536),
    (65339, 16383),
    (65339, -16383),
    (655, 65535),
    (655, -65535),
    (12345, -67890),
    (-1, 1),
    (-65536, 3),
    (16384, -272),
    (-130502, 542),
    (64993, 272),
];

#[test]
fn mul_matches_i16f16() {
    for (a, b) in PAIRS {
        let ours = Fix::from_bits(a).mul(Fix::from_bits(b)).to_bits();
        let theirs = (I16F16::from_bits(a) * I16F16::from_bits(b)).to_bits();
        assert_eq!(ours, theirs, "mul mismatch on ({a}, {b})");
    }
}

#[test]
fn add_sub_match_i16f16() {
    for (a, b) in PAIRS {
        let ours = Fix::from_bits(a).add(Fix::from_bits(b)).to_bits();
        let theirs = (I16F16::from_bits(a) + I16F16::from_bits(b)).to_bits();
        assert_eq!(ours, theirs, "add mismatch on ({a}, {b})");
        let ours = Fix::from_bits(a).sub(Fix::from_bits(b)).to_bits();
        let theirs = (I16F16::from_bits(a) - I16F16::from_bits(b)).to_bits();
        assert_eq!(ours, theirs, "sub mismatch on ({a}, {b})");
    }
}

#[test]
fn constants_match_i16f16() {
    assert_eq!(brownstream::noise::LEAKAGE_BITS, I16F16::lit("0.997").to_bits());
    assert_eq!(brownstream::noise::SCALING_BITS, I16F16::lit("0.01").to_bits());
    assert_eq!(brownstream::noise::VOLUME_BITS, I16F16::lit("0.25").to_bits());
    assert_eq!(brownstream::protocol::FX_MAX_BITS, I16F16::MAX.to_bits());
    assert_eq!(brownstream::filter::B0_BITS, I16F16::from_num(0.00414308).to_bits());
    assert_eq!(brownstream::filter::B1_BITS, I16F16::from_num(0).to_bits());
    assert_eq!(brownstream::filter::B2_BITS, I16F16::from_num(-0.00414308).to_bits());
    assert_eq!(brownstream::filter::A1_BITS, I16F16::from_num(-1.99130017).to_bits());
    assert_eq!(brownstream::filter::A2_BITS, I16F16::from_num(0.99171384).to_bits());
}

#[test]
fn mono_word_matches_i16f16_scaling() {
    for bits in [0i32, 1, -1, 65536, -65536, 16384, -16384, 4096, -4095, 163] {
        let ours = sample_to_mono_word(Fix::from_bits(bits));
        let scaled = I16F16::from_bits(bits) * I16F16::MAX;
        let theirs = (scaled.to_num::<i16>() as u32) & 0xFFFF;
        assert_eq!(ours, theirs, "word mismatch on sample bits {bits}");
    }
}

#[test]
fn mono_word_full_scale() {
    assert_eq!(sample_to_mono_word(Fix::from_bits(65536)), 32767);
    assert_eq!(sample_to_mono_word(Fix::from_bits(-65536)), 32768);
    assert_eq!(sample_to_mono_word(Fix::zero()), 0);
}

#[test]
fn pack_frame_layout() {
    assert_eq!(pack_frame(0x1234, 0x5678), 0x12345678);
    assert_eq!(pack_frame(0xFFFF, 0), 0xFFFF0000);
    assert_eq!(pack_frame(0, 0xFFFF), 0x0000FFFF);
}

#[test]
fn frame_wire_order_and_word_select() {
    let slots = frame_wire_slots(0xF0000001);
    assert_eq!(slots.len(), 32);
    for i in 0..32 {
        let expect_bit = (0xF0000001u32 >> (31 - i)) & 1 == 1;
        assert_eq!(slots[i].0, expect_bit, "data bit {i}");
        assert_eq!(slots[i].1, i >= 16, "word select at {i}");
    }
    assert!(slots[0].0 && slots[1].0 && slots[2].0 && slots[3].0);
    assert!(!slots[4].0);
    assert!(slots[31].0);
}

#[test]
fn divisor_for_44_1khz() {
    let f = SampleFrequency::Freq44_1khz;
    assert_eq!(f.lrck_hz(), 44100);
    assert_eq!(f.bck_hz(), 64 * 44100);
    let (whole, frac) = clock_divisor(125_000_000, 2, f.bck_hz());
    assert_eq!(whole, 22);
    assert_eq!(frac, 36);
}

#[test]
fn divisor_exact_when_even() {
    let (whole, frac) = clock_divisor(1_000_000, 2, 500_000);
    assert_eq!(whole, 1);
    assert_eq!(frac, 0);
}
