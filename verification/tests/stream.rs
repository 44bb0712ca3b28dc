//! The streaming scheduler: liveness under simulated completion events, the
//! three-slot rotation, the end-to-end pipeline with the reference seed, and
//! the sawtooth test signal.

use brownstream::fx::Fix;
use brownstream::scheduler::{NoisePipeline, SlotState, StreamScheduler, slot_after_reclaim, TABLE_SIZE};
use brownstream::wave::generate_sawtooth_wave;
use rand::rngs::SmallRng;
use rand::SeedableRng;

#[test]
fn scheduler_counts_one_buffer_per_completion() {
    let mut rng = SmallRng::seed_from_u64(5);
    let mut s = StreamScheduler::new(8, &mut rng);
    assert_eq!(s.buffers_generated(), 2);
    let n = 50;
    for _ in 0..n {
        s.tick(&mut rng, true);
        assert_eq!(s.queued_buffer().len(), 8);
    }
    assert_eq!(s.buffers_generated(), 2 + n);
}

#[test]
fn scheduler_idle_tick_changes_nothing() {
    let mut rng = SmallRng::seed_from_u64(6);
    let mut s = StreamScheduler::new(8, &mut rng);
    let before_count = s.buffers_generated();
    let before_queued = s.queued_buffer().clone();
    s.tick(&mut rng, false);
    assert_eq!(s.buffers_generated(), before_count);
    assert_eq!(*s.queued_buffer(), before_queued);
}

#[test]
fn scheduler_rotates_three_slots() {
    let mut rng = SmallRng::seed_from_u64(7);
    let mut s = StreamScheduler::new(4, &mut rng);
    assert_eq!((s.active, s.queued, s.free), (0, 1, 2));
    s.tick(&mut rng, true);
    assert_eq!((s.active, s.queued, s.free), (1, 2, 0));
    s.tick(&mut rng, true);
    assert_eq!((s.active, s.queued, s.free), (2, 0, 1));
    s.tick(&mut rng, true);
    assert_eq!((s.active, s.queued, s.free), (0, 1, 2));
}

#[test]
fn end_to_end_reference_seed() {
    // Two 220-word buffers generated through the full pipeline.
    let mut rng = SmallRng::seed_from_u64(0xfeedbeeffeedbeef);
    let mut pipe = NoisePipeline::new();
    let mut b1 = vec![0u32; TABLE_SIZE];
    let mut b2 = vec![0u32; TABLE_SIZE];
    pipe.fill(&mut rng, &mut b1);
    pipe.fill(&mut rng, &mut b2);
    for &w in b1.iter().chain(b2.iter()) {
        assert!(w < 65536, "word {w} outside the 16-bit sample range");
    }

    // The second buffer continues the walk from the first buffer's final
    // internal state: one continuous 440-word run is bit-identical to the
    // two buffers back to back.
    let mut rng_c = SmallRng::seed_from_u64(0xfeedbeeffeedbeef);
    let mut pipe_c = NoisePipeline::new();
    let mut long = vec![0u32; 2 * TABLE_SIZE];
    pipe_c.fill(&mut rng_c, &mut long);
    assert_eq!(&long[..TABLE_SIZE], &b1[..]);
    assert_eq!(&long[TABLE_SIZE..], &b2[..]);
}

#[test]
fn scheduler_priming_matches_pipeline_fills() {
    let mut rng_s = SmallRng::seed_from_u64(0xfeedbeeffeedbeef);
    let s = StreamScheduler::new(TABLE_SIZE, &mut rng_s);

    let mut rng_p = SmallRng::seed_from_u64(0xfeedbeeffeedbeef);
    let mut pipe = NoisePipeline::new();
    let mut b1 = vec![0u32; TABLE_SIZE];
    let mut b2 = vec![0u32; TABLE_SIZE];
    pipe.fill(&mut rng_p, &mut b1);
    pipe.fill(&mut rng_p, &mut b2);

    assert_eq!(s.slots[s.active], b1);
    assert_eq!(*s.queued_buffer(), b2);
}

#[test]
fn slot_reclaim_needs_replacement() {
    assert_eq!(slot_after_reclaim(SlotState::Done, true), SlotState::Idle);
    assert_eq!(slot_after_reclaim(SlotState::Done, false), SlotState::Done);
    assert_eq!(slot_after_reclaim(SlotState::Running, true), SlotState::Running);
    assert_eq!(slot_after_reclaim(SlotState::Idle, false), SlotState::Idle);
}

#[test]
fn sawtooth_shape() {
    let mut buf = vec![0xAAAAAAAAu32; TABLE_SIZE + 5];
    generate_sawtooth_wave(&mut buf);
    assert_eq!(buf[0], 49152);
    assert_eq!(buf[1], 49450);
    assert_eq!(buf[54], 65239);
    assert_eq!(buf[55], 0);
    assert_eq!(buf[56], 297);
    assert_eq!(buf[109], 16086);
    assert_eq!(buf[110], 16384);
    assert_eq!(buf[111], 16086);
    assert_eq!(buf[165], 0);
    assert_eq!(buf[166], 65239);
    assert_eq!(buf[219], 49450);
    // Slots past the table are untouched.
    for i in TABLE_SIZE..TABLE_SIZE + 5 {
        assert_eq!(buf[i], 0xAAAAAAAA);
    }
}

#[test]
fn pipeline_word_is_filtered_not_raw() {
    // The pipeline's first word differs from the raw brown-noise word for
    // the same seed: the filter is in the path.
    let mut rng_p = SmallRng::seed_from_u64(0xfeedbeeffeedbeef);
    let mut pipe = NoisePipeline::new();
    let mut filtered = vec![0u32; 16];
    pipe.fill(&mut rng_p, &mut filtered);

    let mut rng_b = SmallRng::seed_from_u64(0xfeedbeeffeedbeef);
    let mut raw = vec![0u32; 16];
    let _ = brownstream::noise::generate_brown_noise(&mut rng_b, Fix::zero(), &mut raw);

    assert_ne!(filtered, raw);
}
