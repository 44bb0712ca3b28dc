//! The streaming buffer scheduler: the noise-and-filter pipeline that turns
//! random words into protocol words, and the three-slot buffer rotation that
//! keeps an asynchronous transfer engine continuously fed.
//!
//! Exactly three buffers exist: one bound to the active transfer, one queued
//! as its replacement, and one free. On each completion event the free
//! buffer is filled completely, then handed over as the new queued buffer
//! while the finished one becomes free — generation of a buffer always
//! completes strictly before it is handed over, so the engine never sees a
//! partially written buffer.

use vstd::prelude::*;
use crate::filter::{filter_out, Butterworth};
use crate::fx::Fix;
use crate::noise::{
    brown_emit, brown_next, brown_step, in_walk_range, lemma_brown_step_in_walk_range,
    lemma_white_noise_range, white_bits, white_noise_from, VOLUME_BITS,
};
use crate::protocol::{sample_to_mono_word, sample_word};
use crate::rng::rng_next_u32;

verus! {

/// Number of 32-bit protocol words in one transfer buffer.
pub const TABLE_SIZE: usize = 220;

/// The mathematical state of the sample pipeline: the pre-volume random
/// walk value and the filter history (two most recent inputs and outputs).
pub struct PipeView {
    pub walk: int,
    pub x1: int,
    pub x2: int,
    pub y1: int,
    pub y2: int,
}

/// One pipeline step on the model: walk one brown-noise step on the random
/// word, emit the volume-scaled sample, filter it, remember the new history.
pub open spec fn pipe_step(m: PipeView, rv: u32) -> PipeView {
    let s = brown_next(m.walk, white_bits(rv));
    let e = brown_emit(s);
    let y = filter_out(e, m.x1, m.x2, m.y1, m.y2);
    PipeView { walk: s, x1: e, x2: m.x1, y1: y, y2: m.y1 }
}

/// The protocol word one pipeline step emits.
pub open spec fn pipe_word(m: PipeView, rv: u32) -> int {
    sample_word(pipe_step(m, rv).y1)
}

/// The pipeline model after consuming a sequence of random words.
pub open spec fn pipe_after(m: PipeView, ws: Seq<u32>) -> PipeView
    decreases ws.len(),
{
    if ws.len() == 0 {
        m
    } else {
        pipe_step(pipe_after(m, ws.drop_last()), ws.last())
    }
}

/// What a completed buffer fill looks like: one output word per random word
/// consumed, each the word of the pipeline state it was emitted from, and
/// `m2` the pipeline state carried into the next fill.
pub open spec fn pipe_fill_ok(m: PipeView, ws: Seq<u32>, out: Seq<u32>, m2: PipeView) -> bool {
    &&& ws.len() == out.len()
    &&& m2 == pipe_after(m, ws)
    &&& forall|i: int|
        0 <= i < out.len() ==> (#[trigger] out[i]) as int == pipe_word(
            pipe_after(m, ws.take(i)),
            ws[i],
        )
}

/// The model of a fresh pipeline: walk state and filter history all zero.
pub open spec fn pipe_init() -> PipeView {
    PipeView { walk: 0, x1: 0, x2: 0, y1: 0, y2: 0 }
}

/// The sample pipeline: brown-noise walk state feeding the Butterworth
/// filter, one protocol word per step. The walk state and the filter
/// history advance by exactly one sample per emitted word.
pub struct NoisePipeline {
    pub walk: Fix,
    pub filt: Butterworth,
}

impl View for NoisePipeline {
    type V = PipeView;

    open spec fn view(&self) -> PipeView {
        PipeView {
            walk: self.walk@,
            x1: self.filt.past_input(0),
            x2: self.filt.past_input(1),
            y1: self.filt.past_output(0),
            y2: self.filt.past_output(1),
        }
    }
}

impl NoisePipeline {
    pub open spec fn wf(self) -> bool {
        self.filt.wf()
    }

    /// A fresh pipeline: zero walk state, zero filter history.
    pub fn new() -> (r: NoisePipeline)
        ensures
            r.wf(),
            r@ == pipe_init(),
    {
        NoisePipeline { walk: Fix::zero(), filt: Butterworth::new() }
    }

    /// Turn one random word into one protocol word, advancing the walk and
    /// the filter by exactly one sample.
    pub fn next_word(&mut self, rv: u32) -> (w: u32)
        requires
            old(self).wf(),
        ensures
            final(self).wf(),
            final(self)@ == pipe_step(old(self)@, rv),
            w as int == pipe_word(old(self)@, rv),
            w < 65536,
            in_walk_range(old(self)@.walk) ==> in_walk_range(final(self)@.walk),
    {
        let white = white_noise_from(rv);
        proof {
            lemma_white_noise_range(rv);
            if in_walk_range(self.walk@) {
                lemma_brown_step_in_walk_range(self.walk@, white@);
            }
        }
        let next = brown_step(self.walk, white);
        self.walk = next;
        let vol = Fix::from_bits(VOLUME_BITS);
        let emitted = next.mul(vol);
        let y = self.filt.compute(emitted);
        sample_to_mono_word(y)
    }

    /// Fill a whole buffer from the random source: the buffer becomes
    /// exactly the pipeline's output on the words the source handed back,
    /// and a walk state inside the reflecting boundary stays inside it.
    pub fn fill(&mut self, rng: &mut rand::rngs::SmallRng, buf: &mut Vec<u32>)
        requires
            old(self).wf(),
        ensures
            final(self).wf(),
            final(buf)@.len() == old(buf)@.len(),
            exists|ws: Seq<u32>| #[trigger] pipe_fill_ok(old(self)@, ws, final(buf)@, final(self)@),
            in_walk_range(old(self)@.walk) ==> in_walk_range(final(self)@.walk),
    {
        let ghost m0 = self@;
        let ghost mut ws: Seq<u32> = Seq::empty();
        let n = buf.len();
        for idx in 0..n
            invariant
                self.wf(),
                buf@.len() == n,
                ws.len() == idx,
                self@ == pipe_after(m0, ws),
                forall|j: int|
                    0 <= j < idx ==> (#[trigger] buf@[j]) as int == pipe_word(
                        pipe_after(m0, ws.take(j)),
                        ws[j],
                    ),
                in_walk_range(m0.walk) ==> in_walk_range(self@.walk),
        {
            let rv = rng_next_u32(rng);
            let w = self.next_word(rv);
            buf[idx] = w;
            proof {
                let ws0 = ws;
                ws = ws.push(rv);
                assert(ws.drop_last() =~= ws0);
                assert(ws.take(idx as int) =~= ws0);
                assert forall|j: int|
                    0 <= j < idx as int + 1 implies (#[trigger] buf@[j]) as int == pipe_word(
                    pipe_after(m0, ws.take(j)),
                    ws[j],
                ) by {
                    if j < idx as int {
                        assert(ws.take(j) =~= ws0.take(j));
                    }
                }
            }
        }
        proof {
            assert(pipe_fill_ok(m0, ws, buf@, self@));
        }
    }
}

/// Logical state of a transfer slot: the binding of one buffer to the
/// engine's active or pending channel.
#[derive(Clone, Copy, PartialEq, Eq, Structural, Debug)]
pub enum SlotState {
    Idle,
    Running,
    Done,
}

/// Reclaim a slot after polling: a finished slot returns to idle only once
/// the producer has supplied a replacement buffer; otherwise it stays as it
/// is.
pub fn slot_after_reclaim(s: SlotState, replacement_supplied: bool) -> (r: SlotState)
    ensures
        s == SlotState::Done && replacement_supplied ==> r == SlotState::Idle,
        !(s == SlotState::Done && replacement_supplied) ==> r == s,
{
    if matches!(s, SlotState::Done) && replacement_supplied {
        SlotState::Idle
    } else {
        s
    }
}

/// The streaming scheduler: the pipeline plus exactly three buffer slots
/// under an alternating-ownership discipline — `active` is being consumed
/// by the engine, `queued` is handed over as its replacement, `free` is the
/// producer's to fill. `generated` counts completed buffer fills.
pub struct StreamScheduler {
    pub pipe: NoisePipeline,
    pub slots: Vec<Vec<u32>>,
    pub active: usize,
    pub queued: usize,
    pub free: usize,
    pub buf_len: usize,
    pub generated: u64,
}

impl StreamScheduler {
    /// Well-formedness: three slots, the three roles a permutation of them,
    /// every buffer always at its full length, the pipeline well-formed and
    /// its walk state inside the reflecting boundary.
    pub open spec fn wf(self) -> bool {
        &&& self.slots@.len() == 3
        &&& self.active < 3
        &&& self.queued < 3
        &&& self.free < 3
        &&& self.active != self.queued
        &&& self.active != self.free
        &&& self.queued != self.free
        &&& forall|i: int| 0 <= i < 3 ==> (#[trigger] self.slots@[i])@.len() == self.buf_len
        &&& self.pipe.wf()
        &&& in_walk_range(self.pipe@.walk)
    }

    /// Prime the stream: fill the first two buffers from a fresh pipeline,
    /// so the engine can be started on one with its replacement already
    /// queued, the third buffer free.
    pub fn new(buf_len: usize, rng: &mut rand::rngs::SmallRng) -> (s: StreamScheduler)
        ensures
            s.wf(),
            s.buf_len == buf_len,
            s.generated == 2,
            s.active == 0 && s.queued == 1 && s.free == 2,
            exists|ws1: Seq<u32>, m1: PipeView, ws2: Seq<u32>|
                #[trigger] pipe_fill_ok(pipe_init(), ws1, s.slots@[0]@, m1)
                    && #[trigger] pipe_fill_ok(m1, ws2, s.slots@[1]@, s.pipe@),
    {
        let mut pipe = NoisePipeline::new();
        let mut b0 = zero_buffer(buf_len);
        let mut b1 = zero_buffer(buf_len);
        let b2 = zero_buffer(buf_len);
        pipe.fill(rng, &mut b0);
        let ghost m1 = pipe@;
        let ghost ws1: Seq<u32> = choose|ws: Seq<u32>| pipe_fill_ok(pipe_init(), ws, b0@, m1);
        pipe.fill(rng, &mut b1);
        let ghost m2 = pipe@;
        let ghost ws2: Seq<u32> = choose|ws: Seq<u32>| pipe_fill_ok(m1, ws, b1@, m2);
        let mut slots: Vec<Vec<u32>> = Vec::new();
        slots.push(b0);
        slots.push(b1);
        slots.push(b2);
        let s = StreamScheduler {
            pipe,
            slots,
            active: 0,
            queued: 1,
            free: 2,
            buf_len,
            generated: 2,
        };
        proof {
            assert(s.slots@[0]@.len() == buf_len);
            assert(s.slots@[1]@.len() == buf_len);
            assert(s.slots@[2]@.len() == buf_len);
            assert(pipe_fill_ok(pipe_init(), ws1, s.slots@[0]@, m1));
            assert(pipe_fill_ok(m1, ws2, s.slots@[1]@, s.pipe@));
        }
        s
    }

    /// One completion event: the free buffer is filled completely, then the
    /// roles rotate — the filled buffer becomes the queued replacement, the
    /// queued one is now active, and the buffer whose transfer finished is
    /// reclaimed as free. Exactly one new buffer is generated, and the two
    /// buffers the engine may still read are untouched.
    pub fn on_transfer_complete(&mut self, rng: &mut rand::rngs::SmallRng)
        requires
            old(self).wf(),
            old(self).generated < u64::MAX,
        ensures
            final(self).wf(),
            final(self).buf_len == old(self).buf_len,
            final(self).generated == old(self).generated + 1,
            final(self).active == old(self).queued,
            final(self).queued == old(self).free,
            final(self).free == old(self).active,
            exists|ws: Seq<u32>|
                #[trigger] pipe_fill_ok(
                    old(self).pipe@,
                    ws,
                    final(self).slots@[final(self).queued as int]@,
                    final(self).pipe@,
                ),
            final(self).slots@[final(self).active as int]@ == old(self).slots@[old(
                self,
            ).queued as int]@,
            final(self).slots@[final(self).free as int]@ == old(self).slots@[old(
                self,
            ).active as int]@,
    {
        let f = self.free;
        let ghost mpre = self.pipe@;
        let buf = &mut self.slots[f];
        self.pipe.fill(rng, buf);
        let ghost wsw: Seq<u32> = choose|ws: Seq<u32>|
            pipe_fill_ok(mpre, ws, self.slots@[f as int]@, self.pipe@);
        let a = self.active;
        let q = self.queued;
        self.active = q;
        self.queued = f;
        self.free = a;
        self.generated = self.generated + 1;
        proof {
            assert(pipe_fill_ok(mpre, wsw, self.slots@[self.queued as int]@, self.pipe@));
        }
    }

    /// One scheduler tick: a non-blocking poll outcome comes in as
    /// `transfer_done`; nothing happens until the active transfer has
    /// completed, and then exactly one buffer swap.
    pub fn tick(&mut self, rng: &mut rand::rngs::SmallRng, transfer_done: bool)
        requires
            old(self).wf(),
            old(self).generated < u64::MAX,
        ensures
            final(self).wf(),
            final(self).buf_len == old(self).buf_len,
            !transfer_done ==> *final(self) == *old(self),
            transfer_done ==> final(self).generated == old(self).generated + 1
                && final(self).active == old(self).queued && final(self).queued == old(self).free
                && final(self).free == old(self).active && exists|ws: Seq<u32>|
                #[trigger] pipe_fill_ok(
                    old(self).pipe@,
                    ws,
                    final(self).slots@[final(self).queued as int]@,
                    final(self).pipe@,
                ),
    {
        if transfer_done {
            self.on_transfer_complete(rng);
        }
    }

    /// The buffer currently queued as the engine's replacement.
    pub fn queued_buffer(&self) -> (b: &Vec<u32>)
        requires
            self.wf(),
        ensures
            b@ == self.slots@[self.queued as int]@,
    {
        &self.slots[self.queued]
    }

    /// How many buffers have been generated, the two priming fills included.
    pub fn buffers_generated(&self) -> (n: u64)
        ensures
            n == self.generated,
    {
        self.generated
    }
}

/// A buffer of `n` zeroed protocol words.
fn zero_buffer(n: usize) -> (v: Vec<u32>)
    ensures
        v@.len() == n,
{
    let mut v: Vec<u32> = Vec::new();
    for i in 0..n
        invariant
            v@.len() == i,
    {
        v.push(0);
    }
    v
}

} // verus!
