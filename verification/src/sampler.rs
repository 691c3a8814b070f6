//! The sampling tick: once per tick, exactly one new sample is appended to
//! each channel's window, so the two channels never drift apart in length.
//!
//! A tick may come with a fresh reading for either channel or for neither.
//! A channel without a fresh reading advances with its last known value
//! (carry-forward), kept in a per-channel cache that starts at zero.

use vstd::prelude::*;
use crate::SAMPLE_SCALE;
use crate::WINDOW_SIZE;
use crate::ring::push_all_model;
use crate::ring::push_model;
use crate::ring::SampleBuffer;

verus! {

/// The value a channel records this tick: the fresh reading if one arrived,
/// otherwise the channel's last known value.
pub open spec fn sampled_value(reading: Option<u32>, prev: u32) -> u32 {
    match reading {
        Some(v) => v,
        None => prev,
    }
}

/// A channel's window, pre-filled so a full, valid window exists before any
/// real data arrives: capacity `WINDOW_SIZE`, holding `WINDOW_SIZE` zeros
/// after `WINDOW_SIZE + 1` zero pushes.
pub fn prefilled_buffer() -> (b: SampleBuffer)
    ensures
        b.wf(),
        b.spec_capacity() == WINDOW_SIZE as nat,
        b@.len() == WINDOW_SIZE as nat,
        forall|i: int| 0 <= i < b@.len() ==> b@[i] == 0u32,
{
    let mut b = SampleBuffer::with_capacity(WINDOW_SIZE);
    let mut i: usize = 0;
    while i <= WINDOW_SIZE
        invariant
            b.wf(),
            b.spec_capacity() == WINDOW_SIZE as nat,
            i <= WINDOW_SIZE + 1,
            b@.len() == if i <= WINDOW_SIZE { i as nat } else { WINDOW_SIZE as nat },
            forall|j: int| 0 <= j < b@.len() ==> b@[j] == 0u32,
        decreases WINDOW_SIZE + 1 - i,
    {
        b.push(0);
        i = i + 1;
    }
    b
}

/// The per-channel last-known-value cache, mutated only by the sampling loop.
pub struct Sampler {
    /// Last known value of the left channel, in fixed-point units.
    pub prev_left: u32,
    /// Last known value of the right channel, in fixed-point units.
    pub prev_right: u32,
}

impl Sampler {
    /// Both caches hold normalized pressures.
    pub open spec fn wf(&self) -> bool {
        &&& self.prev_left <= SAMPLE_SCALE
        &&& self.prev_right <= SAMPLE_SCALE
    }

    /// A fresh cache: before any event, both channels are taken to rest at
    /// zero pressure.
    pub fn new() -> (s: Sampler)
        ensures
            s.prev_left == 0u32,
            s.prev_right == 0u32,
            s.wf(),
    {
        Sampler { prev_left: 0, prev_right: 0 }
    }

    /// One tick: appends exactly one sample to each channel's window — the
    /// fresh reading where one arrived, the channel's last known value where
    /// none did — and updates both caches to the values just recorded.
    ///
    /// Both windows advance by one together, so equal lengths before the
    /// tick mean equal lengths after it, and a full window stays exactly
    /// full.
    pub fn tick(
        &mut self,
        left_buf: &mut SampleBuffer,
        right_buf: &mut SampleBuffer,
        left_reading: Option<u32>,
        right_reading: Option<u32>,
    )
        requires
            old(self).wf(),
            old(left_buf).wf(),
            old(right_buf).wf(),
            left_reading matches Some(v) ==> v <= SAMPLE_SCALE,
            right_reading matches Some(v) ==> v <= SAMPLE_SCALE,
        ensures
            final(self).wf(),
            final(left_buf).wf(),
            final(right_buf).wf(),
            final(left_buf).spec_capacity() == old(left_buf).spec_capacity(),
            final(right_buf).spec_capacity() == old(right_buf).spec_capacity(),
            final(left_buf)@ == push_model(
                old(left_buf)@,
                old(left_buf).spec_capacity(),
                sampled_value(left_reading, old(self).prev_left),
            ),
            final(right_buf)@ == push_model(
                old(right_buf)@,
                old(right_buf).spec_capacity(),
                sampled_value(right_reading, old(self).prev_right),
            ),
            final(left_buf)@.last() == sampled_value(left_reading, old(self).prev_left),
            final(right_buf)@.last() == sampled_value(right_reading, old(self).prev_right),
            left_reading is None ==> final(left_buf)@.last() == old(self).prev_left,
            right_reading is None ==> final(right_buf)@.last() == old(self).prev_right,
            final(self).prev_left == sampled_value(left_reading, old(self).prev_left),
            final(self).prev_right == sampled_value(right_reading, old(self).prev_right),
            old(left_buf)@.len() == old(left_buf).spec_capacity()
                ==> final(left_buf)@.len() == old(left_buf).spec_capacity(),
            old(right_buf)@.len() == old(right_buf).spec_capacity()
                ==> final(right_buf)@.len() == old(right_buf).spec_capacity(),
    {
        let left_value = match left_reading {
            Some(v) => v,
            None => self.prev_left,
        };
        let right_value = match right_reading {
            Some(v) => v,
            None => self.prev_right,
        };
        left_buf.push(left_value);
        right_buf.push(right_value);
        self.prev_left = left_value;
        self.prev_right = right_value;
    }
}

/// Length-synchronization law: one tick advances the two windows in step, so
/// windows of one common capacity and equal lengths keep equal lengths,
/// whatever each channel records.
pub proof fn lemma_lengths_stay_equal(l: Seq<u32>, r: Seq<u32>, cap: nat, a: u32, b: u32)
    requires
        l.len() == r.len(),
    ensures
        push_model(l, cap, a).len() == push_model(r, cap, b).len(),
{
}

/// Window law: once a window of positive capacity is exactly full, every
/// further push leaves it exactly full.
pub proof fn lemma_full_window_stays_full(s: Seq<u32>, cap: nat, v: u32)
    requires
        cap > 0,
        s.len() == cap,
    ensures
        push_model(s, cap, v).len() == cap,
{
}

/// Window invariant over a whole run: once a window of positive capacity is
/// exactly full — as it is right after the initial fill — recording any
/// sequence of values leaves it exactly full, at every step and so for all
/// time.
pub proof fn lemma_window_stays_full_over_run(s: Seq<u32>, cap: nat, vs: Seq<u32>)
    requires
        cap > 0,
        s.len() == cap,
    ensures
        push_all_model(s, cap, vs).len() == cap,
    decreases vs.len(),
{
    if vs.len() > 0 {
        lemma_full_window_stays_full(s, cap, vs[0]);
        lemma_window_stays_full_over_run(push_model(s, cap, vs[0]), cap, vs.skip(1));
    }
}

} // verus!
