//! Fixed-capacity sliding window of samples with overwrite-oldest semantics,
//! backed by `circular_queue::CircularQueue`.
//!
//! The window's abstract state is a `Seq<u32>` of fixed-point samples in
//! temporal order, oldest first. [`push_model`] says exactly how one push
//! changes that sequence, and every operation on [`SampleBuffer`] is specified
//! against it.

use vstd::prelude::*;
use circular_queue::CircularQueue;
use crate::SAMPLE_SCALE;

verus! {

#[verifier::external_type_specification]
#[verifier::external_body]
#[verifier::reject_recursive_types(T)]
pub struct ExCircularQueue<T>(CircularQueue<T>);

/// The samples a queue currently holds, in temporal order, oldest first.
pub uninterp spec fn ring_contents(q: CircularQueue<u32>) -> Seq<u32>;

/// The fixed capacity the queue was constructed with.
pub uninterp spec fn ring_capacity(q: CircularQueue<u32>) -> nat;

/// How a push changes a queue's contents: append while below capacity, evict
/// the oldest element once full, do nothing at capacity zero.
pub open spec fn push_model(s: Seq<u32>, cap: nat, v: u32) -> Seq<u32> {
    if cap == 0 {
        s
    } else if s.len() < cap {
        s.push(v)
    } else {
        s.skip(1).push(v)
    }
}

/// The contents after pushing each element of `vs`, in order, onto a window
/// whose contents are `s`.
pub open spec fn push_all_model(s: Seq<u32>, cap: nat, vs: Seq<u32>) -> Seq<u32>
    decreases vs.len(),
{
    if vs.len() == 0 {
        s
    } else {
        push_all_model(push_model(s, cap, vs[0]), cap, vs.skip(1))
    }
}

proof fn lemma_push_all_window(s: Seq<u32>, cap: nat, vs: Seq<u32>)
    requires
        cap > 0,
        s.len() <= cap,
    ensures
        push_all_model(s, cap, vs) == if s.len() + vs.len() <= cap {
            s + vs
        } else {
            (s + vs).skip(s.len() + vs.len() - cap)
        },
    decreases vs.len(),
{
    if vs.len() == 0 {
        assert(s + vs =~= s);
    } else {
        let v0 = vs[0];
        let s1 = push_model(s, cap, v0);
        let vs1 = vs.skip(1);
        lemma_push_all_window(s1, cap, vs1);
        if s.len() < cap {
            assert(s1 + vs1 =~= s + vs);
        } else {
            assert(s1 + vs1 =~= (s + vs).skip(1));
            if s1.len() + vs1.len() > cap {
                assert((s + vs).skip(1).skip(s1.len() + vs1.len() - cap) =~= (s + vs).skip(
                    s.len() + vs.len() - cap,
                ));
            }
        }
    }
}

/// Overwrite law: pushing at least `cap` values onto an empty window of
/// positive capacity `cap` leaves exactly the last `cap` values pushed, in
/// push order.
pub proof fn lemma_overwrite(cap: nat, vs: Seq<u32>)
    requires
        cap > 0,
        vs.len() >= cap,
    ensures
        push_all_model(Seq::<u32>::empty(), cap, vs) == vs.skip(vs.len() - cap),
{
    lemma_push_all_window(Seq::<u32>::empty(), cap, vs);
    if vs.len() > cap {
        assert((Seq::<u32>::empty() + vs).skip(vs.len() - cap) =~= vs.skip(vs.len() - cap));
    } else {
        assert(Seq::<u32>::empty() + vs =~= vs.skip(vs.len() - cap));
    }
}

/// Relies on `circular_queue::CircularQueue::with_capacity`: the new queue is
/// empty and keeps at most `capacity` elements.
#[verifier::external_body]
fn ring_with_capacity(capacity: usize) -> (q: CircularQueue<u32>)
    ensures
        ring_contents(q) == Seq::<u32>::empty(),
        ring_capacity(q) == capacity as nat,
{
    CircularQueue::with_capacity(capacity)
}

/// Relies on `circular_queue::CircularQueue::push`: below capacity the value
/// is appended; at capacity the element at the insertion index — the oldest —
/// is replaced; at capacity zero nothing happens.
#[verifier::external_body]
fn ring_push(q: &mut CircularQueue<u32>, v: u32)
    ensures
        ring_capacity(*final(q)) == ring_capacity(*old(q)),
        ring_contents(*final(q)) == push_model(
            ring_contents(*old(q)),
            ring_capacity(*old(q)),
            v,
        ),
{
    q.push(v);
}

/// Relies on `circular_queue::CircularQueue::asc_iter`: it yields the queue's
/// elements from the least recently pushed to the most recent.
#[verifier::external_body]
fn ring_to_vec(q: &CircularQueue<u32>) -> (s: Vec<u32>)
    ensures
        s@ == ring_contents(*q),
{
    q.asc_iter().copied().collect()
}

/// Relies on `circular_queue::CircularQueue::len`: the current number of
/// elements.
#[verifier::external_body]
fn ring_len(q: &CircularQueue<u32>) -> (n: usize)
    ensures
        n as nat == ring_contents(*q).len(),
{
    q.len()
}

/// Relies on `circular_queue::CircularQueue::capacity`: the capacity the
/// queue was constructed with.
#[verifier::external_body]
fn ring_capacity_exec(q: &CircularQueue<u32>) -> (c: usize)
    ensures
        c as nat == ring_capacity(*q),
{
    q.capacity()
}

/// One channel's sliding window of fixed-point pressure samples.
///
/// Append-only: a push onto a full window evicts the oldest sample. The
/// abstract view is the held samples in temporal order, oldest first.
pub struct SampleBuffer {
    ring: CircularQueue<u32>,
}

impl View for SampleBuffer {
    type V = Seq<u32>;

    closed spec fn view(&self) -> Seq<u32> {
        ring_contents(self.ring)
    }
}

impl SampleBuffer {
    /// The fixed capacity this window was created with.
    pub closed spec fn spec_capacity(&self) -> nat {
        ring_capacity(self.ring)
    }

    /// Well-formed: positive capacity, never holding more than the capacity,
    /// and every sample a normalized pressure, at most `SAMPLE_SCALE`.
    pub open spec fn wf(&self) -> bool {
        &&& self.spec_capacity() > 0
        &&& self@.len() <= self.spec_capacity()
        &&& forall|i: int| 0 <= i < self@.len() ==> self@[i] <= SAMPLE_SCALE
    }

    /// An empty window that will hold at most `capacity` samples.
    pub fn with_capacity(capacity: usize) -> (b: SampleBuffer)
        requires
            capacity > 0,
        ensures
            b.wf(),
            b.spec_capacity() == capacity as nat,
            b@ == Seq::<u32>::empty(),
    {
        SampleBuffer { ring: ring_with_capacity(capacity) }
    }

    /// Appends `v`; once the window is full, the oldest sample is evicted
    /// first. Never fails.
    pub fn push(&mut self, v: u32)
        requires
            old(self).wf(),
            v <= SAMPLE_SCALE,
        ensures
            final(self).wf(),
            final(self).spec_capacity() == old(self).spec_capacity(),
            final(self)@ == push_model(old(self)@, old(self).spec_capacity(), v),
            final(self)@.len() == if old(self)@.len() < old(self).spec_capacity() {
                old(self)@.len() + 1
            } else {
                old(self)@.len()
            },
            final(self)@.last() == v,
    {
        ring_push(&mut self.ring, v);
    }

    /// An owned copy of the current contents in temporal order, oldest first.
    pub fn snapshot(&self) -> (s: Vec<u32>)
        ensures
            s@ == self@,
    {
        ring_to_vec(&self.ring)
    }

    /// The number of samples currently held.
    pub fn len(&self) -> (n: usize)
        ensures
            n as nat == self@.len(),
    {
        ring_len(&self.ring)
    }

    /// The fixed capacity this window was created with.
    pub fn capacity(&self) -> (c: usize)
        ensures
            c as nat == self.spec_capacity(),
    {
        ring_capacity_exec(&self.ring)
    }
}

} // verus!
