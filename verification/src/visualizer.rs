//! The buffer that the visualizer reads: the most recent samples that went
//! to the output, oldest first.
use crate::delay_line::latest;
use std::collections::VecDeque;
use vstd::prelude::*;

verus! {

/// The number of samples that the player keeps for the visualizer.
pub const VISUALIZER_CAPACITY: usize = 4096;

/// The most that a buffer of the given capacity ever holds. A buffer of
/// capacity zero still keeps the last sample.
pub open spec fn room(capacity: nat) -> nat {
    if capacity == 0 {
        1
    } else {
        capacity
    }
}

/// `held` after `sample` has come in: the oldest sample makes room if the
/// buffer is full.
pub open spec fn admitted<T>(held: Seq<T>, capacity: nat, sample: T) -> Seq<T> {
    if held.len() >= capacity && held.len() > 0 {
        held.drop_first().push(sample)
    } else {
        held.push(sample)
    }
}

/// `held` after all of `samples` have come in, first to last.
pub open spec fn admitted_all<T>(held: Seq<T>, capacity: nat, samples: Seq<T>) -> Seq<T>
    decreases samples.len(),
{
    if samples.len() == 0 {
        held
    } else {
        admitted(admitted_all(held, capacity, samples.drop_last()), capacity, samples.last())
    }
}

/// A bounded buffer of samples that overwrites its oldest.
pub struct VisualizerBuffer<T> {
    samples: VecDeque<T>,
    capacity: usize,
}

impl<T> View for VisualizerBuffer<T> {
    type V = Seq<T>;

    closed spec fn view(&self) -> Seq<T> {
        self.samples@
    }
}

impl<T> VisualizerBuffer<T> {
    #[verifier::type_invariant]
    spec fn bounded(self) -> bool {
        self.samples@.len() <= room(self.capacity as nat)
    }

    /// The capacity that the buffer was made with.
    pub closed spec fn spec_capacity(&self) -> usize {
        self.capacity
    }
}

impl<T: Copy> VisualizerBuffer<T> {
    /// An empty buffer for `capacity` samples.
    pub fn new(capacity: usize) -> (buffer: Self)
        ensures
            buffer@ == Seq::<T>::empty(),
            buffer.spec_capacity() == capacity,
    {
        VisualizerBuffer { samples: VecDeque::new(), capacity }
    }

    /// The capacity that the buffer was made with.
    pub fn capacity(&self) -> (capacity: usize)
        ensures
            capacity == self.spec_capacity(),
    {
        self.capacity
    }

    /// The number of samples held, never more than there is room for.
    pub fn len(&self) -> (len: usize)
        ensures
            len == self@.len(),
            len <= room(self.spec_capacity() as nat),
    {
        proof {
            use_type_invariant(self);
        }
        self.samples.len()
    }

    /// Takes `sample` in, dropping the oldest if the buffer is full.
    pub fn push(&mut self, sample: T)
        ensures
            final(self)@ == admitted(old(self)@, old(self).spec_capacity() as nat, sample),
            final(self).spec_capacity() == old(self).spec_capacity(),
            final(self)@.len() <= room(old(self).spec_capacity() as nat),
    {
        proof {
            use_type_invariant(&*self);
        }
        let mut samples: VecDeque<T> = VecDeque::new();
        std::mem::swap(&mut self.samples, &mut samples);
        if samples.len() >= self.capacity {
            let _ = samples.pop_front();
        }
        samples.push_back(sample);
        std::mem::swap(&mut self.samples, &mut samples);
    }

    /// A copy of the samples held, oldest first.
    pub fn get_samples(&self) -> (copy: Vec<T>)
        ensures
            copy@ == self@,
    {
        let mut copy: Vec<T> = Vec::new();
        let mut i: usize = 0;
        while i < self.samples.len()
            invariant
                i <= self.samples.len(),
                copy@ == self.samples@.subrange(0, i as int),
            decreases self.samples.len() - i,
        {
            copy.push(self.samples[i]);
            assert(self.samples@.subrange(0, i as int).push(self.samples@[i as int])
                =~= self.samples@.subrange(0, i + 1));
            i += 1;
        }
        assert(self.samples@.subrange(0, i as int) =~= self.samples@);
        copy
    }

    /// Forgets every sample.
    pub fn clear(&mut self)
        ensures
            final(self)@ == Seq::<T>::empty(),
            final(self).spec_capacity() == old(self).spec_capacity(),
    {
        let mut samples: VecDeque<T> = VecDeque::new();
        std::mem::swap(&mut self.samples, &mut samples);
    }
}

/// The buffer never holds more than there is room for, and what it holds
/// after any run of samples are the most recent ones, in the order in which
/// they came.
pub proof fn law_keeps_latest<T>(held: Seq<T>, capacity: nat, samples: Seq<T>)
    requires
        held.len() <= room(capacity),
    ensures
        admitted_all(held, capacity, samples).len() <= room(capacity),
        admitted_all(held, capacity, samples).len() == if held.len() + samples.len() <= room(
            capacity,
        ) {
            held.len() + samples.len()
        } else {
            room(capacity)
        },
        admitted_all(held, capacity, samples) == latest(
            held + samples,
            admitted_all(held, capacity, samples).len(),
        ),
    decreases samples.len(),
{
    if samples.len() == 0 {
        assert(held =~= latest(held + samples, held.len()));
    } else {
        let earlier = samples.drop_last();
        law_keeps_latest(held, capacity, earlier);
        let reached = admitted_all(held, capacity, earlier);
        let next = admitted(reached, capacity, samples.last());
        assert(held + samples =~= (held + earlier).push(samples.last()));
        assert(next =~= latest(held + samples, next.len()));
    }
}

} // verus!
