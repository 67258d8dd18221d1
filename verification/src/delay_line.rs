//! A delay line: a ring of samples in which each sample written comes out
//! again after as many writes as the ring is long.
//!
//! Echo, comb and all-pass filters are built on it. What a sample is, and
//! what is computed from the one that comes out, is the caller's business:
//! the line only keeps them in order.
use vstd::prelude::*;

verus! {

/// What a delay line holds: its cells in storage order and the cursor, the
/// index of the cell that is read and written next.
pub struct Ring<T> {
    pub cells: Seq<T>,
    pub cursor: nat,
}

impl<T> Ring<T> {
    /// The cursor points into the cells; in an empty ring it is zero.
    pub open spec fn wf(self) -> bool {
        if self.cells.len() == 0 {
            self.cursor == 0
        } else {
            self.cursor < self.cells.len()
        }
    }

    /// A ring of `len` cells that all hold `fill`.
    pub open spec fn filled(len: nat, fill: T) -> Ring<T> {
        Ring { cells: Seq::new(len, |i: int| fill), cursor: 0 }
    }

    /// The sample that comes out next; none from an empty ring.
    pub open spec fn front(self) -> Option<T> {
        if self.cells.len() == 0 {
            None
        } else {
            Some(self.cells[self.cursor as int])
        }
    }

    /// After `sample` has been written over the one that came out, and the
    /// cursor has moved on. An empty ring stays as it is.
    pub open spec fn pushed(self, sample: T) -> Ring<T> {
        if self.cells.len() == 0 {
            self
        } else {
            Ring {
                cells: self.cells.update(self.cursor as int, sample),
                cursor: if self.cursor + 1 == self.cells.len() {
                    0
                } else {
                    self.cursor + 1
                },
            }
        }
    }

    /// After all of `samples` have been written, first to last.
    pub open spec fn fed(self, samples: Seq<T>) -> Ring<T>
        decreases samples.len(),
    {
        if samples.len() == 0 {
            self
        } else {
            self.fed(samples.drop_last()).pushed(samples.last())
        }
    }

    /// After a change of length to `len`. The cells keep their place in
    /// storage, new ones hold `fill`, and the cursor goes back to the first
    /// cell. A ring that has that length already stays as it is.
    pub open spec fn resized(self, len: nat, fill: T) -> Ring<T> {
        if len == self.cells.len() {
            self
        } else {
            Ring {
                cells: Seq::new(
                    len,
                    |i: int|
                        if i < self.cells.len() {
                            self.cells[i]
                        } else {
                            fill
                        },
                ),
                cursor: 0,
            }
        }
    }

    /// The samples in the order in which they will come out.
    pub open spec fn contents(self) -> Seq<T> {
        self.cells.subrange(self.cursor as int, self.cells.len() as int) + self.cells.subrange(
            0,
            self.cursor as int,
        )
    }
}

/// A ring buffer of fixed length with one cursor for reading and writing.
pub struct DelayLine<T> {
    buffer: Vec<T>,
    cursor: usize,
}

impl<T> View for DelayLine<T> {
    type V = Ring<T>;

    closed spec fn view(&self) -> Ring<T> {
        Ring { cells: self.buffer@, cursor: self.cursor as nat }
    }
}

impl<T> DelayLine<T> {
    #[verifier::type_invariant]
    spec fn cursor_in_range(self) -> bool {
        self@.wf()
    }
}

impl<T: Copy> DelayLine<T> {
    /// A line of `len` samples, all `fill`.
    pub fn new(len: usize, fill: T) -> (line: Self)
        ensures
            line@ == Ring::filled(len as nat, fill),
            line@.wf(),
    {
        let mut buffer: Vec<T> = Vec::new();
        let mut i: usize = 0;
        while i < len
            invariant
                i <= len,
                buffer.len() == i,
                forall|k: int| 0 <= k < i ==> buffer[k] == fill,
            decreases len - i,
        {
            buffer.push(fill);
            i += 1;
        }
        assert(buffer@ =~= Seq::new(len as nat, |i: int| fill));
        DelayLine { buffer, cursor: 0 }
    }

    /// The number of samples between writing one and reading it back.
    pub fn len(&self) -> (len: usize)
        ensures
            len == self@.cells.len(),
            self@.wf(),
    {
        proof {
            use_type_invariant(self);
        }
        self.buffer.len()
    }

    /// The sample that was written `len()` writes ago.
    pub fn peek(&self) -> (sample: Option<T>)
        ensures
            sample == self@.front(),
            self@.wf(),
    {
        proof {
            use_type_invariant(self);
        }
        if self.buffer.len() == 0 {
            None
        } else {
            Some(self.buffer[self.cursor])
        }
    }

    /// Writes `sample` in the place of the one that `peek` shows, and moves
    /// on to the next.
    pub fn push(&mut self, sample: T)
        ensures
            final(self)@ == old(self)@.pushed(sample),
            final(self)@.wf(),
    {
        proof {
            use_type_invariant(&*self);
        }
        let len: usize = self.buffer.len();
        if len > 0 {
            self.buffer[self.cursor] = sample;
            self.cursor = if self.cursor + 1 == len {
                0
            } else {
                self.cursor + 1
            };
        }
    }

    /// Changes the length to `len`, unless the line has it already: the
    /// samples stay where they are stored, `fill` takes the new places, and
    /// reading starts over at the first.
    pub fn resize(&mut self, len: usize, fill: T)
        ensures
            final(self)@ == old(self)@.resized(len as nat, fill),
            final(self)@.wf(),
    {
        proof {
            use_type_invariant(&*self);
        }
        if len == self.buffer.len() {
            return ;
        }
        let ghost before = self.buffer@;
        let mut buffer: Vec<T> = Vec::new();
        self.cursor = 0;
        std::mem::swap(&mut self.buffer, &mut buffer);
        buffer.truncate(len);
        while buffer.len() < len
            invariant
                buffer.len() <= len,
                buffer.len() == len || buffer.len() >= before.len(),
                forall|k: int|
                    0 <= k < buffer.len() ==> buffer[k] == if k < before.len() {
                        before[k]
                    } else {
                        fill
                    },
            decreases len - buffer.len(),
        {
            buffer.push(fill);
        }
        assert(buffer@ =~= Seq::new(
            len as nat,
            |i: int|
                if i < before.len() {
                    before[i]
                } else {
                    fill
                },
        ));
        std::mem::swap(&mut self.buffer, &mut buffer);
    }
}

/// Writing a sample moves every sample one place towards the exit: the
/// oldest leaves, the new one is last.
pub proof fn law_push_shifts<T>(ring: Ring<T>, sample: T)
    requires
        ring.wf(),
        ring.cells.len() > 0,
    ensures
        ring.front() == Some(ring.contents()[0]),
        ring.pushed(sample).wf(),
        ring.pushed(sample).contents() == ring.contents().drop_first().push(sample),
{
    assert(ring.pushed(sample).contents() =~= ring.contents().drop_first().push(sample));
}

/// The last `count` of `samples`.
pub open spec fn latest<T>(samples: Seq<T>, count: nat) -> Seq<T>
    recommends
        count <= samples.len(),
{
    samples.subrange(samples.len() - count, samples.len() as int)
}

/// Feeding samples keeps the length and the order: what the ring holds
/// afterwards are the last `len` of what it held followed by what was fed.
pub proof fn law_fed_contents<T>(ring: Ring<T>, samples: Seq<T>)
    requires
        ring.wf(),
    ensures
        ring.fed(samples).wf(),
        ring.fed(samples).cells.len() == ring.cells.len(),
        ring.fed(samples).contents() == latest(ring.contents() + samples, ring.cells.len()),
    decreases samples.len(),
{
    if samples.len() == 0 {
        assert(ring.contents() =~= latest(ring.contents() + samples, ring.cells.len()));
    } else {
        let earlier = samples.drop_last();
        let reached = ring.fed(earlier);
        law_fed_contents(ring, earlier);
        if ring.cells.len() > 0 {
            law_push_shifts(reached, samples.last());
            assert(reached.contents().drop_first().push(samples.last()) =~= latest(
                ring.contents() + samples,
                ring.cells.len(),
            ));
        } else {
            assert(ring.fed(samples).contents() =~= latest(
                ring.contents() + samples,
                ring.cells.len(),
            ));
        }
    }
}

/// A sample comes out after exactly as many writes as the line is long:
/// once at least that many samples have been fed, the next to come out is
/// the one fed `len` writes ago.
pub proof fn law_delay<T>(ring: Ring<T>, samples: Seq<T>)
    requires
        ring.wf(),
        0 < ring.cells.len() <= samples.len(),
    ensures
        ring.fed(samples).front() == Some(samples[samples.len() - ring.cells.len()]),
{
    law_fed_contents(ring, samples);
    law_push_shifts(ring.fed(samples), samples[0]);
}

} // verus!
