//! Fixed-capacity first-in/first-out buffer of samples.
//!
//! Carries classifier-ready samples from the capture side to the
//! segmentation side.  Both operations return a status immediately:
//! a push on a full buffer fails without touching the contents, a pop
//! on an empty buffer fails likewise, so neither side ever blocks.

use vstd::prelude::*;

verus! {

/// Status of a push on a full buffer: the sample was not taken.
#[derive(Clone, Copy, Debug, PartialEq, Eq, Structural)]
pub struct BufferFull;

/// Status of a pop on an empty buffer: there was nothing to take.
#[derive(Clone, Copy, Debug, PartialEq, Eq, Structural)]
pub struct BufferEmpty;

/// Circular queue of samples with a capacity fixed at construction.
/// The view is the sequence of queued samples, oldest first.
pub struct RingBuffer {
    storage: Vec<i16>,
    head: usize,
    count: usize,
}

impl RingBuffer {
    /// Capacity fixed at construction.
    pub closed spec fn capacity_spec(&self) -> int {
        self.storage@.len() as int
    }

    /// Storage index holding the `i`-th queued sample.
    closed spec fn slot(&self, i: int) -> int {
        if self.head + i < self.storage@.len() {
            self.head + i
        } else {
            self.head + i - self.storage@.len()
        }
    }

    /// The buffer is intact: a non-empty storage block, the head inside
    /// it, and no more queued samples than the capacity.
    pub closed spec fn wf(&self) -> bool {
        &&& self.storage@.len() > 0
        &&& self.head < self.storage@.len()
        &&& self.count <= self.storage@.len()
    }

    /// Creates an empty buffer that can hold `capacity` samples.
    pub fn new(capacity: usize) -> (rb: RingBuffer)
        requires
            capacity > 0,
        ensures
            rb.wf(),
            rb@ == Seq::<i16>::empty(),
            rb.capacity_spec() == capacity,
    {
        let mut storage: Vec<i16> = Vec::new();
        let mut i: usize = 0;
        while i < capacity
            invariant
                i <= capacity,
                storage@.len() == i,
            decreases capacity - i,
        {
            storage.push(0);
            i = i + 1;
        }
        let rb = RingBuffer { storage, head: 0, count: 0 };
        proof {
            assert(rb@ =~= Seq::<i16>::empty());
        }
        rb
    }

    /// Capacity fixed at construction.
    pub fn capacity(&self) -> (c: usize)
        ensures
            c == self.capacity_spec(),
    {
        self.storage.len()
    }

    /// Number of queued samples a consumer could pop right now.
    pub fn available_slots(&self) -> (n: usize)
        ensures
            n == self@.len(),
    {
        self.count
    }

    /// Appends one sample at the back, or reports `BufferFull` leaving
    /// the contents untouched.
    pub fn push(&mut self, sample: i16) -> (r: Result<(), BufferFull>)
        requires
            old(self).wf(),
        ensures
            final(self).wf(),
            final(self).capacity_spec() == old(self).capacity_spec(),
            match r {
                Ok(()) => old(self)@.len() < old(self).capacity_spec() && final(self)@ == old(
                    self,
                )@.push(sample),
                Err(BufferFull) => old(self)@.len() == old(self).capacity_spec() && final(self)@
                    == old(self)@,
            },
    {
        let cap = self.storage.len();
        if self.count == cap {
            return Err(BufferFull);
        }
        let idx = if self.head >= cap - self.count {
            self.head - (cap - self.count)
        } else {
            self.head + self.count
        };
        let slot_ref = &mut self.storage[idx];
        *slot_ref = sample;
        self.count = self.count + 1;
        proof {
            assert(self@ =~= old(self)@.push(sample));
        }
        Ok(())
    }

    /// Removes and returns the oldest sample, or reports `BufferEmpty`.
    pub fn pop(&mut self) -> (r: Result<i16, BufferEmpty>)
        requires
            old(self).wf(),
        ensures
            final(self).wf(),
            final(self).capacity_spec() == old(self).capacity_spec(),
            match r {
                Ok(sample) => old(self)@.len() > 0 && sample == old(self)@[0] && final(self)@
                    == old(self)@.drop_first(),
                Err(BufferEmpty) => old(self)@.len() == 0 && final(self)@ == old(self)@,
            },
    {
        if self.count == 0 {
            proof {
                assert(self@ =~= old(self)@);
            }
            return Err(BufferEmpty);
        }
        let sample = self.storage[self.head];
        self.head = if self.head == self.storage.len() - 1 {
            0
        } else {
            self.head + 1
        };
        self.count = self.count - 1;
        proof {
            assert(self@ =~= old(self)@.drop_first());
        }
        Ok(sample)
    }

    /// Pushes the samples of `block` in order until the buffer is full,
    /// and returns how many were dropped.  The capture side calls this
    /// inside the hardware callback: overflow costs samples, never a
    /// panic and never a wait.
    pub fn push_block(&mut self, block: &Vec<i16>) -> (dropped: usize)
        requires
            old(self).wf(),
        ensures
            final(self).wf(),
            final(self).capacity_spec() == old(self).capacity_spec(),
            dropped <= block@.len(),
            final(self)@ == old(self)@ + block@.take(block@.len() - dropped),
            final(self)@.len() == if old(self)@.len() + block@.len() <= old(
                self,
            ).capacity_spec() {
                old(self)@.len() + block@.len() as int
            } else {
                old(self).capacity_spec()
            },
    {
        let mut i: usize = 0;
        let len = block.len();
        while i < len
            invariant
                self.wf(),
                self.capacity_spec() == old(self).capacity_spec(),
                i <= len,
                block@.len() == len,
                self@ == old(self)@ + block@.take(i as int),
                self@.len() == old(self)@.len() + i,
            ensures
                self.wf(),
                self.capacity_spec() == old(self).capacity_spec(),
                i <= len,
                self@ == old(self)@ + block@.take(i as int),
                self@.len() == old(self)@.len() + i,
                i == len || self@.len() == self.capacity_spec(),
            decreases len - i,
        {
            match self.push(block[i]) {
                Ok(()) => {
                    i = i + 1;
                    proof {
                        assert(self@ =~= old(self)@ + block@.take(i as int));
                    }
                },
                Err(BufferFull) => {
                    break;
                },
            }
        }
        proof {
            if i < len {
                assert(self@.len() == self.capacity_spec());
            }
        }
        len - i
    }

    /// Removes and returns the oldest `n` samples, in order.
    pub fn pop_frame(&mut self, n: usize) -> (frame: Vec<i16>)
        requires
            old(self).wf(),
            n <= old(self)@.len(),
        ensures
            final(self).wf(),
            final(self).capacity_spec() == old(self).capacity_spec(),
            frame@ == old(self)@.take(n as int),
            final(self)@ == old(self)@.skip(n as int),
    {
        let mut frame: Vec<i16> = Vec::new();
        let mut i: usize = 0;
        while i < n
            invariant
                self.wf(),
                self.capacity_spec() == old(self).capacity_spec(),
                i <= n,
                n <= old(self)@.len(),
                frame@ == old(self)@.take(i as int),
                self@ == old(self)@.skip(i as int),
            decreases n - i,
        {
            let r = self.pop();
            match r {
                Ok(sample) => {
                    frame.push(sample);
                },
                Err(BufferEmpty) => {
                    proof {
                        assert(false);
                    }
                },
            }
            i = i + 1;
            proof {
                assert(frame@ =~= old(self)@.take(i as int));
                assert(self@ =~= old(self)@.skip(i as int));
            }
        }
        proof {
            assert(frame@ =~= old(self)@.take(n as int));
            assert(self@ =~= old(self)@.skip(n as int));
        }
        frame
    }
}

impl View for RingBuffer {
    type V = Seq<i16>;

    /// The queued samples, oldest first.
    closed spec fn view(&self) -> Seq<i16> {
        Seq::new(self.count as nat, |i: int| self.storage@[self.slot(i)])
    }
}

/// First-in/first-out law at the level of the view: a buffer holding
/// `held` after samples `arrived` were accepted behind an earlier
/// content holds them in arrival order, so the `i`-th pop past the
/// earlier content returns `arrived[i]`, and popping `n` samples
/// returns a prefix and leaves the matching suffix.
pub proof fn lemma_fifo_order(held: Seq<i16>, arrived: Seq<i16>, n: int)
    requires
        0 <= n <= held.len() + arrived.len(),
    ensures
        forall|i: int| 0 <= i < arrived.len() ==> (held + arrived)[held.len() + i] == arrived[i],
        (held + arrived).take(n) + (held + arrived).skip(n) == held + arrived,
{
    assert((held + arrived).take(n) + (held + arrived).skip(n) =~= held + arrived);
}

} // verus!
