use vstd::prelude::*;

verus! {

/// Error returned by a push into a saturated queue. A full queue is a normal,
/// expected condition under load: the error is handed back to the caller,
/// which may retry, drop the value, or escalate; nothing is retried here.
#[derive(Copy, Clone, Debug)]
pub struct FullQueueError;

/// Fixed-capacity single-producer/single-consumer ring queue.
///
/// `DEPTH` counts the slots of the backing store, one of which stays
/// permanently unused: the queue holds at most `DEPTH - 1` live elements at a
/// time, and it is empty exactly when the read and write positions coincide.
/// The unused slot is what keeps "empty" and "full" apart.
///
/// Both positions stay below `DEPTH`; a successful operation moves one of
/// them forward by one slot, wrapping at the end of the store, so neither
/// position ever overflows however long the queue lives.
///
/// The abstract content of the queue is a sequence: the live elements in the
/// order they were pushed, oldest first. `push` appends at the back of that
/// sequence and `pop` removes the front, which is the first-in-first-out
/// discipline.
///
/// One thread of control may push and one other may pop. On hardware where
/// producer and consumer run on different cores, the store of the write
/// position must be ordered after the slot write (release), and the load of
/// it before the slot read (acquire); this sequential model keeps the index
/// discipline and leaves that memory ordering to the embedding.
pub struct MessageQueue<T: Default + Copy, const DEPTH: usize> {
    buffer: Vec<T>,
    read_idx: usize,
    write_idx: usize,
}

impl<T: Default + Copy, const DEPTH: usize> View for MessageQueue<T, DEPTH> {
    type V = Seq<T>;

    /// The live elements, oldest first.
    closed spec fn view(&self) -> Seq<T> {
        if self.read_idx <= self.write_idx {
            self.buffer@.subrange(self.read_idx as int, self.write_idx as int)
        } else {
            self.buffer@.subrange(self.read_idx as int, DEPTH as int)
                + self.buffer@.subrange(0, self.write_idx as int)
        }
    }
}

impl<T: Default + Copy, const DEPTH: usize> MessageQueue<T, DEPTH> {
    /// Internal consistency: both positions point into the store, and the
    /// store has been grown far enough to cover every slot a position has
    /// reached. Slots are only ever materialised right before their first
    /// write, so a fresh queue owns no storage yet.
    pub closed spec fn wf(&self) -> bool {
        &&& 1 <= DEPTH
        &&& self.read_idx < DEPTH
        &&& self.write_idx < DEPTH
        &&& self.buffer@.len() <= DEPTH
        &&& self.write_idx <= self.buffer@.len()
        &&& (self.read_idx > self.write_idx ==> self.buffer@.len() == DEPTH)
    }

    /// Room for one more element: the queue may hold at most `DEPTH - 1`.
    pub open spec fn spec_can_push(s: Seq<T>) -> bool {
        s.len() < DEPTH - 1
    }

    /// Builds an empty queue. Every queue of the system is built once, at
    /// startup, before either core touches it.
    pub fn new() -> (q: Self)
        ensures
            q@ == Seq::<T>::empty(),
            1 <= DEPTH ==> q.wf(),
    {
        let q = MessageQueue { buffer: Vec::new(), read_idx: 0, write_idx: 0 };
        proof {
            assert(q@ =~= Seq::<T>::empty());
        }
        q
    }

    /// Appends `data` behind the newest element if a free slot remains;
    /// rejects it with [`FullQueueError`] — changing nothing — if the queue
    /// already holds `DEPTH - 1` elements.
    pub fn push(&mut self, data: T) -> (r: Result<(), FullQueueError>)
        requires
            old(self).wf(),
        ensures
            final(self).wf(),
            Self::spec_can_push(old(self)@) ==> r == Ok::<(), FullQueueError>(())
                && final(self)@ == old(self)@.push(data),
            !Self::spec_can_push(old(self)@) ==> r == Err::<(), FullQueueError>(FullQueueError)
                && *final(self) == *old(self),
    {
        let next: usize = if self.write_idx + 1 == DEPTH { 0 } else { self.write_idx + 1 };
        if next != self.read_idx {
            if self.write_idx < self.buffer.len() {
                self.buffer[self.write_idx] = data;
            } else {
                self.buffer.push(data);
            }
            self.write_idx = next;
            proof {
                assert(final(self)@ =~= old(self)@.push(data));
            }
            Ok(())
        } else {
            Err(FullQueueError)
        }
    }

    /// Removes and returns the oldest element; on an empty queue returns
    /// `None` and leaves the queue exactly as it was, so repeating the call
    /// on an empty queue keeps returning `None` without any effect.
    pub fn pop(&mut self) -> (r: Option<T>)
        requires
            old(self).wf(),
        ensures
            final(self).wf(),
            old(self)@.len() == 0 ==> r == None::<T> && *final(self) == *old(self),
            old(self)@.len() > 0 ==> r == Some(old(self)@[0])
                && final(self)@ == old(self)@.subrange(1, old(self)@.len() as int),
    {
        if self.read_idx == self.write_idx {
            None
        } else {
            let value: T = self.buffer[self.read_idx];
            self.read_idx = if self.read_idx + 1 == DEPTH { 0 } else { self.read_idx + 1 };
            proof {
                assert(old(self)@.len() > 0);
                assert(final(self)@ =~= old(self)@.subrange(1, old(self)@.len() as int));
            }
            Some(value)
        }
    }

    /// How many elements are held right now.
    pub fn len(&self) -> (n: usize)
        requires
            self.wf(),
        ensures
            n == self@.len(),
    {
        if self.write_idx >= self.read_idx {
            self.write_idx - self.read_idx
        } else {
            DEPTH - self.read_idx + self.write_idx
        }
    }

    /// Occupancy bound: a well-formed queue never holds more than
    /// `DEPTH - 1` elements — the one slot of headroom is never spent.
    pub proof fn lemma_len_bound(&self)
        requires
            self.wf(),
        ensures
            self@.len() <= DEPTH - 1,
    {
    }

    /// First in, first out, across the two operations. `push` appends at
    /// the back of the view and `pop` removes its front, so an element
    /// pushed onto a queue holding `s` is returned only after every element
    /// of `s` has been popped: the next pop still returns the oldest
    /// element of `s`, and the new element keeps its place at the back.
    pub proof fn lemma_push_then_pop_is_fifo(s: Seq<T>, x: T)
        requires
            Self::spec_can_push(s),
        ensures
            s.len() == 0 ==> s.push(x)[0] == x,
            s.len() > 0 ==> s.push(x)[0] == s[0],
            s.len() > 0 ==> s.push(x).subrange(1, (s.len() + 1) as int) == s.subrange(
                1,
                s.len() as int,
            ).push(x),
    {
        if s.len() > 0 {
            assert(s.push(x).subrange(1, (s.len() + 1) as int) =~= s.subrange(
                1,
                s.len() as int,
            ).push(x));
        }
    }

    /// A queue that has just rejected a push is re-enabled by a single pop:
    /// the full queue admits no element, and dropping its oldest element
    /// frees exactly one slot, so the same push then succeeds.
    pub proof fn lemma_pop_reenables_push(s: Seq<T>)
        requires
            s.len() == DEPTH - 1,
            2 <= DEPTH,
        ensures
            !Self::spec_can_push(s),
            Self::spec_can_push(s.subrange(1, s.len() as int)),
    {
    }
}

impl<T: Default + Copy, const DEPTH: usize> Default for MessageQueue<T, DEPTH> {
    /// Same as [`MessageQueue::new`]: an empty queue.
    fn default() -> (q: Self)
        ensures
            q@ == Seq::<T>::empty(),
            1 <= DEPTH ==> q.wf(),
    {
        Self::new()
    }
}

} // verus!
