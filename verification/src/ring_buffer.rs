//! A fixed-capacity history of samples, newest first.
//!
//! The newest value sits at index 0; pushing shifts the older ones back and
//! drops whatever falls beyond the capacity. The buffer is a plain `Vec`, so
//! the whole history is one contiguous slice.
use vstd::prelude::*;

verus! {

/// A history that keeps at most `capacity` values, newest first.
#[derive(Debug)]
pub struct RingBuffer<T> {
    data: Vec<T>,
    capacity: usize,
}

impl<T> View for RingBuffer<T> {
    type V = Seq<T>;

    /// The values held, newest first.
    closed spec fn view(&self) -> Seq<T> {
        self.data@
    }
}

impl<T: Clone> Clone for RingBuffer<T> {
    /// A buffer with the same capacity holding a clone of each value.
    fn clone(&self) -> (c: Self)
        ensures
            c.cap() == self.cap(),
            c@.len() == self@.len(),
            forall|i: int| 0 <= i < self@.len() ==> cloned::<T>(self@[i], c@[i]),
    {
        proof {
            use_type_invariant(self);
        }
        RingBuffer { data: self.data.clone(), capacity: self.capacity }
    }
}

/// The history after pushing `value` onto `history` with room for `capacity`
/// values: `value` first, then the older values, cut to `capacity`.
pub open spec fn pushed<T>(history: Seq<T>, value: T, capacity: nat) -> Seq<T> {
    let longer = seq![value] + history;
    if longer.len() <= capacity {
        longer
    } else {
        longer.take(capacity as int)
    }
}

/// Pushing puts `value` first and keeps the older values behind it, in
/// order, while the history holds no more than `capacity` values.
pub proof fn lemma_push_newest_first<T>(history: Seq<T>, value: T, capacity: nat)
    requires
        history.len() <= capacity,
    ensures
        pushed(history, value, capacity).len() == if history.len() < capacity {
            history.len() + 1
        } else {
            capacity
        },
        capacity > 0 ==> pushed(history, value, capacity)[0] == value,
        forall|i: int|
            0 <= i < pushed(history, value, capacity).len() - 1 ==> #[trigger] pushed(
                history,
                value,
                capacity,
            )[i + 1] == history[i],
{
    let longer = seq![value] + history;
    assert forall|i: int| 0 <= i < pushed(history, value, capacity).len() - 1 implies #[trigger] pushed(
        history,
        value,
        capacity,
    )[i + 1] == history[i] by {
        assert(longer[i + 1] == history[i]);
    }
}

impl<T> RingBuffer<T> {
    /// The capacity this buffer was made with.
    pub closed spec fn cap(&self) -> nat {
        self.capacity as nat
    }

    /// A buffer holds no more values than its capacity.
    #[verifier::type_invariant]
    spec fn within_capacity(&self) -> bool {
        self.data@.len() <= self.capacity
    }

    /// An empty buffer that keeps up to `capacity` values.
    pub fn new(capacity: usize) -> (rb: Self)
        ensures
            rb@ == Seq::<T>::empty(),
            rb.cap() == capacity,
    {
        RingBuffer { data: Vec::with_capacity(capacity), capacity }
    }

    /// Records `value` as the newest sample, dropping the oldest one when the
    /// buffer is full.
    pub fn push(&mut self, value: T)
        ensures
            final(self)@ == pushed(old(self)@, value, old(self).cap()),
            final(self).cap() == old(self).cap(),
            final(self)@.len() <= final(self).cap(),
    {
        proof {
            use_type_invariant(&*self);
        }
        let capacity = self.capacity;
        let mut data: Vec<T> = Vec::new();
        std::mem::swap(&mut data, &mut self.data);
        data.insert(0, value);
        data.truncate(capacity);
        assert(data@ =~= pushed(old(self)@, value, capacity as nat));
        self.data = data;
    }

    /// The values held, newest first.
    pub fn as_slice(&self) -> (s: &[T])
        ensures
            s@ == self@,
    {
        self.data.as_slice()
    }

    /// How many values are held.
    pub fn len(&self) -> (n: usize)
        ensures
            n == self@.len(),
            n <= self.cap(),
    {
        proof {
            use_type_invariant(self);
        }
        self.data.len()
    }

    /// Whether no value is held.
    pub fn is_empty(&self) -> (b: bool)
        ensures
            b == (self@.len() == 0),
    {
        self.data.is_empty()
    }

    /// The most values this buffer keeps.
    pub fn capacity(&self) -> (c: usize)
        ensures
            c == self.cap(),
    {
        self.capacity
    }

    /// Drops every value held; the capacity stays.
    pub fn clear(&mut self)
        ensures
            final(self)@ == Seq::<T>::empty(),
            final(self).cap() == old(self).cap(),
    {
        let mut data: Vec<T> = Vec::new();
        std::mem::swap(&mut data, &mut self.data);
        data.clear();
        self.data = data;
    }
}

} // verus!
