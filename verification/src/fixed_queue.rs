//! A bounded first-in, first-out buffer that keeps the most recent values.

use vstd::prelude::*;

verus! {

/// What a buffer limited to `capacity` values holds after `value` is appended
/// to `items`: room permitting the value joins the end, otherwise the oldest
/// value leaves to make room for it.
pub open spec fn appended<T>(items: Seq<T>, capacity: nat, value: T) -> Seq<T> {
    if items.len() < capacity {
        items.push(value)
    } else {
        items.drop_first().push(value)
    }
}

/// What such a buffer holds after each of `values` has been appended in
/// turn, starting from `items`.
pub open spec fn extended<T>(items: Seq<T>, capacity: nat, values: Seq<T>) -> Seq<T>
    decreases values.len(),
{
    if values.len() == 0 {
        items
    } else {
        appended(extended(items, capacity, values.drop_last()), capacity, values.last())
    }
}

/// The last `capacity` of `items`, or all of them where there are fewer.
pub open spec fn newest<T>(items: Seq<T>, capacity: nat) -> Seq<T> {
    if items.len() <= capacity {
        items
    } else {
        items.skip(items.len() - capacity)
    }
}

/// However many values are appended, the buffer holds exactly the newest
/// `capacity` of everything it was given, in order of arrival.
pub proof fn lemma_extended_is_newest<T>(items: Seq<T>, capacity: nat, values: Seq<T>)
    requires
        capacity >= 1,
        items.len() <= capacity,
    ensures
        extended(items, capacity, values) == newest(items + values, capacity),
        extended(items, capacity, values).len() <= capacity,
    decreases values.len(),
{
    if values.len() == 0 {
        assert(items + values =~= items);
    } else {
        let earlier = values.drop_last();
        lemma_extended_is_newest(items, capacity, earlier);
        assert((items + earlier).push(values.last()) =~= items + values);
        assert(appended(newest(items + earlier, capacity), capacity, values.last()) =~= newest(
            items + values,
            capacity,
        ));
    }
}

/// A buffer of at most `capacity` values, kept in the order in which they
/// arrived. Its view is the retained values, oldest first.
///
/// The values live in a ring: once the buffer is full, a new value overwrites
/// the oldest one in place, so that reading by position takes constant time.
pub struct FixedQueue<T: Copy> {
    slots: Vec<T>,
    capacity: u32,
    head: usize,
}

impl<T: Copy> View for FixedQueue<T> {
    type V = Seq<T>;

    closed spec fn view(&self) -> Seq<T> {
        self.slots@.subrange(self.head as int, self.slots@.len() as int)
            + self.slots@.subrange(0, self.head as int)
    }
}

impl<T: Copy> FixedQueue<T> {
    #[verifier::type_invariant]
    spec fn well_formed(&self) -> bool {
        &&& self.capacity >= 1
        &&& self.slots@.len() <= self.capacity
        &&& self.head < self.capacity
        &&& self.slots@.len() < self.capacity ==> self.head == 0
    }

    /// The largest number of values that the buffer retains.
    pub closed spec fn spec_capacity(&self) -> u32 {
        self.capacity
    }

    /// An empty buffer that retains up to `capacity` values.
    pub fn new(capacity: u32) -> (queue: Self)
        requires
            capacity >= 1,
        ensures
            queue@ == Seq::<T>::empty(),
            queue.capacity() == capacity,
    {
        FixedQueue { slots: Vec::new(), capacity, head: 0 }
    }

    /// The largest number of values that the buffer retains.
    #[verifier::when_used_as_spec(spec_capacity)]
    pub fn capacity(&self) -> (capacity: u32)
        ensures
            capacity == self.spec_capacity(),
            capacity >= 1,
            self@.len() <= capacity,
    {
        proof {
            use_type_invariant(self);
        }
        self.capacity
    }

    /// The number of values currently retained.
    pub fn size(&self) -> (size: usize)
        ensures
            size == self@.len(),
            size <= self.capacity(),
            self.capacity() >= 1,
    {
        proof {
            use_type_invariant(self);
        }
        self.slots.len()
    }

    /// Appends `value`, discarding the oldest retained value when the buffer
    /// is already full.
    pub fn add(&mut self, value: T)
        ensures
            final(self)@ == appended(old(self)@, old(self).capacity() as nat, value),
            final(self)@.len() <= final(self).capacity(),
            final(self).capacity() == old(self).capacity(),
    {
        proof {
            use_type_invariant(&*self);
        }
        if self.slots.len() < self.capacity as usize {
            // The vector is taken out while it grows, so that the buffer
            // is well formed at every step.
            let mut slots: Vec<T> = Vec::new();
            core::mem::swap(&mut slots, &mut self.slots);
            slots.push(value);
            self.slots = slots;
        } else {
            self.slots[self.head] = value;
            self.head = if self.head + 1 == self.slots.len() {
                0
            } else {
                self.head + 1
            };
        }
    }

    /// The value at `index`, counted from the oldest retained value, or `None`
    /// where `index` is negative or not below the number of retained values.
    pub fn at(&self, index: i64) -> (value: Option<T>)
        ensures
            value == if 0 <= index < self@.len() {
                Some(self@[index as int])
            } else {
                None
            },
    {
        proof {
            use_type_invariant(self);
        }
        let len: usize = self.slots.len();
        if index < 0 || index >= len as i64 {
            return None;
        }
        let offset: usize = index as usize;
        let tail: usize = len - self.head;
        if offset < tail {
            Some(self.slots[self.head + offset])
        } else {
            Some(self.slots[offset - tail])
        }
    }

    /// Discards every retained value; the capacity stays as it is.
    pub fn clear(&mut self)
        ensures
            final(self)@ == Seq::<T>::empty(),
            final(self).capacity() == old(self).capacity(),
    {
        proof {
            use_type_invariant(&*self);
        }
        self.head = 0;
        let mut slots: Vec<T> = Vec::new();
        core::mem::swap(&mut slots, &mut self.slots);
        slots.clear();
        self.slots = slots;
    }
}

} // verus!
