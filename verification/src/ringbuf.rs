//! A bounded sequence that forgets its oldest item when it is full.

use vstd::prelude::*;

verus! {

/// A sequence with one more item at its end. The oldest item goes when there
/// would be more than `capacity`.
pub open spec fn pushed<T>(items: Seq<T>, item: T, capacity: nat) -> Seq<T> {
    if items.len() < capacity {
        items.push(item)
    } else {
        items.drop_first().push(item)
    }
}

/// The last `count` items of a sequence, or all of a shorter one.
pub open spec fn newest<T>(items: Seq<T>, count: nat) -> Seq<T> {
    if items.len() <= count {
        items
    } else {
        items.skip(items.len() - count)
    }
}

/// What becomes of a sequence when more items are pushed one after another.
pub open spec fn pushed_all<T>(items: Seq<T>, more: Seq<T>, capacity: nat) -> Seq<T>
    decreases more.len(),
{
    if more.len() == 0 {
        items
    } else {
        pushed(pushed_all(items, more.drop_last(), capacity), more.last(), capacity)
    }
}

/// A ring holds the newest of all the items that were pushed.
pub proof fn law_newest_stay<T>(items: Seq<T>, more: Seq<T>, capacity: nat)
    requires
        capacity > 0,
        items.len() <= capacity,
    ensures
        pushed_all(items, more, capacity) == newest(items + more, capacity),
    decreases more.len(),
{
    if more.len() == 0 {
        assert(items + more =~= items);
    } else {
        law_newest_stay(items, more.drop_last(), capacity);
        let before = items + more.drop_last();
        assert(items + more =~= before.push(more.last()));
        assert(pushed(newest(before, capacity), more.last(), capacity) =~= newest(
            before.push(more.last()),
            capacity,
        ));
    }
}

/// A bounded sequence of items, oldest first.
///
/// The items stand in a vector that is written around in a circle once it is
/// full.
#[derive(Debug, Clone)]
pub struct Ring<T, const N: usize> {
    items: Vec<T>,
    /// Position of the oldest item.
    head: usize,
}

impl<T, const N: usize> View for Ring<T, N> {
    type V = Seq<T>;

    closed spec fn view(&self) -> Seq<T> {
        self.items@.skip(self.head as int) + self.items@.take(self.head as int)
    }
}

impl<T: Copy, const N: usize> Ring<T, N> {
    /// There is room for an item, no more items than there is room for, and the
    /// circle begins elsewhere than at the front only when it is closed.
    pub closed spec fn wf(self) -> bool {
        &&& 0 < N
        &&& self.items@.len() <= N
        &&& self.head < N
        &&& self.items@.len() < N ==> self.head == 0
    }

    /// A well-formed ring holds no more items than it has room for.
    pub proof fn lemma_bounded(self)
        requires
            self.wf(),
        ensures
            self@.len() <= N,
            0 < N,
    {
    }

    /// Creates an empty ring.
    pub fn new() -> (ring: Self)
        requires
            0 < N,
        ensures
            ring.wf(),
            ring@ == Seq::<T>::empty(),
    {
        let ring = Ring { items: Vec::new(), head: 0 };
        assert(ring@ =~= Seq::<T>::empty());
        ring
    }

    /// The number of items.
    pub fn len(&self) -> (n: usize)
        requires
            self.wf(),
        ensures
            n == self@.len(),
            n <= N,
    {
        self.items.len()
    }

    /// Tells whether there is no item.
    pub fn is_empty(&self) -> (empty: bool)
        requires
            self.wf(),
        ensures
            empty == (self@.len() == 0),
    {
        self.items.len() == 0
    }

    /// The item at a position, counted from the oldest.
    pub fn get(&self, index: usize) -> (item: T)
        requires
            self.wf(),
            index < self@.len(),
        ensures
            item == self@[index as int],
    {
        if index < self.items.len() - self.head {
            self.items[self.head + index]
        } else {
            self.items[index - (self.items.len() - self.head)]
        }
    }

    /// The newest item.
    pub fn last(&self) -> (item: Option<T>)
        requires
            self.wf(),
        ensures
            item is Some <==> self@.len() > 0,
            item matches Some(newest) ==> newest == self@.last(),
    {
        if self.is_empty() {
            None
        } else {
            Some(self.get(self.items.len() - 1))
        }
    }

    /// Adds an item. The oldest one goes if there is no room.
    pub fn push(&mut self, item: T)
        requires
            old(self).wf(),
        ensures
            final(self).wf(),
            final(self)@ == pushed(old(self)@, item, N as nat),
    {
        let ghost before = self.items@;
        let ghost head = self.head as int;
        if self.items.len() < N {
            self.items.push(item);
            assert(self@ =~= old(self)@.push(item));
        } else {
            self.items.set(self.head, item);
            self.head = if self.head + 1 == N { 0 } else { self.head + 1 };
            assert(self@ =~= old(self)@.drop_first().push(item));
        }
    }

    /// Forgets every item.
    pub fn clear(&mut self)
        requires
            old(self).wf(),
        ensures
            final(self).wf(),
            final(self)@ == Seq::<T>::empty(),
    {
        self.items.clear();
        self.head = 0;
        assert(self@ =~= Seq::<T>::empty());
    }

    /// Forgets the oldest items, so that no more than `keep` are left.
    pub fn truncate_front(&mut self, keep: usize)
        requires
            old(self).wf(),
        ensures
            final(self).wf(),
            final(self)@ == newest(old(self)@, keep as nat),
    {
        let total: usize = self.len();
        if total <= keep {
            return;
        }
        let mut kept: Vec<T> = Vec::new();
        let mut n: usize = total - keep;
        while n < total
            invariant
                self.wf(),
                total == self@.len(),
                keep < total,
                total - keep <= n <= total,
                kept@ == self@.subrange(total - keep, n as int),
            decreases total - n,
        {
            kept.push(self.get(n));
            n = n + 1;
            assert(self@.subrange(total - keep, n as int) =~= self@.subrange(
                total - keep,
                n - 1,
            ).push(self@[n - 1]));
        }
        assert(kept@ =~= newest(self@, keep as nat));
        self.items = kept;
        self.head = 0;
        assert(self@ =~= kept@);
    }

    /// Copies the items, oldest first.
    pub fn to_vec(&self) -> (items: Vec<T>)
        requires
            self.wf(),
        ensures
            items@ == self@,
    {
        let total: usize = self.len();
        let mut items: Vec<T> = Vec::new();
        let mut n: usize = 0;
        while n < total
            invariant
                self.wf(),
                total == self@.len(),
                n <= total,
                items@ == self@.take(n as int),
            decreases total - n,
        {
            items.push(self.get(n));
            n = n + 1;
            assert(self@.take(n as int) =~= self@.take(n - 1).push(self@[n - 1]));
        }
        assert(self@.take(n as int) =~= self@);
        items
    }
}

/// The item that is pushed is the last one, and the items before it stay in their
/// order; only the oldest goes, and only if there is no room.
pub proof fn law_pushed_item_is_the_last<T>(items: Seq<T>, item: T, capacity: nat)
    requires
        0 < capacity,
        items.len() <= capacity,
    ensures
        ({
            let after = pushed(items, item, capacity);
            let gone = if items.len() < capacity { 0int } else { 1int };
            &&& after.last() == item
            &&& after.len() == items.len() + 1 - gone
            &&& after.len() <= capacity
            &&& forall|k: int| 0 <= k < items.len() - gone ==> after[k] == items[k + gone]
        }),
{
}

/// The newest items are as many as were asked for, or all if there are fewer, and
/// they are the end of the sequence in its order.
pub proof fn law_newest_are_the_end<T>(items: Seq<T>, count: nat)
    ensures
        newest(items, count).len() == if items.len() <= count { items.len() } else { count },
        forall|k: int|
            0 <= k < newest(items, count).len() ==> #[trigger] newest(items, count)[k]
                == items[items.len() - newest(items, count).len() + k],
{
}

} // verus!
