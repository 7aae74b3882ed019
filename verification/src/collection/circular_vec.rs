//! A ring of a fixed number of slots that keeps the newest elements of a
//! stream and gives up the oldest when it is full.

use vstd::prelude::*;

verus! {

/// A ring that holds up to its capacity of elements, the oldest first.
/// It serves to keep the last values of something measured at intervals,
/// or the last lines that a process wrote.
pub struct CircularVec<T> {
    vec: Vec<Option<T>>,
    head: usize,
    tail: usize,
}

/// A walk over the elements of a ring, the oldest first.
pub struct CircularVecIter<'a, T> {
    source: &'a CircularVec<T>,
    index: usize,
}

/// The slot after `slot` in a ring of `capacity` slots: the first slot
/// follows the last.
pub open spec fn spec_slot_after(slot: nat, capacity: nat) -> nat {
    if slot + 1 == capacity {
        0
    } else {
        slot + 1
    }
}

impl<T> View for CircularVec<T> {
    type V = Seq<T>;

    /// The elements, the oldest first.
    closed spec fn view(&self) -> Seq<T> {
        Seq::new(self.count(), |i: int| self.vec@[self.slot(i)]->Some_0)
    }
}

impl<T> CircularVec<T> {
    /// The slot of element `i`, counted from the oldest.
    spec fn slot(&self, i: int) -> int {
        if self.tail + i < self.vec@.len() {
            self.tail + i
        } else {
            self.tail + i - self.vec@.len()
        }
    }

    /// The place of slot `j`, counted from the slot of the oldest element.
    spec fn place(&self, j: int) -> int {
        if j >= self.tail {
            j - self.tail
        } else {
            j + self.vec@.len() - self.tail
        }
    }

    /// The number of elements.
    spec fn count(&self) -> nat {
        if self.head == self.tail {
            if self.vec@.len() > 0 && self.vec@[self.tail as int] is Some {
                self.vec@.len()
            } else {
                0
            }
        } else if self.tail < self.head {
            (self.head - self.tail) as nat
        } else {
            (self.vec@.len() - self.tail + self.head) as nat
        }
    }

    /// The number of slots.
    pub closed spec fn spec_capacity(&self) -> nat {
        self.vec@.len()
    }

    /// The slot of the oldest element, or of the next one to come where
    /// the ring is empty.
    pub closed spec fn spec_start(&self) -> nat {
        self.tail as nat
    }

    /// The ring is sound: the elements stand in the slots from the start
    /// on, around the end of the storage, and no other slot holds
    /// anything.
    pub closed spec fn spec_well_formed(&self) -> bool {
        &&& (self.vec@.len() == 0 ==> self.head == 0 && self.tail == 0)
        &&& (self.vec@.len() > 0 ==> self.head < self.vec@.len() && self.tail < self.vec@.len())
        &&& forall|j: int|
            0 <= j < self.vec@.len() ==> ((#[trigger] self.vec@[j]) is Some <==> self.place(j)
                < self.count())
    }

    /// What `len` reports: the number of elements while they do not
    /// reach the end of the storage, and the capacity else.
    pub open spec fn spec_reported_len(&self) -> nat {
        if 0 < self@.len() && self.spec_start() + self@.len() < self.spec_capacity() {
            self@.len()
        } else {
            self.spec_capacity()
        }
    }

    /// What a sound ring is made of: no more elements than slots, and a
    /// start among the slots.
    pub proof fn lemma_bounds(&self)
        requires
            self.spec_well_formed(),
        ensures
            self@.len() <= self.spec_capacity(),
            self.spec_capacity() > 0 ==> self.spec_start() < self.spec_capacity(),
            self.spec_capacity() == 0 ==> self.spec_start() == 0,
    {
    }

    /// An empty ring with `size` slots.
    pub fn new(size: usize) -> (ring: Self)
        ensures
            ring.spec_well_formed(),
            ring@ == Seq::<T>::empty(),
            ring.spec_capacity() == size,
            ring.spec_start() == 0,
    {
        let mut vec: Vec<Option<T>> = Vec::with_capacity(size);
        let mut n: usize = 0;
        while n < size
            invariant
                n <= size,
                vec@.len() == n,
                forall|j: int| 0 <= j < n ==> (#[trigger] vec@[j]) is None,
            decreases size - n,
        {
            vec.push(None);
            n = n + 1;
        }
        let ring = Self { vec, head: 0, tail: 0 };
        assert(ring@ =~= Seq::<T>::empty());
        ring
    }

    #[inline]
    fn advance_head(&mut self)
        requires
            old(self).head < old(self).vec@.len(),
        ensures
            final(self).vec == old(self).vec,
            final(self).tail == old(self).tail,
            final(self).head == (if old(self).head + 1 == old(self).vec@.len() {
                0
            } else {
                old(self).head + 1
            }),
    {
        let cap: usize = self.vec.len();
        let head: usize = self.head;
        if head + 1 == cap {
            self.head = 0;
        } else {
            self.head += 1;
        }
    }

    #[inline]
    fn advance_tail(&mut self)
        requires
            old(self).tail < old(self).vec@.len(),
        ensures
            final(self).vec == old(self).vec,
            final(self).head == old(self).head,
            final(self).tail == (if old(self).tail + 1 == old(self).vec@.len() {
                0
            } else {
                old(self).tail + 1
            }),
    {
        let cap: usize = self.vec.len();
        let tail: usize = self.tail;
        if tail + 1 == cap {
            self.tail = 0;
        } else {
            self.tail += 1;
        }
    }

    /// Appends an element. A full ring gives up its oldest element for
    /// it, and that element is returned.
    #[verifier::rlimit(50)]
    pub fn push(&mut self, item: T) -> (last: Option<T>)
        requires
            old(self).spec_well_formed(),
            old(self).spec_capacity() > 0,
        ensures
            final(self).spec_well_formed(),
            final(self).spec_capacity() == old(self).spec_capacity(),
            old(self)@.len() == old(self).spec_capacity() ==> {
                &&& last == Some(old(self)@[0])
                &&& final(self)@ == old(self)@.skip(1).push(item)
                &&& final(self).spec_start() == spec_slot_after(
                    old(self).spec_start(),
                    old(self).spec_capacity(),
                )
            },
            old(self)@.len() < old(self).spec_capacity() ==> {
                &&& last is None
                &&& final(self)@ == old(self)@.push(item)
                &&& final(self).spec_start() == old(self).spec_start()
            },
    {
        let head: usize = self.head;
        let mut slot: Option<T> = Some(item);
        core::mem::swap(&mut self.vec[head], &mut slot);
        let last = slot;
        // Head and tail meet in an empty and in a full ring; the slot
        // that was there tells one from the other.
        if self.head == self.tail && last.is_some() {
            self.advance_tail();
        }
        self.advance_head();
        proof {
            let before = *old(self);
            let after = *self;
            let cap = before.vec@.len() as int;
            assert(after.vec@ == before.vec@.update(head as int, Some(item)));
            if before.count() == cap {
                assert(before.place(head as int) < before.count());
                assert(after.count() == cap);
                assert forall|j: int| 0 <= j < cap implies ((#[trigger] after.vec@[j]) is Some
                    <==> after.place(j) < after.count()) by {
                    assert(before.vec@[j] is Some <==> before.place(j) < before.count());
                }
                assert(after@ =~= before@.skip(1).push(item)) by {
                    assert forall|i: int| 0 <= i < cap implies after@[i] == before@.skip(1).push(
                        item,
                    )[i] by {
                        if i < cap - 1 {
                            assert(after.slot(i) == before.slot(i + 1));
                        }
                    }
                }
            } else {
                assert(before.place(head as int) == before.count());
                assert(after.count() == before.count() + 1) by {
                    if after.head == after.tail {
                        assert(before.vec@[before.tail as int] is Some <==> before.place(
                            before.tail as int,
                        ) < before.count());
                    }
                }
                assert forall|j: int| 0 <= j < cap implies ((#[trigger] after.vec@[j]) is Some
                    <==> after.place(j) < after.count()) by {
                    assert(before.vec@[j] is Some <==> before.place(j) < before.count());
                }
                assert(after@ =~= before@.push(item)) by {
                    assert forall|i: int| 0 <= i < before.count() + 1 implies after@[i]
                        == before@.push(item)[i] by {
                        assert(after.slot(i) == before.slot(i));
                    }
                }
            }
        }
        last
    }

    /// Takes the oldest element out, if there is one.
    #[verifier::rlimit(50)]
    pub fn pop(&mut self) -> (oldest: Option<T>)
        requires
            old(self).spec_well_formed(),
            old(self).spec_capacity() > 0,
        ensures
            final(self).spec_well_formed(),
            final(self).spec_capacity() == old(self).spec_capacity(),
            old(self)@.len() == 0 ==> {
                &&& oldest is None
                &&& final(self)@ == old(self)@
                &&& final(self).spec_start() == old(self).spec_start()
            },
            old(self)@.len() > 0 ==> {
                &&& oldest == Some(old(self)@[0])
                &&& final(self)@ == old(self)@.skip(1)
                &&& final(self).spec_start() == spec_slot_after(
                    old(self).spec_start(),
                    old(self).spec_capacity(),
                )
            },
    {
        let head: usize = self.head;
        let tail: usize = self.tail;
        let ghost before = *self;
        let ghost cap = before.vec@.len() as int;
        assert(before.vec@[tail as int] is Some <==> before.place(tail as int) < before.count());
        let oldest = self.vec[tail].take();
        if head == tail {
            if oldest.is_some() {
                self.advance_tail();
            } else {
                assert(self.vec@ =~= before.vec@);
                assert(self@ =~= before@);
                return oldest;
            }
        } else {
            self.advance_tail();
        }
        proof {
            let after = *self;
            assert(after.vec@ == before.vec@.update(tail as int, None));
            assert(after.count() == before.count() - 1) by {
                if after.head == after.tail {
                    assert(before.vec@[after.tail as int] is Some <==> before.place(
                        after.tail as int,
                    ) < before.count());
                }
            }
            assert forall|j: int| 0 <= j < cap implies ((#[trigger] after.vec@[j]) is Some
                <==> after.place(j) < after.count()) by {
                assert(before.vec@[j] is Some <==> before.place(j) < before.count());
            }
            assert(after@ =~= before@.skip(1)) by {
                assert forall|i: int| 0 <= i < before.count() - 1 implies after@[i]
                    == before@.skip(1)[i] by {
                    assert(after.slot(i) == before.slot(i + 1));
                }
            }
        }
        oldest
    }

    /// The length that the ring reports: the number of its elements
    /// while they do not reach the end of the storage, and its capacity
    /// else.
    pub fn len(&self) -> (r: usize)
        requires
            self.spec_well_formed(),
        ensures
            r == self.spec_reported_len(),
    {
        let head: usize = self.head;
        let tail: usize = self.tail;
        proof {
            if self.vec@.len() > 0 {
                assert(self.vec@[tail as int] is Some <==> self.place(tail as int)
                    < self.count());
            }
        }
        if tail < head {
            head - tail
        } else {
            self.vec.len()
        }
    }

    /// Whether the ring holds nothing.
    pub fn is_empty(&self) -> (r: bool)
        requires
            self.spec_well_formed(),
            self.spec_capacity() > 0,
        ensures
            r == (self@.len() == 0),
    {
        assert(self.vec@[self.tail as int] is Some <==> self.place(self.tail as int)
            < self.count());
        self.vec[self.tail].is_none()
    }

    /// Whether every slot of the ring holds an element.
    pub fn is_full(&self) -> (r: bool)
        requires
            self.spec_well_formed(),
            self.spec_capacity() > 0,
        ensures
            r == (self@.len() == self.spec_capacity()),
    {
        let head: usize = self.head;
        let tail: usize = self.tail;
        head == tail && self.vec[tail].is_some()
    }

    /// Takes all elements out, the oldest first.
    pub fn take(&mut self) -> (items: Vec<T>)
        requires
            old(self).spec_well_formed(),
        ensures
            final(self).spec_well_formed(),
            final(self).spec_capacity() == old(self).spec_capacity(),
            items@ == old(self)@,
            final(self)@ == Seq::<T>::empty(),
    {
        let reported: usize = self.len();
        if reported == 0 {
            assert(self@ =~= Seq::<T>::empty());
            return Vec::new();
        }
        let mut items: Vec<T> = Vec::with_capacity(reported);
        let ghost all = self@;
        loop
            invariant
                self.spec_well_formed(),
                self.spec_capacity() == old(self).spec_capacity(),
                self.spec_capacity() > 0,
                all == old(self)@,
                items@ + self@ == all,
            ensures
                items@ == all,
                self@ == Seq::<T>::empty(),
                self.spec_well_formed(),
                self.spec_capacity() == old(self).spec_capacity(),
            decreases self@.len(),
        {
            let ghost left = self@;
            let ghost taken = items@;
            match self.pop() {
                Some(item) => {
                    items.push(item);
                    assert(items@ + self@ =~= taken + left);
                },
                None => {
                    assert(taken + left =~= taken);
                    assert(self@ =~= Seq::<T>::empty());
                    break ;
                },
            }
        }
        items
    }

    /// A walk over the elements, the oldest first.
    pub fn iter(&self) -> (walk: CircularVecIter<'_, T>)
        ensures
            walk.spec_source() == self,
            walk.spec_index() == 0,
    {
        CircularVecIter { source: self, index: 0 }
    }
}

impl<'a, T> CircularVecIter<'a, T> {
    /// The ring that is walked over.
    pub closed spec fn spec_source(&self) -> &'a CircularVec<T> {
        self.source
    }

    /// The number of steps taken.
    pub closed spec fn spec_index(&self) -> nat {
        self.index as nat
    }

    /// The next element. The walk goes on for the length that the ring
    /// reports, and gives nothing from the end of the elements on.
    pub fn next(&mut self) -> (item: Option<&'a T>)
        requires
            old(self).spec_source().spec_well_formed(),
        ensures
            final(self).spec_source() == old(self).spec_source(),
            old(self).spec_index() < old(self).spec_source()@.len() ==> {
                &&& item == Some(&old(self).spec_source()@[old(self).spec_index() as int])
                &&& final(self).spec_index() == old(self).spec_index() + 1
            },
            old(self).spec_index() >= old(self).spec_source()@.len() ==> {
                &&& item is None
                &&& final(self).spec_index() == (if old(self).spec_index() < old(
                    self,
                ).spec_source().spec_reported_len() {
                    old(self).spec_index() + 1
                } else {
                    old(self).spec_index()
                })
            },
    {
        let source: &'a CircularVec<T> = self.source;
        let reported: usize = source.len();
        if self.index >= reported {
            proof {
                if source.vec@.len() > 0 {
                    assert(source.vec@[source.tail as int] is Some <==> source.place(
                        source.tail as int,
                    ) < source.count());
                }
            }
            None
        } else {
            let index: usize = self.index;
            self.index += 1;
            let cap: usize = source.vec.len();
            let at: usize = if index < cap - source.tail {
                source.tail + index
            } else {
                index - (cap - source.tail)
            };
            assert(source.vec@[at as int] is Some <==> source.place(at as int) < source.count());
            assert(at == source.slot(index as int));
            source.vec[at].as_ref()
        }
    }

    /// The elements that the walk has not passed yet, in a vector.
    pub fn collect(self) -> (items: Vec<&'a T>)
        requires
            self.spec_source().spec_well_formed(),
        ensures
            self.spec_index() <= self.spec_source()@.len() ==> items@.len()
                == self.spec_source()@.len() - self.spec_index(),
            self.spec_index() > self.spec_source()@.len() ==> items@.len() == 0,
            forall|i: int|
                0 <= i < items@.len() ==> *(#[trigger] items@[i]) == self.spec_source()@[self.spec_index()
                    + i],
    {
        let mut walk = self;
        let mut items: Vec<&'a T> = Vec::new();
        let ghost start = self.spec_index();
        let ghost all = self.spec_source()@;
        loop
            invariant_except_break
                walk.spec_index() == start + items@.len(),
                start <= all.len() ==> walk.spec_index() <= all.len(),
            invariant
                walk.spec_source() == self.spec_source(),
                walk.spec_source().spec_well_formed(),
                all == self.spec_source()@,
                start == self.spec_index(),
                start > all.len() ==> items@.len() == 0,
                forall|i: int| 0 <= i < items@.len() ==> *(#[trigger] items@[i]) == all[start + i],
            ensures
                start <= all.len() ==> items@.len() == all.len() - start,
                start > all.len() ==> items@.len() == 0,
                forall|i: int| 0 <= i < items@.len() ==> *(#[trigger] items@[i]) == all[start + i],
            decreases all.len() - walk.spec_index(),
        {
            match walk.next() {
                Some(item) => {
                    items.push(item);
                },
                None => {
                    break ;
                },
            }
        }
        items
    }
}

} // verus!
