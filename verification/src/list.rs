//! The buffer: a growable, contiguous sequence container.
//!
//! `List<T>` owns storage for `capacity` element slots of which the first
//! `len` are live; it grows by doubling, pops from the back, and never
//! shrinks its capacity. Converting it into an [`IntoIter`] transfers
//! ownership of the whole contents, which can then be drained from either
//! end.

use vstd::prelude::*;

verus! {

/// A growable, contiguous buffer of elements of type `T`.
///
/// The abstract state (the view) is the sequence of live elements. Alongside
/// it the buffer tracks the number of element slots it has reserved, which
/// only ever grows: zero on construction, one after the first push, and
/// doubled every time a push finds the buffer full.
///
/// Zero-sized element types are not supported: allocation sizing is not
/// meaningful for them under this design. Verified callers of [`List::new`]
/// must instantiate the buffer with a non-zero-sized element type;
/// [`List::try_new`] checks the same condition at run time.
pub struct List<T> {
    elems: Vec<T>,
    capacity: usize,
}

impl<T> View for List<T> {
    type V = Seq<T>;

    closed spec fn view(&self) -> Seq<T> {
        self.elems@
    }
}

impl<T> List<T> {
    /// The number of element slots the buffer has reserved.
    pub closed spec fn spec_capacity(&self) -> nat {
        self.capacity as nat
    }

    /// Validity: the live elements always fit in the reserved slots, and the
    /// element type has a non-zero size.
    pub open spec fn wf(&self) -> bool {
        &&& self@.len() <= self.spec_capacity()
        &&& vstd::layout::size_of::<T>() != 0
    }

    /// Creates an empty buffer: no live elements, no reserved slots.
    pub fn new() -> (list: Self)
        requires
            vstd::layout::size_of::<T>() != 0,
        ensures
            list.wf(),
            list@ == Seq::<T>::empty(),
            list.spec_capacity() == 0,
    {
        List { elems: Vec::new(), capacity: 0 }
    }

    /// Creates an empty buffer, refusing zero-sized element types: returns
    /// `None` exactly when `T` has zero size, and an empty buffer otherwise.
    pub fn try_new() -> (result: Option<Self>)
        ensures
            result is Some <==> vstd::layout::size_of::<T>() != 0,
            result matches Some(list) ==> list.wf() && list@ == Seq::<T>::empty()
                && list.spec_capacity() == 0,
    {
        if core::mem::size_of::<T>() == 0 {
            None
        } else {
            Some(List { elems: Vec::new(), capacity: 0 })
        }
    }

    /// Reserves room for one more element: a full buffer's capacity is
    /// doubled, except that the very first growth reserves exactly one slot.
    fn grow(&mut self)
        requires
            old(self).wf(),
            old(self)@.len() == old(self).spec_capacity(),
            old(self).spec_capacity() <= usize::MAX / 2,
        ensures
            final(self).wf(),
            final(self)@ == old(self)@,
            final(self).spec_capacity() == if old(self).spec_capacity() == 0 {
                1nat
            } else {
                old(self).spec_capacity() * 2
            },
            final(self)@.len() < final(self).spec_capacity(),
    {
        let new_capacity: usize = if self.capacity == 0 {
            1
        } else {
            self.capacity * 2
        };
        self.elems.reserve(new_capacity - self.elems.len());
        self.capacity = new_capacity;
    }

    /// Appends `value` after the current last element, growing first when the
    /// buffer is full. The capacity never decreases, stays unchanged while
    /// room is left, and otherwise follows the doubling policy (with the
    /// first growth reserving exactly one slot).
    ///
    /// Doubling a capacity already above half the address space would
    /// overflow the size arithmetic, a fatal condition; such states are ruled
    /// out up front.
    pub fn push(&mut self, value: T)
        requires
            old(self).wf(),
            old(self)@.len() == old(self).spec_capacity() ==> old(self).spec_capacity()
                <= usize::MAX / 2,
        ensures
            final(self).wf(),
            final(self)@ == old(self)@.push(value),
            final(self).spec_capacity() >= old(self).spec_capacity(),
            old(self)@.len() < old(self).spec_capacity() ==> final(self).spec_capacity() == old(
                self,
            ).spec_capacity(),
            old(self)@.len() == old(self).spec_capacity() ==> final(self).spec_capacity() == if old(
                self,
            ).spec_capacity() == 0 {
                1nat
            } else {
                old(self).spec_capacity() * 2
            },
    {
        if self.elems.len() == self.capacity {
            self.grow();
        }
        self.elems.push(value);
    }

    /// Removes and returns the last element, or `None` on an empty buffer.
    /// The capacity is never reduced by a pop.
    pub fn pop(&mut self) -> (value: Option<T>)
        requires
            old(self).wf(),
        ensures
            final(self).wf(),
            final(self).spec_capacity() == old(self).spec_capacity(),
            old(self)@.len() == 0 ==> value is None && final(self)@ == old(self)@,
            old(self)@.len() > 0 ==> value == Some(old(self)@.last()) && final(self)@ == old(
                self,
            )@.drop_last(),
    {
        let value = self.elems.pop();
        proof {
            if old(self)@.len() > 0 {
                assert(old(self)@.subrange(0, old(self)@.len() - 1) =~= old(self)@.drop_last());
            }
        }
        value
    }

    /// The number of live elements.
    pub fn len(&self) -> (n: usize)
        ensures
            n == self@.len(),
    {
        self.elems.len()
    }

    /// The number of reserved element slots.
    pub fn capacity(&self) -> (c: usize)
        ensures
            c == self.spec_capacity(),
    {
        self.capacity
    }

    /// Reads the element at position `i` of the live range; indexing outside
    /// `[0, len)` is a programmer error and is ruled out up front.
    pub fn index(&self, i: usize) -> (element: &T)
        requires
            i < self@.len(),
        ensures
            *element == self@[i as int],
    {
        &self.elems[i]
    }

    /// Overwrites the element at position `i` of the live range; the length
    /// and the capacity are unchanged.
    pub fn set(&mut self, i: usize, value: T)
        requires
            old(self).wf(),
            i < old(self)@.len(),
        ensures
            final(self).wf(),
            final(self)@ == old(self)@.update(i as int, value),
            final(self).spec_capacity() == old(self).spec_capacity(),
    {
        self.elems.set(i, value);
    }

    /// Converts the buffer into an owning iterator over its elements. All
    /// ownership — the live elements and the reserved slots — moves into the
    /// iterator; the buffer itself is consumed, so no teardown can run on it
    /// afterwards and no double-free can arise.
    pub fn into_iter(self) -> (iter: IntoIter<T>)
        requires
            self.wf(),
        ensures
            iter.wf(),
            iter@ == self@,
            iter.spec_capacity() == self.spec_capacity(),
    {
        let List { elems, capacity } = self;
        IntoIter { elems, capacity }
    }
}

/// An owning iterator over the elements of a consumed [`List`].
///
/// The view is the sequence of elements not yet yielded; each call of
/// [`IntoIter::next`] or [`IntoIter::next_back`] removes one element from the
/// corresponding end and hands its ownership to the caller. The remaining
/// elements and the reserved slots are released when the iterator is dropped,
/// however far iteration got.
pub struct IntoIter<T> {
    elems: Vec<T>,
    capacity: usize,
}

impl<T> View for IntoIter<T> {
    type V = Seq<T>;

    closed spec fn view(&self) -> Seq<T> {
        self.elems@
    }
}

impl<T> IntoIter<T> {
    /// The number of element slots retained from the consumed buffer.
    pub closed spec fn spec_capacity(&self) -> nat {
        self.capacity as nat
    }

    /// Validity: the remaining elements fit in the retained slots.
    pub open spec fn wf(&self) -> bool {
        self@.len() <= self.spec_capacity()
    }

    /// Removes and returns the frontmost remaining element, or `None` once
    /// the iterator is exhausted.
    pub fn next(&mut self) -> (value: Option<T>)
        requires
            old(self).wf(),
        ensures
            final(self).wf(),
            final(self).spec_capacity() == old(self).spec_capacity(),
            old(self)@.len() == 0 ==> value is None && final(self)@ == old(self)@,
            old(self)@.len() > 0 ==> value == Some(old(self)@.first()) && final(self)@ == old(
                self,
            )@.drop_first(),
    {
        if self.elems.len() == 0 {
            None
        } else {
            let element = self.elems.remove(0);
            proof {
                assert(old(self)@.remove(0) =~= old(self)@.drop_first());
            }
            Some(element)
        }
    }

    /// Removes and returns the backmost remaining element, or `None` once
    /// the iterator is exhausted.
    pub fn next_back(&mut self) -> (value: Option<T>)
        requires
            old(self).wf(),
        ensures
            final(self).wf(),
            final(self).spec_capacity() == old(self).spec_capacity(),
            old(self)@.len() == 0 ==> value is None && final(self)@ == old(self)@,
            old(self)@.len() > 0 ==> value == Some(old(self)@.last()) && final(self)@ == old(
                self,
            )@.drop_last(),
    {
        let value = self.elems.pop();
        proof {
            if old(self)@.len() > 0 {
                assert(old(self)@.subrange(0, old(self)@.len() - 1) =~= old(self)@.drop_last());
            }
        }
        value
    }
}

/// The abstract state a buffer reaches when the values `vs` are pushed onto
/// one whose state is `s`, front value first — each push appends one value,
/// exactly as [`List::push`] promises of the view.
pub open spec fn after_pushes<T>(s: Seq<T>, vs: Seq<T>) -> Seq<T>
    decreases vs.len(),
{
    if vs.len() == 0 {
        s
    } else {
        after_pushes(s.push(vs.first()), vs.drop_first())
    }
}

/// The values handed out when a buffer whose state is `s` is popped until
/// empty — each pop removes and returns the last value, exactly as
/// [`List::pop`] promises of the view.
pub open spec fn drained_by_pop<T>(s: Seq<T>) -> Seq<T>
    decreases s.len(),
{
    if s.len() == 0 {
        Seq::<T>::empty()
    } else {
        seq![s.last()] + drained_by_pop(s.drop_last())
    }
}

/// Pushing values appends them in order: after pushing `vs` onto a buffer
/// whose state is `s`, the state is `s` followed by `vs`.
pub proof fn lemma_after_pushes_appends<T>(s: Seq<T>, vs: Seq<T>)
    ensures
        after_pushes(s, vs) == s + vs,
    decreases vs.len(),
{
    if vs.len() == 0 {
        assert(s + vs =~= s);
    } else {
        lemma_after_pushes_appends(s.push(vs.first()), vs.drop_first());
        assert(s.push(vs.first()) + vs.drop_first() =~= s + vs);
    }
}

/// Law: pushing the values `vs` in order onto an empty buffer leaves the
/// buffer holding exactly `vs`, so that indexing each position of `0..N`
/// afterwards yields the pushed values in push order.
pub proof fn lemma_pushes_then_index<T>(vs: Seq<T>)
    ensures
        after_pushes(Seq::<T>::empty(), vs) == vs,
        forall|i: int| 0 <= i < vs.len() ==> after_pushes(Seq::<T>::empty(), vs)[i] == vs[i],
{
    lemma_after_pushes_appends(Seq::<T>::empty(), vs);
    assert(Seq::<T>::empty() + vs =~= vs);
}

/// Popping a buffer until empty yields its values back to front.
pub proof fn lemma_drain_reverses<T>(s: Seq<T>)
    ensures
        drained_by_pop(s) == s.reverse(),
    decreases s.len(),
{
    if s.len() == 0 {
        assert(drained_by_pop(s) =~= s.reverse());
    } else {
        lemma_drain_reverses(s.drop_last());
        assert(seq![s.last()] + s.drop_last().reverse() =~= s.reverse());
    }
}

/// Law: pushing the values `vs` onto an empty buffer and then popping until
/// empty yields the values in exact reverse (last-in, first-out) order; the
/// pop after that finds the buffer empty and yields nothing, as
/// [`List::pop`] promises of an empty view.
pub proof fn lemma_push_then_pop_lifo<T>(vs: Seq<T>)
    ensures
        drained_by_pop(after_pushes(Seq::<T>::empty(), vs)) == vs.reverse(),
{
    lemma_pushes_then_index(vs);
    lemma_drain_reverses(vs);
}

} // verus!
