//! Unbounded FIFO job queue.
//!
//! The queue is the only channel from the frontend (producer) to the worker
//! (sole consumer). FIFO order is the only guarantee: no reordering, no
//! priority. Calling `take` on an empty queue is a caller contract
//! violation, so `take` demands non-emptiness and callers check `is_empty`
//! first.

use vstd::prelude::*;

verus! {

pub struct Queue<T> {
    pub vec: Vec<T>,
}

impl<T> Queue<T> {
    /// The queue's mathematical content: head first, tail last.
    pub open spec fn view(&self) -> Seq<T> {
        self.vec@
    }

    pub fn new() -> (r: Self)
        ensures
            r@ == Seq::<T>::empty(),
    {
        Self { vec: Vec::new() }
    }

    /// Removes and returns the head. Callers must check `is_empty` first.
    pub fn take(&mut self) -> (r: T)
        requires
            old(self)@.len() > 0,
        ensures
            r == old(self)@.first(),
            final(self)@ == old(self)@.drop_first(),
    {
        let r = self.vec.remove(0);
        proof {
            assert(final(self)@ =~= old(self)@.drop_first());
        }
        r
    }

    /// Appends to the tail; never blocks, never fails.
    pub fn push(&mut self, element: T)
        ensures
            final(self)@ == old(self)@.push(element),
    {
        self.vec.push(element);
    }

    /// Removes and returns the head, or reports an empty queue untouched —
    /// the checked form of `take` for callers that own the emptiness test.
    pub fn pop_front(&mut self) -> (r: Option<T>)
        ensures
            old(self)@.len() == 0 ==> r is None && final(self)@ == old(self)@,
            old(self)@.len() > 0 ==> r == Some(old(self)@.first()) && final(self)@ == old(
                self,
            )@.drop_first(),
    {
        if self.is_empty() {
            None
        } else {
            Some(self.take())
        }
    }

    pub fn clear(&mut self)
        ensures
            final(self)@ == Seq::<T>::empty(),
    {
        self.vec.truncate(0);
        proof {
            assert(final(self)@ =~= Seq::<T>::empty());
        }
    }

    pub fn size(&mut self) -> (r: usize)
        ensures
            r == old(self)@.len(),
            final(self)@ == old(self)@,
    {
        self.vec.len()
    }

    pub fn is_empty(&self) -> (r: bool)
        ensures
            r == (self@.len() == 0),
    {
        self.vec.is_empty()
    }
}

/// The content after pushing each element of `js`, in order, onto a queue
/// whose content is `s`.
pub open spec fn push_all<T>(s: Seq<T>, js: Seq<T>) -> Seq<T>
    decreases js.len(),
{
    if js.len() == 0 {
        s
    } else {
        push_all(s.push(js.first()), js.drop_first())
    }
}

pub proof fn lemma_push_all_appends<T>(s: Seq<T>, js: Seq<T>)
    ensures
        push_all(s, js) == s + js,
    decreases js.len(),
{
    if js.len() == 0 {
        assert(push_all(s, js) =~= s + js);
    } else {
        lemma_push_all_appends(s.push(js.first()), js.drop_first());
        assert(s.push(js.first()) + js.drop_first() =~= s + js);
    }
}

/// FIFO law: pushing jobs J1..JN onto an empty queue and then taking N
/// times yields J1..JN in that order — after the pushes the content is
/// exactly `js`, and the element surrendered by the i-th `take` (which by
/// `take`'s contract is the head of what remains) is `js[i]`. After the
/// N-th take nothing remains, so `take`'s precondition rules out any
/// further take until something is pushed.
pub proof fn lemma_fifo<T>(js: Seq<T>)
    ensures
        push_all(Seq::<T>::empty(), js) == js,
        forall|i: int|
            0 <= i < js.len() ==> push_all(Seq::<T>::empty(), js).skip(i).first() == js[i],
        push_all(Seq::<T>::empty(), js).skip(js.len() as int) == Seq::<T>::empty(),
{
    lemma_push_all_appends(Seq::<T>::empty(), js);
    assert(Seq::<T>::empty() + js =~= js);
    assert forall|i: int| 0 <= i < js.len() implies push_all(
        Seq::<T>::empty(),
        js,
    ).skip(i).first() == js[i] by {
        assert(js.skip(i).first() == js[i]);
    }
    assert(js.skip(js.len() as int) =~= Seq::<T>::empty());
}

} // verus!
