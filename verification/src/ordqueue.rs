//! A bounded buffer that takes items under any order of index and gives them
//! out by ascending index, starting at 0.
//!
//! The queue never waits. Where a caller would have to wait (`Full`,
//! `Pending`) it says so and leaves the waiting to the caller.

use vstd::prelude::*;

verus! {

/// An item with the index it was submitted under.
pub struct Slot<T> {
    pub index: usize,
    pub value: T,
}

/// What became of a submission.
pub enum Push<T> {
    /// The item is buffered.
    Accepted,
    /// The buffer holds as many items as it may; the item comes back.
    Full(T),
    /// One end of the queue is gone; the item comes back.
    Closed(T),
}

/// What the consumer gets when it asks for the next item.
pub enum Next<T> {
    /// The item whose index was due.
    Ready(T),
    /// The item that is due has not arrived, and may yet.
    Pending,
    /// The item that is due will not arrive.
    Finished,
}

/// The queue: the items that wait, in the order they arrived, and the index
/// that is due.
pub struct OrdQueue<T> {
    pub capacity: usize,
    pub slots: Vec<Slot<T>>,
    /// The index that is due, unless `exhausted`.
    pub next: usize,
    /// Every index up to `usize::MAX` has been given out.
    pub exhausted: bool,
    /// No producer is left.
    pub closed: bool,
    /// The consumer is gone.
    pub abandoned: bool,
}

/// Where `index` first occurs in `slots`; the length of `slots` if it does
/// not occur.
pub open spec fn position<T>(slots: Seq<Slot<T>>, index: nat) -> nat
    decreases slots.len(),
{
    if slots.len() == 0 {
        0
    } else if slots.first().index == index {
        0
    } else {
        1 + position(slots.drop_first(), index)
    }
}

/// Some item waits under `index`.
pub open spec fn holds<T>(slots: Seq<Slot<T>>, index: nat) -> bool {
    position(slots, index) < slots.len()
}

/// What a consumer gets from `slots` if it takes items until none is ready,
/// beginning with the index `next`.
pub open spec fn deliver<T>(slots: Seq<Slot<T>>, next: nat) -> Seq<T>
    decreases slots.len(),
{
    if holds(slots, next) {
        let i = position(slots, next) as int;
        seq![slots[i].value] + deliver(slots.remove(i), next + 1)
    } else {
        Seq::empty()
    }
}

/// `position` is within the sequence exactly when the index occurs, and then
/// it is the first occurrence.
pub proof fn lemma_position<T>(slots: Seq<Slot<T>>, index: nat)
    ensures
        position(slots, index) <= slots.len(),
        holds(slots, index) ==> slots[position(slots, index) as int].index == index,
        forall|j: int| 0 <= j < position(slots, index) ==> (#[trigger] slots[j]).index != index,
    decreases slots.len(),
{
    if slots.len() > 0 && slots.first().index != index {
        let rest = slots.drop_first();
        lemma_position(rest, index);
        assert forall|j: int| 0 <= j < position(slots, index) implies (#[trigger] slots[j]).index
            != index by {
            if j > 0 {
                assert(slots[j] == rest[j - 1]);
            }
        }
        if holds(slots, index) {
            assert(slots[position(slots, index) as int] == rest[position(rest, index) as int]);
        }
    }
}

/// The first occurrence of an index is its position.
pub proof fn lemma_position_unique<T>(slots: Seq<Slot<T>>, index: nat, i: int)
    requires
        0 <= i <= slots.len(),
        i < slots.len() ==> slots[i].index == index,
        forall|j: int| 0 <= j < i ==> (#[trigger] slots[j]).index != index,
    ensures
        position(slots, index) == i,
{
    lemma_position(slots, index);
    let p = position(slots, index) as int;
    if p < i {
        assert(slots[p].index != index);
    } else if i < p {
        assert(slots[i].index != index);
    }
}

/// Taking out the item under one index leaves every other index where it
/// was, one place earlier if it came later.
pub proof fn lemma_position_after_remove<T>(slots: Seq<Slot<T>>, i: int, index: nat)
    requires
        0 <= i < slots.len(),
        slots[i].index != index,
    ensures
        holds(slots.remove(i), index) == holds(slots, index),
        holds(slots, index) ==> slots.remove(i)[position(slots.remove(i), index) as int]
            == slots[position(slots, index) as int],
{
    lemma_position(slots, index);
    let rest = slots.remove(i);
    let p = position(slots, index) as int;
    let q = if p < i {
        p
    } else {
        p - 1
    };
    assert forall|j: int| 0 <= j < q implies (#[trigger] rest[j]).index != index by {
        if j < i {
            assert(rest[j] == slots[j]);
        } else {
            assert(rest[j] == slots[j + 1]);
        }
    }
    if p < slots.len() {
        assert(rest[q] == slots[p]);
    }
    lemma_position_unique(rest, index, q);
}

/// Items submitted under the indices `from`, `from + 1`, ... up to as many as
/// there are items, each index once and in any order, come out in the order
/// of their indices, every one of them and nothing else.
pub proof fn lemma_delivers_in_order<T>(slots: Seq<Slot<T>>, from: nat)
    requires
        forall|k: nat| from <= k < from + slots.len() ==> #[trigger] holds(slots, k),
    ensures
        deliver(slots, from).len() == slots.len(),
        forall|k: int|
            0 <= k < slots.len() ==> (#[trigger] deliver(slots, from)[k]) == slots[position(
                slots,
                (from + k) as nat,
            ) as int].value,
    decreases slots.len(),
{
    if slots.len() == 0 {
    } else {
        assert(holds(slots, from));
        lemma_position(slots, from);
        let i = position(slots, from) as int;
        let rest = slots.remove(i);
        assert forall|k: nat| from + 1 <= k < from + 1 + rest.len() implies #[trigger] holds(
            rest,
            k,
        ) by {
            assert(holds(slots, k));
            lemma_position_after_remove(slots, i, k);
        }
        lemma_delivers_in_order(rest, from + 1);
        let out = deliver(slots, from);
        assert(out == seq![slots[i].value] + deliver(rest, from + 1));
        assert forall|k: int| 0 <= k < slots.len() implies (#[trigger] out[k]) == slots[position(
            slots,
            (from + k) as nat,
        ) as int].value by {
            if k > 0 {
                let idx = (from + k) as nat;
                assert(holds(slots, idx));
                assert(out[k] == deliver(rest, from + 1)[k - 1]);
                assert(idx == ((from + 1) + (k - 1)) as nat);
                lemma_position_after_remove(slots, i, idx);
            }
        }
    }
}

/// What waits on after a consumer has taken from `slots` every item that was
/// ready, beginning with the index `next`.
pub open spec fn leftover<T>(slots: Seq<Slot<T>>, next: nat) -> Seq<Slot<T>>
    decreases slots.len(),
{
    if holds(slots, next) {
        leftover(slots.remove(position(slots, next) as int), next + 1)
    } else {
        slots
    }
}

/// It makes no difference when the consumer takes what is ready. Taking
/// early, and going on after more items have arrived, gives what taking
/// everything after the last arrival gives.
pub proof fn lemma_delivery_ignores_timing<T>(slots: Seq<Slot<T>>, more: Seq<Slot<T>>, next: nat)
    ensures
        deliver(slots + more, next) == deliver(slots, next) + deliver(
            leftover(slots, next) + more,
            next + deliver(slots, next).len(),
        ),
    decreases slots.len(),
{
    if holds(slots, next) {
        lemma_position(slots, next);
        let i = position(slots, next) as int;
        let all = slots + more;
        assert forall|j: int| 0 <= j < i implies (#[trigger] all[j]).index != next by {
            assert(all[j] == slots[j]);
        }
        assert(all[i] == slots[i]);
        lemma_position_unique(all, next, i);
        let rest = slots.remove(i);
        assert(all.remove(i) =~= rest + more);
        lemma_delivery_ignores_timing(rest, more, next + 1);
        let early = deliver(rest, next + 1);
        let late = deliver(leftover(rest, next + 1) + more, next + 1 + early.len());
        assert(deliver(all, next) == seq![slots[i].value] + (early + late));
        assert(deliver(slots, next) == seq![slots[i].value] + early);
        assert(seq![slots[i].value] + (early + late) =~= (seq![slots[i].value] + early) + late);
    } else {
        assert(deliver(slots, next) =~= Seq::<T>::empty());
        assert(Seq::<T>::empty() + deliver(slots + more, next) =~= deliver(slots + more, next));
    }
}

impl<T> OrdQueue<T> {
    /// The index that is due: the number of items given out so far.
    pub open spec fn expected(&self) -> nat {
        if self.exhausted {
            (usize::MAX + 1) as nat
        } else {
            self.next as nat
        }
    }

    /// The buffer holds no more than the capacity.
    pub open spec fn wf(&self) -> bool {
        self.slots.len() <= self.capacity
    }

    /// What `push` does: the queue before the call, the submission, the
    /// queue after the call and what the call gave.
    pub open spec fn pushes_to(self, index: usize, value: T, after: OrdQueue<T>, res: Push<T>) -> bool {
        &&& after.wf()
        &&& after.capacity == self.capacity
        &&& after.expected() == self.expected()
        &&& after.closed == self.closed
        &&& after.abandoned == self.abandoned
        &&& res == (if self.closed || self.abandoned {
            Push::Closed(value)
        } else if self.slots.len() >= self.capacity {
            Push::Full(value)
        } else {
            Push::Accepted
        })
        &&& after.slots@ == (if res is Accepted {
            self.slots@.push(Slot { index, value })
        } else {
            self.slots@
        })
    }

    /// The item that is due waits and can be taken.
    pub open spec fn due(self) -> bool {
        !self.abandoned && holds(self.slots@, self.expected())
    }

    /// What `pop` does: the queue before the call, the queue after the call
    /// and what the call gave.
    pub open spec fn pops_to(self, after: OrdQueue<T>, res: Next<T>) -> bool {
        &&& after.wf()
        &&& after.capacity == self.capacity
        &&& after.closed == self.closed
        &&& after.abandoned == self.abandoned
        &&& res is Ready <==> self.due()
        &&& res is Ready ==> {
            let i = position(self.slots@, self.expected()) as int;
            &&& res->Ready_0 == self.slots@[i].value
            &&& after.slots@ == self.slots@.remove(i)
            &&& after.expected() == self.expected() + 1
        }
        &&& !(res is Ready) ==> {
            &&& after == self
            &&& res is Finished <==> self.closed || self.abandoned
        }
    }

    /// An empty queue that buffers up to `capacity` items and expects
    /// index 0.
    pub fn new(capacity: usize) -> (q: OrdQueue<T>)
        ensures
            q.wf(),
            q.capacity == capacity,
            q.slots@ == Seq::<Slot<T>>::empty(),
            q.expected() == 0,
            !q.closed,
            !q.abandoned,
    {
        OrdQueue { capacity, slots: Vec::new(), next: 0, exhausted: false, closed: false, abandoned: false }
    }

    /// Number of items that wait.
    pub fn len(&self) -> (n: usize)
        ensures
            n == self.slots.len(),
    {
        self.slots.len()
    }

    /// Whether the buffer holds as many items as it may.
    pub fn is_full(&self) -> (b: bool)
        ensures
            b == (self.slots.len() >= self.capacity),
    {
        self.slots.len() >= self.capacity
    }

    /// Whether a submission would be refused for good.
    pub fn is_closed(&self) -> (b: bool)
        ensures
            b == (self.closed || self.abandoned),
    {
        self.closed || self.abandoned
    }

    /// Submits `value` under `index`. The item is refused for good once an end
    /// of the queue is gone, and for now while the buffer is full; otherwise
    /// it waits behind the items that arrived before it.
    pub fn push(&mut self, index: usize, value: T) -> (res: Push<T>)
        requires
            old(self).wf(),
        ensures
            old(self).pushes_to(index, value, *final(self), res),
    {
        if self.closed || self.abandoned {
            return Push::Closed(value);
        }
        if self.slots.len() >= self.capacity {
            return Push::Full(value);
        }
        self.slots.push(Slot { index, value });
        Push::Accepted
    }

    /// Gives the item whose index is due, if it waits, and moves on to the
    /// next index. Where it does not wait the answer is `Pending` while a
    /// producer is left and `Finished` when none is: whatever lies beyond a
    /// gap is never given out.
    pub fn pop(&mut self) -> (res: Next<T>)
        requires
            old(self).wf(),
        ensures
            old(self).pops_to(*final(self), res),
    {
        if self.abandoned {
            return Next::Finished;
        }
        let mut i: usize = 0;
        if !self.exhausted {
            while i < self.slots.len() && self.slots[i].index != self.next
                invariant
                    i <= self.slots.len(),
                    forall|j: int| 0 <= j < i ==> (#[trigger] self.slots@[j]).index != self.next,
                decreases self.slots.len() - i,
            {
                i += 1;
            }
        } else {
            i = self.slots.len();
        }
        proof {
            lemma_position_unique(self.slots@, self.expected(), i as int);
        }
        if i < self.slots.len() {
            let slot = self.slots.remove(i);
            if self.next == usize::MAX {
                self.exhausted = true;
            } else {
                self.next = self.next + 1;
            }
            Next::Ready(slot.value)
        } else if self.closed {
            Next::Finished
        } else {
            Next::Pending
        }
    }

    /// The last producer is gone: what has not been submitted will not come.
    pub fn close(&mut self)
        ensures
            *final(self) == (OrdQueue { closed: true, ..*old(self) }),
    {
        self.closed = true;
    }

    /// The consumer is gone: nothing is given out any more, and every
    /// submission is refused.
    pub fn abandon(&mut self)
        ensures
            *final(self) == (OrdQueue { abandoned: true, ..*old(self) }),
    {
        self.abandoned = true;
    }
}

} // verus!
