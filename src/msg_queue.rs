//! Bounded queue of messages from the interrupt producers to the consumer.
use vstd::prelude::*;
use crate::datetime::{DateTime, Measurement};

verus! {

/// Number of messages the queue holds.
pub const QUEUE_CAPACITY: usize = 16;

/// An application event.
#[derive(Clone, Copy, Debug, PartialEq, Eq, Structural)]
pub enum Msg {
    DateTime(DateTime),
    Environment(Measurement),
    ButtonMinus,
    ButtonOk,
    ButtonPlus,
}

#[verifier::external_type_specification]
#[verifier::external_body]
#[verifier::reject_recursive_types(T)]
pub struct ExHeaplessVec<T, const N: usize>(heapless::Vec<T, N>);

/// The messages held by a fixed-capacity buffer, oldest first.
pub uninterp spec fn buffer_items(v: heapless::Vec<Msg, 16>) -> Seq<Msg>;

/// Relies on heapless::Vec::new: the new buffer is empty.
#[verifier::external_body]
fn buffer_new() -> (r: heapless::Vec<Msg, 16>)
    ensures
        buffer_items(r) == Seq::<Msg>::empty(),
{
    heapless::Vec::new()
}

/// Relies on heapless::Vec::len (through `Deref` to a slice): the number
/// of items, never above the capacity.
#[verifier::external_body]
fn buffer_len(v: &heapless::Vec<Msg, 16>) -> (r: usize)
    ensures
        r == buffer_items(*v).len(),
        r <= QUEUE_CAPACITY,
{
    v.len()
}

/// Outcome of a push: the message is handed back when there is no room.
pub type PushResult = Result<(), Msg>;

/// Relies on heapless::Vec::push: appends below the capacity, otherwise
/// hands the item back and leaves the buffer as it was.
#[verifier::external_body]
fn buffer_push(v: &mut heapless::Vec<Msg, 16>, m: Msg) -> (r: PushResult)
    ensures
        r is Ok <==> buffer_items(*old(v)).len() < QUEUE_CAPACITY,
        r is Ok ==> buffer_items(*final(v)) == buffer_items(*old(v)).push(m),
        r is Err ==> r->Err_0 == m,
        r is Err ==> buffer_items(*final(v)) == buffer_items(*old(v)),
{
    v.push(m)
}

/// Relies on heapless::Vec's by-value iterator: yields the items in order.
#[verifier::external_body]
fn buffer_into_vec(v: heapless::Vec<Msg, 16>) -> (r: Vec<Msg>)
    ensures
        r@ == buffer_items(v),
{
    v.into_iter().collect()
}

/// Queue of pending messages.
pub struct MsgQueue {
    q: heapless::Vec<Msg, 16>,
}

impl View for MsgQueue {
    type V = Seq<Msg>;

    closed spec fn view(&self) -> Seq<Msg> {
        buffer_items(self.q)
    }
}

/// What a push does to the queue's contents: `None` when the queue is full.
pub open spec fn pushed(q: Seq<Msg>, m: Msg) -> Option<Seq<Msg>> {
    if q.len() < QUEUE_CAPACITY {
        Some(q.push(m))
    } else {
        None
    }
}

/// The contents after pushing `ms` in order onto `q`: `None` once a push
/// finds the queue full.
pub open spec fn pushed_all(q: Seq<Msg>, ms: Seq<Msg>) -> Option<Seq<Msg>>
    decreases ms.len(),
{
    if ms.len() == 0 {
        Some(q)
    } else {
        match pushed(q, ms[0]) {
            Some(q2) => pushed_all(q2, ms.drop_first()),
            None => None,
        }
    }
}

/// What a drain hands out, and what it leaves.
pub open spec fn drained(q: Seq<Msg>) -> (Seq<Msg>, Seq<Msg>) {
    (q, Seq::empty())
}

proof fn lemma_pushed_all(q: Seq<Msg>, ms: Seq<Msg>)
    requires
        q.len() <= QUEUE_CAPACITY,
    ensures
        pushed_all(q, ms) == if q.len() + ms.len() <= QUEUE_CAPACITY {
            Some(q + ms)
        } else {
            None
        },
    decreases ms.len(),
{
    if ms.len() == 0 {
        assert(q + ms =~= q);
    } else {
        if q.len() < QUEUE_CAPACITY {
            lemma_pushed_all(q.push(ms[0]), ms.drop_first());
            assert(q.push(ms[0]) + ms.drop_first() =~= q + ms);
        }
    }
}

/// Pushing up to the capacity onto an empty queue succeeds, and a drain
/// then hands out every message in push order and leaves the queue empty,
/// so a second drain hands out nothing; one push more than the capacity fails.
pub proof fn lemma_fill_then_drain(ms: Seq<Msg>)
    ensures
        ms.len() <= QUEUE_CAPACITY ==> pushed_all(Seq::empty(), ms) == Some(ms),
        ms.len() <= QUEUE_CAPACITY ==> drained(pushed_all(Seq::empty(), ms)->0) == (
        ms,
        Seq::<Msg>::empty(),
        ),
        ms.len() <= QUEUE_CAPACITY ==> drained(drained(pushed_all(Seq::empty(), ms)->0).1).0
            == Seq::<Msg>::empty(),
        ms.len() > QUEUE_CAPACITY ==> pushed_all(Seq::empty(), ms) is None,
{
    lemma_pushed_all(Seq::empty(), ms);
    assert(Seq::<Msg>::empty() + ms =~= ms);
}

impl MsgQueue {
    pub fn new() -> (r: MsgQueue)
        ensures
            r@ == Seq::<Msg>::empty(),
    {
        MsgQueue { q: buffer_new() }
    }

    /// Number of pending messages.
    pub fn len(&self) -> (r: usize)
        ensures
            r == self@.len(),
            r <= QUEUE_CAPACITY,
    {
        buffer_len(&self.q)
    }

    /// Appends `msg`; a full queue refuses it, hands it back and is left as it was.
    pub fn push(&mut self, msg: Msg) -> (r: Result<(), Msg>)
        ensures
            pushed(old(self)@, msg) is Some <==> r is Ok,
            pushed(old(self)@, msg) is Some ==> final(self)@ == pushed(old(self)@, msg)->0,
            pushed(old(self)@, msg) is None ==> r == Err::<(), Msg>(msg) && final(self)@
                == old(self)@,
    {
        buffer_push(&mut self.q, msg)
    }

    /// Takes every pending message, oldest first, and leaves the queue empty.
    pub fn get(&mut self) -> (r: Vec<Msg>)
        ensures
            (r@, final(self)@) == drained(old(self)@),
    {
        let mut taken = buffer_new();
        std::mem::swap(&mut self.q, &mut taken);
        buffer_into_vec(taken)
    }
}

} // verus!
