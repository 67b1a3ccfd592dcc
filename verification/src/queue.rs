//! A bounded delivery queue with the semantics of a fixed-capacity channel:
//! a non-blocking send that reports a full buffer or a torn-down receiver,
//! and a non-blocking receive that tells an empty buffer apart from a
//! sender that has gone away.

use vstd::prelude::*;

verus! {

/// What a non-blocking send did.
#[derive(Clone, Copy, PartialEq, Eq, Structural, Debug)]
pub enum SendOutcome {
    /// The item was delivered into the buffer.
    Sent,
    /// The buffer was full; the item was dropped.
    Full,
    /// The receiving side has been torn down; the item was dropped.
    Disconnected,
}

/// Why a non-blocking receive returned nothing.
#[derive(Clone, Copy, PartialEq, Eq, Structural, Debug)]
pub enum RecvError {
    /// The buffer holds nothing right now.
    Empty,
    /// The buffer holds nothing and the sending side has gone away.
    Disconnected,
}

/// What best-effort delivery of one item leaves in a buffer of the given
/// capacity: the item is appended when there is room and dropped when there
/// is none.
pub open spec fn delivered<T>(contents: Seq<T>, cap: nat, item: T) -> Seq<T> {
    if contents.len() < cap {
        contents.push(item)
    } else {
        contents
    }
}

/// Best-effort delivery of a whole sequence of items, in order.
pub open spec fn delivered_all<T>(contents: Seq<T>, cap: nat, items: Seq<T>) -> Seq<T>
    decreases items.len(),
{
    if items.len() == 0 {
        contents
    } else {
        delivered(delivered_all(contents, cap, items.drop_last()), cap, items.last())
    }
}

/// Law: best-effort delivery never loses anything but the overflow. Sending
/// any number of items into an empty buffer keeps exactly the first
/// `cap` of them, in order; everything past the capacity is dropped.
pub proof fn lemma_overflow_drops_excess<T>(cap: nat, items: Seq<T>)
    ensures
        delivered_all(Seq::<T>::empty(), cap, items) == (if items.len() <= cap {
            items
        } else {
            items.take(cap as int)
        }),
    decreases items.len(),
{
    if items.len() == 0 {
        assert(delivered_all(Seq::<T>::empty(), cap, items) =~= items);
    } else {
        lemma_overflow_drops_excess(cap, items.drop_last());
        if items.len() <= cap {
            assert(items.drop_last().push(items.last()) =~= items);
        } else if items.len() == cap + 1 {
            assert(items.drop_last() =~= items.take(cap as int));
        } else {
            assert(items.drop_last().take(cap as int) =~= items.take(cap as int));
        }
    }
}

/// A fixed-capacity first-in-first-out delivery queue.
pub struct BoundedQueue<T> {
    items: Vec<T>,
    capacity: usize,
    sender_live: bool,
    receiver_live: bool,
}

impl<T> BoundedQueue<T> {
    /// The items currently buffered, oldest first.
    pub closed spec fn contents(&self) -> Seq<T> {
        self.items@
    }

    /// The capacity the queue was made with.
    pub closed spec fn cap(&self) -> nat {
        self.capacity as nat
    }

    /// Whether the sending side is still attached.
    pub closed spec fn sender_connected(&self) -> bool {
        self.sender_live
    }

    /// Whether the receiving side is still attached.
    pub closed spec fn receiver_connected(&self) -> bool {
        self.receiver_live
    }

    /// The buffer never holds more than the capacity.
    pub open spec fn wf(&self) -> bool {
        self.contents().len() <= self.cap()
    }

    pub fn new(capacity: usize) -> (q: Self)
        ensures
            q.contents() == Seq::<T>::empty(),
            q.cap() == capacity,
            q.sender_connected(),
            q.receiver_connected(),
            q.wf(),
    {
        BoundedQueue { items: Vec::new(), capacity, sender_live: true, receiver_live: true }
    }

    pub fn len(&self) -> (n: usize)
        ensures
            n == self.contents().len(),
    {
        self.items.len()
    }

    /// Non-blocking send: delivers if there is room, drops the item when the
    /// buffer is full, and reports a torn-down receiver.
    pub fn try_send(&mut self, item: T) -> (r: SendOutcome)
        requires
            old(self).wf(),
        ensures
            final(self).wf(),
            final(self).cap() == old(self).cap(),
            final(self).sender_connected() == old(self).sender_connected(),
            final(self).receiver_connected() == old(self).receiver_connected(),
            !old(self).receiver_connected() ==> r == SendOutcome::Disconnected
                && final(self).contents() == old(self).contents(),
            old(self).receiver_connected() && old(self).contents().len() == old(self).cap()
                ==> r == SendOutcome::Full && final(self).contents() == old(self).contents(),
            old(self).receiver_connected() && old(self).contents().len() < old(self).cap()
                ==> r == SendOutcome::Sent
                && final(self).contents() == old(self).contents().push(item),
    {
        if !self.receiver_live {
            SendOutcome::Disconnected
        } else if self.items.len() == self.capacity {
            SendOutcome::Full
        } else {
            self.items.push(item);
            SendOutcome::Sent
        }
    }

    /// Non-blocking receive: hands out the oldest buffered item; with an
    /// empty buffer it tells a live sender apart from one that has gone away.
    pub fn try_recv(&mut self) -> (r: Result<T, RecvError>)
        ensures
            final(self).cap() == old(self).cap(),
            final(self).sender_connected() == old(self).sender_connected(),
            final(self).receiver_connected() == old(self).receiver_connected(),
            old(self).contents().len() > 0 ==> (r matches Ok(v) && v == old(self).contents()[0])
                && final(self).contents() == old(self).contents().skip(1),
            old(self).contents().len() == 0 ==> final(self).contents() == old(self).contents()
                && r == (if old(self).sender_connected() {
                    Err::<T, RecvError>(RecvError::Empty)
                } else {
                    Err::<T, RecvError>(RecvError::Disconnected)
                }),
    {
        if self.items.len() > 0 {
            let v = self.items.remove(0);
            assert(self.items@ =~= old(self).contents().skip(1));
            Ok(v)
        } else if self.sender_live {
            Err(RecvError::Empty)
        } else {
            Err(RecvError::Disconnected)
        }
    }

    /// Tears down the sending side; buffered items can still be received.
    pub fn close_sender(&mut self)
        ensures
            final(self).contents() == old(self).contents(),
            final(self).cap() == old(self).cap(),
            !final(self).sender_connected(),
            final(self).receiver_connected() == old(self).receiver_connected(),
    {
        self.sender_live = false;
    }

    /// Tears down the receiving side; later sends report it.
    pub fn close_receiver(&mut self)
        ensures
            final(self).contents() == old(self).contents(),
            final(self).cap() == old(self).cap(),
            final(self).sender_connected() == old(self).sender_connected(),
            !final(self).receiver_connected(),
    {
        self.receiver_live = false;
    }
}

} // verus!
