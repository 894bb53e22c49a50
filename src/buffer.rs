//! The bounded FIFO channel with its drop-oldest overwrite policy.
use std::collections::VecDeque;
use vstd::prelude::*;

use crate::message::Message;

verus! {

/// Why a channel could not be built.
#[derive(Debug, PartialEq, Eq, Structural)]
pub enum ChannelError {
    /// A channel needs room for at least one message.
    ZeroCapacity,
}

/// The contents of a channel of capacity `cap` holding `s` after `m` is pushed:
/// the oldest entry goes first when the channel is full.
pub open spec fn evict_push<T>(s: Seq<T>, cap: nat, m: T) -> Seq<T> {
    if s.len() >= cap {
        s.drop_first().push(m)
    } else {
        s.push(m)
    }
}

/// The contents after pushing every item of `ms`, in order, with no pops.
pub open spec fn push_all<T>(s: Seq<T>, cap: nat, ms: Seq<T>) -> Seq<T>
    decreases ms.len(),
{
    if ms.len() == 0 {
        s
    } else {
        evict_push(push_all(s, cap, ms.drop_last()), cap, ms.last())
    }
}

/// The last `n` items of `s` (all of them when `s` is shorter).
pub open spec fn last_n<T>(s: Seq<T>, n: nat) -> Seq<T> {
    if s.len() <= n {
        s
    } else {
        s.subrange(s.len() - n, s.len() as int)
    }
}

/// Capacity: after any run of pushes with no pops into an empty channel of capacity
/// `cap`, the channel holds exactly the last `cap` messages pushed, in push order.
pub proof fn lemma_keeps_last_pushed<T>(cap: nat, ms: Seq<T>)
    requires
        cap > 0,
    ensures
        push_all(Seq::<T>::empty(), cap, ms) == last_n(ms, cap),
        ms.len() >= cap ==> push_all(Seq::<T>::empty(), cap, ms).len() == cap,
    decreases ms.len(),
{
    if ms.len() > 0 {
        let prev = ms.drop_last();
        lemma_keeps_last_pushed(cap, prev);
        assert(evict_push(last_n(prev, cap), cap, ms.last()) =~= last_n(ms, cap));
    }
}

/// A fixed-capacity FIFO queue of messages that evicts its oldest entry to admit
/// a new one when full, and counts every push and every successful pop.
pub struct CircularBuffer {
    buffer: VecDeque<Message>,
    capacity: usize,
    write_count: usize,
    read_count: usize,
}

impl CircularBuffer {
    /// Well-formedness: a positive capacity that the contents never exceed.
    pub closed spec fn wf(&self) -> bool {
        &&& self.capacity > 0
        &&& self.buffer@.len() <= self.capacity
    }

    /// The queued messages, oldest first.
    pub closed spec fn messages(&self) -> Seq<Message> {
        self.buffer@
    }

    /// The fixed capacity.
    pub closed spec fn cap(&self) -> nat {
        self.capacity as nat
    }

    /// Number of pushes ever made.
    pub closed spec fn writes(&self) -> nat {
        self.write_count as nat
    }

    /// Number of successful pops ever made.
    pub closed spec fn reads(&self) -> nat {
        self.read_count as nat
    }

    /// Every channel has a positive capacity and never holds more than it.
    pub proof fn lemma_bounded(&self)
        requires
            self.wf(),
        ensures
            self.cap() > 0,
            self.messages().len() <= self.cap(),
    {
    }

    /// Builds an empty channel; a capacity of zero is refused.
    pub fn new(capacity: usize) -> (r: Result<CircularBuffer, ChannelError>)
        ensures
            capacity == 0 <==> r is Err,
            r is Err ==> r == Err::<CircularBuffer, ChannelError>(ChannelError::ZeroCapacity),
            r matches Ok(b) ==> {
                &&& b.wf()
                &&& b.messages() == Seq::<Message>::empty()
                &&& b.cap() == capacity
                &&& b.writes() == 0
                &&& b.reads() == 0
            },
    {
        if capacity == 0 {
            return Err(ChannelError::ZeroCapacity);
        }
        Ok(CircularBuffer {
            buffer: VecDeque::with_capacity(capacity),
            capacity,
            write_count: 0,
            read_count: 0,
        })
    }

    /// Appends `message`, first evicting the oldest entry when the channel is full.
    /// Never refused.
    pub fn send_message(&mut self, message: Message) -> (r: Result<(), ChannelError>)
        requires
            old(self).wf(),
            old(self).writes() < usize::MAX,
        ensures
            final(self).wf(),
            r is Ok,
            final(self).messages() == evict_push(old(self).messages(), old(self).cap(), message),
            final(self).cap() == old(self).cap(),
            final(self).writes() == old(self).writes() + 1,
            final(self).reads() == old(self).reads(),
    {
        if self.buffer.len() >= self.capacity {
            let _ = self.buffer.pop_front();
        }
        self.buffer.push_back(message);
        self.write_count = self.write_count + 1;
        Ok(())
    }

    /// Removes and returns the oldest message, or `None` when the channel is empty.
    pub fn receive_message(&mut self) -> (r: Option<Message>)
        requires
            old(self).wf(),
            old(self).reads() < usize::MAX,
        ensures
            final(self).wf(),
            final(self).cap() == old(self).cap(),
            final(self).writes() == old(self).writes(),
            match r {
                Some(m) => {
                    &&& old(self).messages().len() > 0
                    &&& m == old(self).messages()[0]
                    &&& final(self).messages() == old(self).messages().drop_first()
                    &&& final(self).reads() == old(self).reads() + 1
                },
                None => {
                    &&& old(self).messages().len() == 0
                    &&& final(self).messages() == old(self).messages()
                    &&& final(self).reads() == old(self).reads()
                },
            },
    {
        match self.buffer.pop_front() {
            Some(message) => {
                self.read_count = self.read_count + 1;
                Some(message)
            },
            None => None,
        }
    }

    /// Number of pushes ever made, evicted messages included.
    pub fn write_count(&self) -> (r: usize)
        ensures
            r == self.writes(),
    {
        self.write_count
    }

    /// Number of successful pops ever made.
    pub fn read_count(&self) -> (r: usize)
        ensures
            r == self.reads(),
    {
        self.read_count
    }

    /// The fixed capacity.
    pub fn capacity(&self) -> (r: usize)
        ensures
            r == self.cap(),
    {
        self.capacity
    }

    /// Whether the channel holds no message.
    pub fn is_empty(&self) -> (r: bool)
        ensures
            r == (self.messages().len() == 0),
    {
        self.buffer.len() == 0
    }

    /// Whether the channel holds as many messages as its capacity.
    pub fn is_full(&self) -> (r: bool)
        ensures
            r == (self.messages().len() >= self.cap()),
    {
        self.buffer.len() >= self.capacity
    }

    /// Number of messages held.
    pub fn length(&self) -> (r: usize)
        ensures
            r == self.messages().len(),
    {
        self.buffer.len()
    }
}

} // verus!
