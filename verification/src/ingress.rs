//! Bounded, non-blocking command queue between the transport layer and the
//! controller's tick loop.
//!
//! The producer enqueues or drops (a full queue silently drops the newest
//! attempt; delivery is best-effort); the consumer drains or skips. Neither
//! side ever waits: backpressure is expressed purely through the bound.

use std::collections::VecDeque;
use vstd::prelude::*;

use crate::protocol::MotorCommand;

verus! {

/// Bounded FIFO queue of motor commands.
pub struct CommandIngress {
    queue: VecDeque<MotorCommand>,
    capacity: usize,
}

impl View for CommandIngress {
    type V = Seq<MotorCommand>;

    /// The queued commands, oldest first.
    closed spec fn view(&self) -> Seq<MotorCommand> {
        self.queue@
    }
}

impl CommandIngress {
    /// The queue never holds more than its capacity.
    pub closed spec fn wf(self) -> bool {
        self.queue@.len() <= self.capacity
    }

    /// The bound the queue was created with.
    pub closed spec fn spec_capacity(self) -> usize {
        self.capacity
    }

    /// An empty queue that holds at most `capacity` commands.
    pub fn new(capacity: usize) -> (r: Self)
        ensures
            r@ == Seq::<MotorCommand>::empty(),
            r.spec_capacity() == capacity,
            r.wf(),
    {
        Self { queue: VecDeque::new(), capacity }
    }

    /// How many commands are queued.
    pub fn len(&self) -> (r: usize)
        ensures
            r == self@.len(),
    {
        self.queue.len()
    }

    /// The bound the queue was created with.
    pub fn capacity(&self) -> (r: usize)
        ensures
            r == self.spec_capacity(),
    {
        self.capacity
    }

    /// Enqueue a command without blocking. Returns whether the command was
    /// accepted: on a full queue the newest attempt is silently dropped and
    /// the queue is left unchanged.
    pub fn try_send(&mut self, cmd: MotorCommand) -> (accepted: bool)
        requires
            old(self).wf(),
        ensures
            final(self).wf(),
            final(self).spec_capacity() == old(self).spec_capacity(),
            accepted == (old(self)@.len() < old(self).spec_capacity()),
            accepted ==> final(self)@ == old(self)@.push(cmd),
            !accepted ==> final(self)@ == old(self)@,
    {
        if self.queue.len() < self.capacity {
            self.queue.push_back(cmd);
            true
        } else {
            false
        }
    }

    /// Dequeue the oldest command without blocking, or `None` when the queue
    /// is empty.
    pub fn try_receive(&mut self) -> (r: Option<MotorCommand>)
        requires
            old(self).wf(),
        ensures
            final(self).wf(),
            final(self).spec_capacity() == old(self).spec_capacity(),
            old(self)@.len() == 0 ==> r is None && final(self)@ == old(self)@,
            old(self)@.len() > 0 ==> r == Some(old(self)@[0])
                && final(self)@ == old(self)@.skip(1),
    {
        let r = self.queue.pop_front();
        proof {
            if old(self)@.len() > 0 {
                assert(self.queue@ =~= old(self)@.skip(1));
            }
        }
        r
    }
}

} // verus!
