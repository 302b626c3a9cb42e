//! The bounded channel that carries delivered window events, as owned
//! values, from the delivery callback to the owner thread's handler. Each
//! event sent is received once, in order, and dropped by its receiver.
use vstd::prelude::*;
use std::collections::VecDeque;
use crate::win_event_hook::WinEvent;

verus! {

pub struct EventQueue {
    events: VecDeque<WinEvent>,
    capacity: usize,
}

impl View for EventQueue {
    type V = Seq<WinEvent>;

    closed spec fn view(&self) -> Seq<WinEvent> {
        self.events@
    }
}

impl EventQueue {
    pub closed spec fn spec_capacity(&self) -> nat {
        self.capacity as nat
    }

    pub open spec fn wf(&self) -> bool {
        self@.len() <= self.spec_capacity()
    }

    /// An empty queue that holds at most `capacity` events.
    pub fn new(capacity: usize) -> (r: EventQueue)
        ensures
            r.wf(),
            r@ == Seq::<WinEvent>::empty(),
            r.spec_capacity() == capacity,
    {
        EventQueue { events: VecDeque::new(), capacity }
    }

    pub fn len(&self) -> (r: usize)
        requires
            self.wf(),
        ensures
            r == self@.len(),
    {
        self.events.len()
    }

    /// Queues an event at the back; a full queue hands it back.
    pub fn send(&mut self, event: WinEvent) -> (r: Result<(), WinEvent>)
        requires
            old(self).wf(),
        ensures
            final(self).wf(),
            final(self).spec_capacity() == old(self).spec_capacity(),
            old(self)@.len() < old(self).spec_capacity() ==> r is Ok && final(self)@ == old(
                self,
            )@.push(event),
            old(self)@.len() >= old(self).spec_capacity() ==> r == Err::<(), WinEvent>(event)
                && final(self)@ == old(self)@,
    {
        if self.events.len() < self.capacity {
            self.events.push_back(event);
            Ok(())
        } else {
            Err(event)
        }
    }

    /// Takes the oldest event out of the queue, if there is one.
    pub fn receive(&mut self) -> (r: Option<WinEvent>)
        requires
            old(self).wf(),
        ensures
            final(self).wf(),
            final(self).spec_capacity() == old(self).spec_capacity(),
            old(self)@.len() == 0 ==> r is None && final(self)@ == old(self)@,
            old(self)@.len() > 0 ==> r == Some(old(self)@[0]) && final(self)@ == old(self)@.skip(
                1,
            ),
    {
        let r = self.events.pop_front();
        proof {
            if old(self)@.len() > 0 {
                assert(old(self)@.subrange(1, old(self)@.len() as int) == old(self)@.skip(1));
            }
        }
        r
    }
}

/// Drains the queue: the events, in order; the queue is empty after.
pub fn drain(queue: &mut EventQueue) -> (r: Vec<WinEvent>)
    requires
        old(queue).wf(),
    ensures
        final(queue).wf(),
        final(queue).spec_capacity() == old(queue).spec_capacity(),
        r@ == old(queue)@,
        final(queue)@.len() == 0,
{
    let mut r: Vec<WinEvent> = Vec::new();
    loop
        invariant
            queue.wf(),
            queue.spec_capacity() == old(queue).spec_capacity(),
            r@ + queue@ == old(queue)@,
        ensures
            queue.wf(),
            queue.spec_capacity() == old(queue).spec_capacity(),
            r@ == old(queue)@,
            queue@.len() == 0,
        decreases queue@.len(),
    {
        let ghost before = queue@;
        match queue.receive() {
            Some(e) => {
                proof {
                    assert(r@.push(e) + queue@ == r@ + before);
                }
                r.push(e);
            },
            None => {
                proof {
                    assert(r@ + queue@ =~= r@);
                }
                break ;
            },
        }
    }
    r
}

} // verus!
