//! The time-ordered discrete-event scheduler: a priority collection of
//! events plus a current-time watermark advanced only by popping.

use crate::event::Event;
use vstd::prelude::*;

verus! {

/// Min-time-ordered event queue for one simulation run.
pub struct EventScheduler {
    queue: Vec<Event>,
    current_time: u64,
}

impl EventScheduler {
    /// The pending events, in insertion order.
    pub closed spec fn events(&self) -> Seq<Event> {
        self.queue@
    }

    /// The current simulation time: the time of the most recently popped
    /// event, or 0 if none was popped yet.
    pub closed spec fn time_spec(&self) -> u64 {
        self.current_time
    }

    /// No pending event lies in the scheduler's past.  This holds as long
    /// as no event is ever scheduled before the current time; under it,
    /// pops come out in non-decreasing time order.
    pub open spec fn wf(&self) -> bool {
        forall|i: int|
            0 <= i < self.events().len() ==> #[trigger] self.events()[i].time
                >= self.time_spec()
    }

    /// An empty scheduler at time 0.
    pub fn new() -> (s: EventScheduler)
        ensures
            s.events() == Seq::<Event>::empty(),
            s.time_spec() == 0,
            s.wf(),
    {
        EventScheduler { queue: Vec::new(), current_time: 0 }
    }

    /// Insert a new event; the current time does not move.
    pub fn schedule(&mut self, event: Event)
        ensures
            final(self).events() == old(self).events().push(event),
            final(self).time_spec() == old(self).time_spec(),
            old(self).wf() && event.time >= old(self).time_spec() ==> final(self).wf(),
    {
        self.queue.push(event);
    }

    /// Remove and return an event with the smallest time, advancing the
    /// current time to it; `None` on an empty scheduler.
    pub fn next_event(&mut self) -> (r: Option<Event>)
        ensures
            old(self).events().len() == 0 ==> r is None && *final(self) == *old(self),
            old(self).events().len() > 0 ==> {
                &&& r is Some
                &&& exists|i: int|
                    {
                        &&& 0 <= i < old(self).events().len()
                        &&& old(self).events()[i] == r->Some_0
                        &&& final(self).events() == old(self).events().remove(i)
                    }
                &&& forall|j: int|
                    0 <= j < old(self).events().len() ==> r->Some_0.time
                        <= #[trigger] old(self).events()[j].time
                &&& final(self).time_spec() == r->Some_0.time
            },
            old(self).wf() ==> {
                &&& final(self).wf()
                &&& final(self).time_spec() >= old(self).time_spec()
            },
    {
        if self.queue.len() == 0 {
            return None;
        }
        let ghost q0 = self.queue@;
        let mut best: usize = 0;
        let mut i: usize = 1;
        while i < self.queue.len()
            invariant
                self.queue@ == q0,
                q0.len() > 0,
                best < i <= q0.len(),
                forall|j: int| 0 <= j < i ==> q0[best as int].time <= #[trigger] q0[j].time,
            decreases self.queue.len() - i,
        {
            if self.queue[i].time < self.queue[best].time {
                best = i;
            }
            i = i + 1;
        }
        let event = self.queue.remove(best);
        self.current_time = event.time;
        proof {
            assert(q0[best as int] == event);
            assert(self.queue@ == q0.remove(best as int));
        }
        Some(event)
    }

    /// Look at the earliest pending event without removing it.
    pub fn peek_next(&self) -> (r: Option<&Event>)
        ensures
            self.events().len() == 0 <==> r is None,
            r is Some ==> {
                &&& exists|i: int|
                    0 <= i < self.events().len() && self.events()[i] == *r->Some_0
                &&& forall|j: int|
                    0 <= j < self.events().len() ==> r->Some_0.time
                        <= #[trigger] self.events()[j].time
            },
    {
        if self.queue.len() == 0 {
            return None;
        }
        let mut best: usize = 0;
        let mut i: usize = 1;
        while i < self.queue.len()
            invariant
                self.queue@.len() > 0,
                best < i <= self.queue@.len(),
                forall|j: int|
                    0 <= j < i ==> self.queue@[best as int].time <= #[trigger] self.queue@[j].time,
            decreases self.queue.len() - i,
        {
            if self.queue[i].time < self.queue[best].time {
                best = i;
            }
            i = i + 1;
        }
        Some(&self.queue[best])
    }

    /// The current simulation time, in ticks.
    pub fn current_time(&self) -> (t: u64)
        ensures
            t == self.time_spec(),
    {
        self.current_time
    }

    /// Whether any events are pending.
    pub fn has_events(&self) -> (b: bool)
        ensures
            b == (self.events().len() > 0),
    {
        self.queue.len() > 0
    }

    /// How many events are pending.
    pub fn pending_events(&self) -> (n: usize)
        ensures
            n == self.events().len(),
    {
        self.queue.len()
    }
}

} // verus!
