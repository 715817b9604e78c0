//! The bounded event history: one append-ordered sequence per bucket (a
//! service id, or the system bucket for events without one), holding at most
//! the most recent `HISTORY_CAP` events.

use vstd::prelude::*;
use crate::models::{EventType, MonitorEvent};
use crate::text::owned;

verus! {

/// Most events a bucket keeps.
pub const HISTORY_CAP: usize = 100;

/// Bucket of the events that name no service.
pub const SYSTEM_BUCKET: &'static str = "system";

/// The bucket an event belongs to.
pub open spec fn bucket_of(e: MonitorEvent) -> Seq<char> {
    match e.service_id {
        Some(id) => id@,
        None => SYSTEM_BUCKET@,
    }
}

pub fn bucket_key(e: &MonitorEvent) -> (r: String)
    ensures
        r@ == bucket_of(*e),
{
    match &e.service_id {
        Some(id) => id.clone(),
        None => owned(SYSTEM_BUCKET),
    }
}

/// The last `n` elements of `s` (all of them when there are fewer).
pub open spec fn keep_last(s: Seq<MonitorEvent>, n: nat) -> Seq<MonitorEvent> {
    if s.len() > n {
        s.subrange(s.len() - n, s.len() as int)
    } else {
        s
    }
}

/// Number of events of type `t` in `s`.
pub open spec fn count_type(s: Seq<MonitorEvent>, t: EventType) -> nat
    decreases s.len(),
{
    if s.len() == 0 {
        0
    } else {
        count_type(s.drop_last(), t) + if s.last().event_type == t {
            1nat
        } else {
            0nat
        }
    }
}

/// The history of one bucket, oldest first.
#[derive(Debug)]
pub struct EventHistory {
    events: Vec<MonitorEvent>,
}

impl View for EventHistory {
    type V = Seq<MonitorEvent>;

    closed spec fn view(&self) -> Seq<MonitorEvent> {
        self.events@
    }
}

impl EventHistory {
    pub open spec fn wf(&self) -> bool {
        self@.len() <= HISTORY_CAP
    }

    pub fn new() -> (r: EventHistory)
        ensures
            r.wf(),
            r@ == Seq::<MonitorEvent>::empty(),
    {
        EventHistory { events: Vec::new() }
    }

    /// Appends an event, dropping the oldest one when the cap is exceeded.
    pub fn record(&mut self, event: MonitorEvent)
        requires
            old(self).wf(),
        ensures
            final(self).wf(),
            final(self)@ == keep_last(old(self)@.push(event), HISTORY_CAP as nat),
    {
        let ghost before = self@;
        if self.events.len() >= HISTORY_CAP {
            self.events.remove(0);
        }
        self.events.push(event);
        assert(self@ =~= keep_last(before.push(event), HISTORY_CAP as nat));
    }

    pub fn len(&self) -> (r: usize)
        ensures
            r == self@.len(),
    {
        self.events.len()
    }

    pub fn events(&self) -> (r: &Vec<MonitorEvent>)
        ensures
            r@ == self@,
    {
        &self.events
    }

    /// Number of held events of the given type.
    pub fn count_of(&self, t: EventType) -> (r: usize)
        ensures
            r == count_type(self@, t),
    {
        let mut n: usize = 0;
        let mut i: usize = 0;
        while i < self.events.len()
            invariant
                i <= self.events@.len(),
                n == count_type(self.events@.subrange(0, i as int), t),
                n <= i,
            decreases self.events@.len() - i,
        {
            assert(self.events@.subrange(0, i + 1).drop_last() =~= self.events@.subrange(
                0,
                i as int,
            ));
            if self.events[i].event_type == t {
                n = n + 1;
            }
            i = i + 1;
        }
        assert(self.events@.subrange(0, i as int) =~= self.events@);
        n
    }
}

/// A bucket's history never holds more than `HISTORY_CAP` events; once it is
/// full, recording one more drops exactly the oldest and keeps the newest last.
pub proof fn history_cap_law(before: Seq<MonitorEvent>, e: MonitorEvent)
    requires
        before.len() <= HISTORY_CAP,
    ensures
        keep_last(before.push(e), HISTORY_CAP as nat).len() <= HISTORY_CAP,
        keep_last(before.push(e), HISTORY_CAP as nat).last() == e,
        before.len() == HISTORY_CAP ==> keep_last(before.push(e), HISTORY_CAP as nat)
            == before.drop_first().push(e),
        before.len() < HISTORY_CAP ==> keep_last(before.push(e), HISTORY_CAP as nat)
            == before.push(e),
{
    if before.len() == HISTORY_CAP {
        assert(keep_last(before.push(e), HISTORY_CAP as nat) =~= before.drop_first().push(e));
    }
}

} // verus!
