//! Recurring events, each with its delay, and the deadlines of those that are
//! scheduled.

use crate::worker::LifecycleAction;
use vstd::prelude::*;

verus! {

/// The event has no delay, so it cannot be scheduled.
#[derive(Debug, Clone, Copy, PartialEq, Eq, Structural)]
pub struct UnknownEvent;

/// The delay that `delays` gives to `event`: that of its first entry.
pub open spec fn delay_of(delays: Seq<(u64, LifecycleAction)>, event: LifecycleAction) -> Option<
    u64,
>
    decreases delays.len(),
{
    if delays.len() == 0 {
        None
    } else if delays[0].1 == event {
        Some(delays[0].0)
    } else {
        delay_of(delays.skip(1), event)
    }
}

/// What a scheduler knows: the delay of each event and the deadlines of the
/// scheduled ones, in nanoseconds.
#[verifier::ext_equal]
pub struct SchedulerModel {
    pub delays: Seq<(u64, LifecycleAction)>,
    pub deadlines: Map<LifecycleAction, nat>,
}

impl SchedulerModel {
    /// Whether `event` can be scheduled.
    pub open spec fn knows(self, event: LifecycleAction) -> bool {
        delay_of(self.delays, event) is Some
    }

    /// The scheduler with the deadline of `event` one delay after `now`, in
    /// place of the one it may have had.
    pub open spec fn schedule_event(self, event: LifecycleAction, now: nat) -> SchedulerModel {
        SchedulerModel {
            deadlines: self.deadlines.insert(event, now + delay_of(self.delays, event)->0 as nat),
            ..self
        }
    }

    /// Whether `event` is due at `deadline` and nothing is due before that.
    pub open spec fn is_next(self, deadline: nat, event: LifecycleAction) -> bool {
        &&& self.deadlines.contains_pair(event, deadline)
        &&& forall|other: LifecycleAction| #[trigger]
            self.deadlines.dom().contains(other) ==> deadline <= self.deadlines[other]
    }
}

spec fn lists(deadlines: Seq<(u128, LifecycleAction)>, event: LifecycleAction) -> bool {
    exists|i: int| 0 <= i < deadlines.len() && #[trigger] deadlines[i].1 == event
}

spec fn listed_at(deadlines: Seq<(u128, LifecycleAction)>, event: LifecycleAction) -> int {
    choose|i: int| 0 <= i < deadlines.len() && #[trigger] deadlines[i].1 == event
}

/// Schedules events and tells which one is due next. Times are nanoseconds
/// since a fixed origin.
#[derive(Debug)]
pub struct Scheduler {
    delays: Vec<(u64, LifecycleAction)>,
    deadlines: Vec<(u128, LifecycleAction)>,
}

impl View for Scheduler {
    type V = SchedulerModel;

    closed spec fn view(&self) -> SchedulerModel {
        SchedulerModel {
            delays: self.delays@,
            deadlines: Map::new(
                |event: LifecycleAction| lists(self.deadlines@, event),
                |event: LifecycleAction|
                    self.deadlines@[listed_at(self.deadlines@, event)].0 as nat,
            ),
        }
    }
}

impl Scheduler {
    /// No event is listed twice.
    pub closed spec fn wf(self) -> bool {
        forall|i: int, j: int|
            #![trigger self.deadlines@[i], self.deadlines@[j]]
            0 <= i < j < self.deadlines@.len() ==> self.deadlines@[i].1 != self.deadlines@[j].1
    }

    /// A scheduler for events with the given delays, none of them scheduled.
    pub fn new(delays: Vec<(u64, LifecycleAction)>) -> (scheduler: Self)
        ensures
            scheduler.wf(),
            scheduler@ == (SchedulerModel { delays: delays@, deadlines: Map::empty() }),
    {
        let scheduler = Scheduler { delays, deadlines: Vec::new() };
        assert(scheduler@.deadlines =~= Map::empty());
        scheduler
    }

    fn delay(&self, event: LifecycleAction) -> (delay: Option<u64>)
        ensures
            delay == delay_of(self@.delays, event),
    {
        let mut i: usize = 0;
        assert(self.delays@.skip(0) =~= self.delays@);
        while i < self.delays.len()
            invariant
                i <= self.delays.len(),
                delay_of(self.delays@, event) == delay_of(self.delays@.skip(i as int), event),
            decreases self.delays.len() - i,
        {
            assert(self.delays@.skip(i as int).skip(1) =~= self.delays@.skip(i + 1));
            if self.delays[i].1 == event {
                return Some(self.delays[i].0);
            }
            i += 1;
        }
        None
    }

    fn position(&self, event: LifecycleAction) -> (found: Option<usize>)
        requires
            self.wf(),
        ensures
            found is Some <==> lists(self.deadlines@, event),
            found matches Some(i) ==> i < self.deadlines@.len() && i == listed_at(
                self.deadlines@,
                event,
            ) && self.deadlines@[i as int].1 == event,
    {
        let mut i: usize = 0;
        while i < self.deadlines.len()
            invariant
                i <= self.deadlines.len(),
                self.wf(),
                forall|j: int| 0 <= j < i ==> #[trigger] self.deadlines@[j].1 != event,
            decreases self.deadlines.len() - i,
        {
            if self.deadlines[i].1 == event {
                assert(self.deadlines@[i as int].1 == event);
                return Some(i);
            }
            i += 1;
        }
        None
    }

    /// Schedules `event` one delay after `now`. A deadline that it had before
    /// is dropped.
    pub fn schedule_event(&mut self, event: LifecycleAction, now: u64) -> (scheduled: Result<
        (),
        UnknownEvent,
    >)
        requires
            old(self).wf(),
        ensures
            final(self).wf(),
            scheduled is Ok <==> old(self)@.knows(event),
            scheduled is Ok ==> final(self)@ == old(self)@.schedule_event(event, now as nat),
            scheduled is Err ==> final(self)@ == old(self)@,
    {
        let delay: u64 = match self.delay(event) {
            Some(delay) => delay,
            None => return Err(UnknownEvent),
        };
        let deadline: u128 = now as u128 + delay as u128;
        match self.position(event) {
            Some(i) => {
                self.deadlines.set(i, (deadline, event));
            },
            None => {
                self.deadlines.push((deadline, event));
            },
        }
        proof {
            let before = old(self).deadlines@;
            let after = self.deadlines@;
            let at = if lists(before, event) {
                listed_at(before, event)
            } else {
                before.len() as int
            };
            assert(after[at].1 == event);
            assert forall|other: LifecycleAction| other != event implies (lists(after, other)
                <==> lists(before, other)) && (lists(before, other) ==> after[listed_at(
                after,
                other,
            )] == before[listed_at(before, other)]) by {
                if lists(before, other) {
                    assert(after[listed_at(before, other)].1 == other);
                }
                if lists(after, other) {
                    assert(before[listed_at(after, other)].1 == other);
                }
            }
            assert(self@.deadlines =~= old(self)@.schedule_event(event, now as nat).deadlines);
        }
        Ok(())
    }

    /// The earliest deadline and the event that is due then.
    pub fn next_deadline(&self) -> (next: Option<(u128, LifecycleAction)>)
        requires
            self.wf(),
        ensures
            next is None <==> self@.deadlines.dom() == Set::<LifecycleAction>::empty(),
            next matches Some((deadline, event)) ==> self@.is_next(deadline as nat, event),
    {
        if self.deadlines.len() == 0 {
            assert(self@.deadlines.dom() =~= Set::<LifecycleAction>::empty());
            return None;
        }
        let mut next: usize = 0;
        let mut i: usize = 1;
        while i < self.deadlines.len()
            invariant
                next < i <= self.deadlines.len(),
                forall|j: int|
                    0 <= j < i ==> self.deadlines@[next as int].0 <= #[trigger] self.deadlines@[j].0,
            decreases self.deadlines.len() - i,
        {
            if self.deadlines[i].0 < self.deadlines[next].0 {
                next = i;
            }
            i += 1;
        }
        proof {
            let event = self.deadlines@[next as int].1;
            assert(lists(self.deadlines@, event));
            assert(self@.deadlines.dom().contains(event));
        }
        Some(self.deadlines[next])
    }
}

/// The delay of an event is that of its first entry; an event without an entry
/// has none.
pub proof fn delay_is_that_of_the_first_entry(
    delays: Seq<(u64, LifecycleAction)>,
    event: LifecycleAction,
    at: int,
)
    ensures
        (forall|i: int| 0 <= i < delays.len() ==> #[trigger] delays[i].1 != event) ==> delay_of(
            delays,
            event,
        ) is None,
        0 <= at < delays.len() && delays[at].1 == event && (forall|i: int|
            0 <= i < at ==> #[trigger] delays[i].1 != event) ==> delay_of(delays, event) == Some(
            delays[at].0,
        ),
    decreases delays.len(),
{
    if delays.len() > 0 {
        let rest = delays.skip(1);
        delay_is_that_of_the_first_entry(rest, event, at - 1);
        assert(forall|i: int| 0 <= i < rest.len() ==> #[trigger] rest[i] == delays[i + 1]);
    }
}

/// Scheduling gives an event one deadline, one delay away, and leaves the delays
/// and all other deadlines alone; only events with a delay can be scheduled.
pub proof fn scheduling_moves_one_deadline(
    s: SchedulerModel,
    event: LifecycleAction,
    other: LifecycleAction,
    now: nat,
)
    ensures
        s.knows(event) <==> delay_of(s.delays, event) is Some,
        s.schedule_event(event, now).delays == s.delays,
        s.schedule_event(event, now).deadlines.dom().contains(event),
        delay_of(s.delays, event) matches Some(delay) ==> s.schedule_event(
            event,
            now,
        ).deadlines[event] == now + delay,
        other != event ==> (s.schedule_event(event, now).deadlines.dom().contains(other)
            <==> s.deadlines.dom().contains(other)),
        other != event && s.deadlines.dom().contains(other) ==> s.schedule_event(
            event,
            now,
        ).deadlines[other] == s.deadlines[other],
{
}

/// The event that is next is scheduled at that time, and nothing that is scheduled
/// comes before it; so all events that are next are due at one time.
pub proof fn nothing_is_due_before_the_next_event(
    s: SchedulerModel,
    deadline: nat,
    event: LifecycleAction,
    other: LifecycleAction,
    other_deadline: nat,
)
    ensures
        s.is_next(deadline, event) ==> s.deadlines.dom().contains(event) && s.deadlines[event]
            == deadline,
        s.is_next(deadline, event) && s.deadlines.dom().contains(other) ==> deadline
            <= s.deadlines[other],
        s.is_next(deadline, event) && s.is_next(other_deadline, other) ==> deadline
            == other_deadline,
        s.deadlines.dom().contains(event) && s.deadlines[event] == deadline && (forall|e:
            LifecycleAction| #[trigger]
            s.deadlines.dom().contains(e) ==> deadline <= s.deadlines[e]) ==> s.is_next(
            deadline,
            event,
        ),
{
}

} // verus!
