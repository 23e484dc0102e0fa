//! The fixed task set, the resources the tasks share, and the decisions
//! each periodic task takes from what it sampled.
use vstd::prelude::*;
use crate::alarm_manager::{any_must_ring, AlarmManager};
use crate::button::{sampled, Button, Event};
use crate::datetime::{DateTime, Measurement};
use crate::msg_queue::Msg;

verus! {

/// The interrupt tasks, lowest priority first.
#[derive(Clone, Copy, Debug, PartialEq, Eq, Structural)]
pub enum Task {
    Render,
    MessageDrain,
    ClockTick,
    Poll,
}

/// The resources held by the tasks.
#[derive(Clone, Copy, Debug, PartialEq, Eq, Structural)]
pub enum Resource {
    Rtc,
    Sensor,
    AlarmSchedules,
    AlarmPlayer,
    Buttons,
    Display,
    UiModel,
    MsgQueue,
}

/// Number of tasks.
pub const TASK_COUNT: usize = 4;

/// The tasks in priority order.
pub open spec fn task_at(i: int) -> Task {
    if i == 0 {
        Task::Render
    } else if i == 1 {
        Task::MessageDrain
    } else if i == 2 {
        Task::ClockTick
    } else {
        Task::Poll
    }
}

pub open spec fn priority_spec(t: Task) -> u8 {
    match t {
        Task::Render => 1,
        Task::MessageDrain => 2,
        Task::ClockTick => 3,
        Task::Poll => 4,
    }
}

/// Which resources each task declares.
pub open spec fn uses_spec(t: Task, r: Resource) -> bool {
    match t {
        Task::Render => r == Resource::UiModel || r == Resource::Display,
        Task::MessageDrain => r == Resource::UiModel || r == Resource::MsgQueue || r
            == Resource::Rtc,
        Task::ClockTick => r == Resource::Rtc || r == Resource::Sensor || r
            == Resource::AlarmSchedules || r == Resource::AlarmPlayer || r == Resource::MsgQueue,
        Task::Poll => r == Resource::Buttons || r == Resource::AlarmPlayer || r
            == Resource::MsgQueue,
    }
}

/// The ceiling of `r`: the highest priority among the tasks that use it.
pub open spec fn is_ceiling(r: Resource, c: u8) -> bool {
    &&& forall|t: Task| uses_spec(t, r) ==> priority_spec(t) <= c
    &&& exists|t: Task| uses_spec(t, r) && priority_spec(t) == c
}

impl Task {
    /// The task's static priority.
    pub fn priority(&self) -> (r: u8)
        ensures
            r == priority_spec(*self),
    {
        match self {
            Task::Render => 1,
            Task::MessageDrain => 2,
            Task::ClockTick => 3,
            Task::Poll => 4,
        }
    }

    /// Whether the task declares `r`; no other access is allowed.
    pub fn uses(&self, r: Resource) -> (b: bool)
        ensures
            b == uses_spec(*self, r),
    {
        match self {
            Task::Render => r == Resource::UiModel || r == Resource::Display,
            Task::MessageDrain => r == Resource::UiModel || r == Resource::MsgQueue || r
                == Resource::Rtc,
            Task::ClockTick => r == Resource::Rtc || r == Resource::Sensor || r
                == Resource::AlarmSchedules || r == Resource::AlarmPlayer || r
                == Resource::MsgQueue,
            Task::Poll => r == Resource::Buttons || r == Resource::AlarmPlayer || r
                == Resource::MsgQueue,
        }
    }
}

fn task_of_index(i: usize) -> (t: Task)
    ensures
        t == task_at(i as int),
{
    if i == 0 {
        Task::Render
    } else if i == 1 {
        Task::MessageDrain
    } else if i == 2 {
        Task::ClockTick
    } else {
        Task::Poll
    }
}

/// The ceiling of `r`, from the task table.
pub fn ceiling(r: Resource) -> (c: u8)
    ensures
        is_ceiling(r, c),
{
    let mut c: u8 = 0;
    let mut i: usize = 0;
    while i < TASK_COUNT
        invariant
            i <= TASK_COUNT,
            forall|j: int| 0 <= j < i ==> uses_spec(#[trigger] task_at(j), r) ==> priority_spec(
                task_at(j),
            ) <= c,
            c == 0 || exists|t: Task| uses_spec(t, r) && priority_spec(t) == c,
        decreases TASK_COUNT - i,
    {
        let t = task_of_index(i);
        if t.uses(r) && t.priority() > c {
            c = t.priority();
        }
        i = i + 1;
    }
    proof {
        assert forall|t: Task| uses_spec(t, r) implies priority_spec(t) <= c by {
            match t {
                Task::Render => assert(task_at(0) == t),
                Task::MessageDrain => assert(task_at(1) == t),
                Task::ClockTick => assert(task_at(2) == t),
                Task::Poll => assert(task_at(3) == t),
            }
        }
        assert(uses_spec(task_at(0), r) || uses_spec(task_at(1), r) || uses_spec(task_at(2), r)
            || uses_spec(task_at(3), r));
    }
    c
}

/// Whether task `t` must mask interrupts up to the ceiling of `r` while it
/// touches `r`: only when a task of higher priority shares it.
pub fn must_lock(t: Task, r: Resource) -> (b: bool)
    requires
        uses_spec(t, r),
    ensures
        b <==> exists|o: Task| uses_spec(o, r) && priority_spec(o) > priority_spec(t),
{
    t.priority() < ceiling(r)
}

/// What the millisecond task does after sampling its buttons.
#[derive(Debug)]
pub struct PollOutcome {
    /// Messages to queue, in order.
    pub msgs: Vec<Msg>,
    /// Whether the alarm player is to be silenced.
    pub stop_alarm: bool,
}

/// The messages that the three buttons' events give, in order.
pub open spec fn button_msgs(minus: Event, ok: Event, plus: Event) -> Seq<Msg> {
    (if minus == Event::Pressed {
        seq![Msg::ButtonMinus]
    } else {
        seq![]
    }) + (if ok == Event::Pressed {
        seq![Msg::ButtonOk]
    } else {
        seq![]
    }) + (if plus == Event::Pressed {
        seq![Msg::ButtonPlus]
    } else {
        seq![]
    })
}

/// Samples the three buttons once: a press of minus, OK or plus queues its
/// message, and a press of OK also silences the alarm.
pub fn poll_buttons(
    minus: &mut Button,
    ok: &mut Button,
    plus: &mut Button,
    levels: (bool, bool, bool),
) -> (r: PollOutcome)
    requires
        old(minus).wf(),
        old(ok).wf(),
        old(plus).wf(),
    ensures
        final(minus).wf() && final(ok).wf() && final(plus).wf(),
        *final(minus) == sampled(*old(minus), levels.0).0,
        *final(ok) == sampled(*old(ok), levels.1).0,
        *final(plus) == sampled(*old(plus), levels.2).0,
        r.msgs@ == button_msgs(
            sampled(*old(minus), levels.0).1,
            sampled(*old(ok), levels.1).1,
            sampled(*old(plus), levels.2).1,
        ),
        r.stop_alarm == (sampled(*old(ok), levels.1).1 == Event::Pressed),
{
    let mut msgs: Vec<Msg> = Vec::new();
    let e_minus = minus.poll(levels.0);
    let e_ok = ok.poll(levels.1);
    let e_plus = plus.poll(levels.2);
    let mut stop_alarm = false;
    if e_minus == Event::Pressed {
        msgs.push(Msg::ButtonMinus);
    }
    if e_ok == Event::Pressed {
        stop_alarm = true;
        msgs.push(Msg::ButtonOk);
    }
    if e_plus == Event::Pressed {
        msgs.push(Msg::ButtonPlus);
    }
    assert(msgs@ =~= button_msgs(e_minus, e_ok, e_plus));
    PollOutcome { msgs, stop_alarm }
}

/// What the once-a-second task does with the time and the reading it took.
#[derive(Debug)]
pub struct TickOutcome {
    /// Whether the alarm melody is to start.
    pub ring: bool,
    /// Messages to queue, in order.
    pub msgs: Vec<Msg>,
}

/// One second: the alarm rings when any entry rings at `now`, and the time
/// and the reading are queued, in that order.
pub fn clock_tick(alarms: &[AlarmManager; 8], now: DateTime, env: Measurement) -> (r: TickOutcome)
    ensures
        r.ring == exists|i: int| 0 <= i < 8 && (#[trigger] alarms[i]).rings_at(now),
        r.msgs@ == seq![Msg::DateTime(now), Msg::Environment(env)],
{
    let ring = any_must_ring(alarms, &now);
    let mut msgs: Vec<Msg> = Vec::new();
    msgs.push(Msg::DateTime(now));
    msgs.push(Msg::Environment(env));
    assert(msgs@ =~= seq![Msg::DateTime(now), Msg::Environment(env)]);
    TickOutcome { ring, msgs }
}

} // verus!
