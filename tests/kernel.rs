use rusty_clock::alarm::{Alarm, PlayerState};
use rusty_clock::alarm_manager::{any_must_ring, boot_alarms, AlarmManager};
use rusty_clock::button::{Button, Event, DEBOUNCE_THRESHOLD};
use rusty_clock::datetime::{DateTime, DayOfWeek, Measurement};
use rusty_clock::msg_queue::{Msg, MsgQueue, QUEUE_CAPACITY};
use rusty_clock::tasks::{ceiling, clock_tick, must_lock, poll_buttons, Resource, Task};

fn at(hour: u8, min: u8, sec: u8) -> DateTime {
    DateTime { year: 2018, month: 9, day: 1, hour, min, sec, day_of_week: DayOfWeek::Saturday }
}

fn entry(enabled: bool, hour: u8, min: u8) -> AlarmManager {
    let mut a = AlarmManager::new();
    a.is_enable = enabled;
    a.set_hour(hour);
    a.set_min(min);
    a
}

#[test]
fn must_ring_on_the_minute() {
    let a = entry(true, 23, 16);
    assert!(a.must_ring(&at(23, 16, 0)));
    assert!(!a.must_ring(&at(23, 16, 1)));
    assert!(!a.must_ring(&at(23, 17, 0)));
    assert!(!a.must_ring(&at(22, 16, 0)));
}

#[test]
fn disabled_alarm_never_rings() {
    let a = entry(false, 23, 16);
    assert!(!a.must_ring(&at(23, 16, 0)));
}

#[test]
fn boot_alarm_set() {
    let alarms = boot_alarms();
    assert!(alarms[0].is_enable);
    assert_eq!((alarms[0].hour, alarms[0].min), (23, 16));
    assert!(alarms[1..].iter().all(|a| !a.is_enable));
    assert!(any_must_ring(&alarms, &at(23, 16, 0)));
    assert!(!any_must_ring(&alarms, &at(23, 16, 30)));
}

#[test]
fn simultaneous_alarms_ring_once() {
    let mut alarms = boot_alarms();
    alarms[5] = entry(true, 23, 16);
    let tick = clock_tick(&alarms, at(23, 16, 0), Measurement { pressure: 1, temperature: 2, humidity: 3 });
    assert!(tick.ring);
    assert_eq!(
        tick.msgs,
        vec![
            Msg::DateTime(at(23, 16, 0)),
            Msg::Environment(Measurement { pressure: 1, temperature: 2, humidity: 3 })
        ]
    );
    let quiet = clock_tick(&alarms, at(7, 0, 0), Measurement { pressure: 1, temperature: 2, humidity: 3 });
    assert!(!quiet.ring);
}

#[test]
fn queue_keeps_push_order_and_drains_empty() {
    let mut q = MsgQueue::new();
    let msgs = [Msg::ButtonOk, Msg::ButtonPlus, Msg::ButtonMinus, Msg::DateTime(at(1, 2, 3))];
    for m in msgs {
        assert!(q.push(m).is_ok());
    }
    assert_eq!(q.len(), 4);
    assert_eq!(q.get(), msgs.to_vec());
    assert_eq!(q.len(), 0);
    assert!(q.get().is_empty());
}

#[test]
fn seventeenth_push_is_refused() {
    let mut q = MsgQueue::new();
    for _ in 0..QUEUE_CAPACITY {
        assert!(q.push(Msg::ButtonOk).is_ok());
    }
    assert_eq!(q.push(Msg::ButtonPlus), Err(Msg::ButtonPlus));
    assert_eq!(q.len(), 16);
    assert_eq!(q.get(), vec![Msg::ButtonOk; 16]);
}

#[test]
fn held_button_reports_one_press() {
    let mut b = Button::new();
    let mut presses = 0;
    for _ in 0..(DEBOUNCE_THRESHOLD as u32 * 5) {
        if b.poll(true) == Event::Pressed {
            presses += 1;
        }
    }
    assert_eq!(presses, 1);
}

#[test]
fn press_reported_after_threshold() {
    let mut b = Button::new();
    for _ in 1..DEBOUNCE_THRESHOLD {
        assert_eq!(b.poll(true), Event::Nothing);
    }
    assert_eq!(b.poll(true), Event::Pressed);
    for _ in 1..DEBOUNCE_THRESHOLD {
        assert_eq!(b.poll(false), Event::Nothing);
    }
    assert_eq!(b.poll(false), Event::Released);
}

#[test]
fn bounce_is_suppressed() {
    let mut b = Button::new();
    for i in 0..100u32 {
        assert_eq!(b.poll(i % 2 == 0), Event::Nothing);
    }
}

#[test]
fn ok_press_stops_alarm_and_queues() {
    let (mut minus, mut ok, mut plus) = (Button::new(), Button::new(), Button::new());
    let mut last = None;
    for _ in 0..DEBOUNCE_THRESHOLD {
        last = Some(poll_buttons(&mut minus, &mut ok, &mut plus, (false, true, true)));
    }
    let out = last.unwrap();
    assert!(out.stop_alarm);
    assert_eq!(out.msgs, vec![Msg::ButtonOk, Msg::ButtonPlus]);
    let next = poll_buttons(&mut minus, &mut ok, &mut plus, (false, true, true));
    assert!(!next.stop_alarm);
    assert!(next.msgs.is_empty());
}

#[test]
fn player_plays_melody_repeatedly_then_idles() {
    let mut a = Alarm::new();
    a.play(vec![2, 1], 2);
    let notes: Vec<Option<usize>> = (0..7).map(|_| a.poll()).collect();
    assert_eq!(notes, vec![Some(0), Some(1), Some(0), Some(0), Some(1), None, None]);
    assert_eq!(a.state(), PlayerState::Idle);
}

#[test]
fn player_stop_and_restart() {
    let mut a = Alarm::new();
    a.play(vec![3, 3, 3], 5);
    a.poll();
    a.stop();
    assert_eq!(a.state(), PlayerState::Idle);
    assert_eq!(a.poll(), None);
    a.play(vec![4], 1);
    assert_eq!(a.state(), PlayerState::Playing { repeats: 1, note: 0, elapsed: 0 });
    a.play(vec![], 3);
    assert_eq!(a.state(), PlayerState::Idle);
    a.play(vec![1], 0);
    assert_eq!(a.state(), PlayerState::Idle);
}

#[test]
fn ceilings_from_task_table() {
    assert_eq!(ceiling(Resource::MsgQueue), 4);
    assert_eq!(ceiling(Resource::UiModel), 2);
    assert_eq!(ceiling(Resource::Rtc), 3);
    assert_eq!(ceiling(Resource::Display), 1);
    assert_eq!(Task::Poll.priority(), 4);
    assert!(must_lock(Task::MessageDrain, Resource::MsgQueue));
    assert!(!must_lock(Task::Poll, Resource::MsgQueue));
    assert!(must_lock(Task::Render, Resource::UiModel));
    assert!(must_lock(Task::MessageDrain, Resource::Rtc));
    assert!(!must_lock(Task::ClockTick, Resource::Sensor));
    assert!(Task::Render.uses(Resource::Display));
    assert!(!Task::Render.uses(Resource::Rtc));
}
