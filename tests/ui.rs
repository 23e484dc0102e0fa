use rusty_clock::datetime::{DateTime, DayOfWeek, Measurement};
use rusty_clock::msg_queue::Msg;
use rusty_clock::ui::{Cmd, EditDateTime, EditField, MenuElt, Model, Screen};

fn sample_time() -> DateTime {
    DateTime {
        year: 2018,
        month: 9,
        day: 1,
        hour: 23,
        min: 15,
        sec: 40,
        day_of_week: DayOfWeek::Saturday,
    }
}

fn editing(field: EditField, month: u8) -> Model {
    let mut m = Model::init();
    let mut dt = sample_time();
    dt.month = month;
    m.screen = Screen::SetClock(EditDateTime { datetime: dt, state: field });
    m
}

fn edited_month(m: &Model) -> u8 {
    match m.screen {
        Screen::SetClock(e) => e.datetime.month,
        _ => panic!("not editing"),
    }
}

#[test]
fn month_wraps_up_from_december() {
    let mut m = editing(EditField::Month, 12);
    assert!(m.update(Msg::ButtonPlus).is_empty());
    assert_eq!(edited_month(&m), 1);
}

#[test]
fn month_wraps_down_from_january() {
    let mut m = editing(EditField::Month, 1);
    assert!(m.update(Msg::ButtonMinus).is_empty());
    assert_eq!(edited_month(&m), 12);
}

#[test]
fn month_stays_in_range_over_many_presses() {
    let mut m = editing(EditField::Month, 6);
    for i in 0..50u32 {
        let msg = if i % 3 == 0 { Msg::ButtonMinus } else { Msg::ButtonPlus };
        m.update(msg);
        let month = edited_month(&m);
        assert!((1..=12).contains(&month));
    }
    // 50 presses: 17 down, 33 up, a net 16 up from June.
    assert_eq!(edited_month(&m), 10);
}

#[test]
fn month_edit_leaves_other_fields() {
    let mut m = editing(EditField::Month, 12);
    m.update(Msg::ButtonPlus);
    match m.screen {
        Screen::SetClock(e) => {
            assert_eq!(e.datetime.year, 2018);
            assert_eq!(e.datetime.day, 1);
            assert_eq!(e.datetime.hour, 23);
        }
        _ => panic!("not editing"),
    }
}

#[test]
fn ok_cycles_clock_and_menu() {
    let mut m = Model::init();
    for i in 0..6 {
        let cmds = m.update(Msg::ButtonOk);
        assert!(cmds.is_empty());
        if i % 2 == 0 {
            assert_eq!(m.screen, Screen::Menu(MenuElt::Clock));
        } else {
            assert_eq!(m.screen, Screen::Clock);
        }
    }
}

#[test]
fn set_clock_round_emits_one_update() {
    let mut m = Model::init();
    m.update(Msg::DateTime(sample_time()));
    m.update(Msg::ButtonOk);
    m.update(Msg::ButtonPlus);
    assert_eq!(m.screen, Screen::Menu(MenuElt::SetClock));
    assert!(m.update(Msg::ButtonOk).is_empty());
    // one year up, then through month, day, hour and minute
    m.update(Msg::ButtonPlus);
    let mut all = Vec::new();
    for _ in 0..5 {
        all.extend(m.update(Msg::ButtonOk));
    }
    assert_eq!(m.screen, Screen::Clock);
    let mut expected = sample_time();
    expected.sec = 0;
    expected.year = 2019;
    assert_eq!(all, vec![Cmd::UpdateRtc(expected)]);
}

#[test]
fn year_wraps_at_both_ends() {
    let mut m = editing(EditField::Year, 9);
    if let Screen::SetClock(ref mut e) = m.screen {
        e.datetime.year = 2105;
    }
    m.update(Msg::ButtonPlus);
    match m.screen {
        Screen::SetClock(e) => assert_eq!(e.datetime.year, 1970),
        _ => panic!("not editing"),
    }
    m.update(Msg::ButtonMinus);
    match m.screen {
        Screen::SetClock(e) => assert_eq!(e.datetime.year, 2105),
        _ => panic!("not editing"),
    }
}

#[test]
fn day_hour_minute_wrap() {
    let mut e = EditDateTime::new(sample_time());
    e.ok();
    e.ok();
    e.datetime.day = 31;
    e.next();
    assert_eq!(e.datetime.day, 1);
    e.prev();
    assert_eq!(e.datetime.day, 31);
    e.ok();
    e.datetime.hour = 0;
    e.prev();
    assert_eq!(e.datetime.hour, 23);
    e.next();
    assert_eq!(e.datetime.hour, 0);
    assert_eq!(e.ok(), None);
    e.datetime.min = 59;
    e.next();
    assert_eq!(e.datetime.min, 0);
    assert_eq!(e.ok(), Some(e.datetime));
}

#[test]
fn plus_on_clock_changes_nothing() {
    let mut m = Model::init();
    let before = m;
    assert!(m.update(Msg::ButtonPlus).is_empty());
    assert!(m.update(Msg::ButtonMinus).is_empty());
    assert_eq!(m, before);
}

#[test]
fn menu_ring_of_two() {
    assert_eq!(MenuElt::Clock.next(), MenuElt::SetClock);
    assert_eq!(MenuElt::SetClock.next(), MenuElt::Clock);
    assert_eq!(MenuElt::Clock.prev(), MenuElt::SetClock);
    assert_eq!(MenuElt::SetClock.prev(), MenuElt::Clock);
}

#[test]
fn clock_view_text() {
    let mut m = Model::init();
    m.update(Msg::DateTime(sample_time()));
    m.update(Msg::Environment(Measurement { pressure: 101325, temperature: 2105, humidity: 0 }));
    assert_eq!(
        m.view().unwrap(),
        "2018-09-01 23:15:40\n\nTemperature: 21.05 deg C\nPressure:    1013.25hPa\n"
    );
    m.update(Msg::Environment(Measurement { pressure: 99000, temperature: -150, humidity: 45 }));
    assert_eq!(
        m.view().unwrap(),
        "2018-09-01 23:15:40\n\nTemperature: -1.50 deg C\nPressure:    990.00hPa\nHumidity:    45%\n"
    );
}

#[test]
fn menu_and_edit_view_text() {
    let mut m = Model::init();
    m.update(Msg::ButtonOk);
    assert_eq!(m.view().unwrap(), "1970-01-01 00:00:00\n\nMenu: clock\n");
    m.update(Msg::ButtonMinus);
    assert_eq!(m.view().unwrap(), "1970-01-01 00:00:00\n\nMenu: set clock\n");
    m.update(Msg::ButtonOk);
    m.update(Msg::ButtonOk);
    assert_eq!(m.view().unwrap(), "1970-01-01 00:00:00\n\nSet clock: month: 1\n");
}

#[test]
fn view_twice_is_identical() {
    let mut m = Model::init();
    m.update(Msg::DateTime(sample_time()));
    let a = m.view();
    let b = m.view();
    assert_eq!(a, b);
    assert!(a.is_ok());
}

#[test]
fn longest_clock_view_fits() {
    let mut m = Model::init();
    m.update(Msg::Environment(Measurement {
        pressure: u32::MAX,
        temperature: i16::MIN,
        humidity: 255,
    }));
    // the longest clock text still fits
    let text = m.view().unwrap();
    assert!(text.len() <= 128);
}

#[test]
fn update_all_folds_in_order() {
    let mut m = Model::init();
    m.update(Msg::DateTime(sample_time()));
    let msgs = vec![
        Msg::ButtonOk,
        Msg::ButtonPlus,
        Msg::ButtonOk,
        Msg::ButtonOk,
        Msg::ButtonOk,
        Msg::ButtonOk,
        Msg::ButtonOk,
        Msg::ButtonOk,
        Msg::ButtonOk,
    ];
    let cmds = m.update_all(msgs);
    let mut expected = sample_time();
    expected.sec = 0;
    assert_eq!(cmds, vec![Cmd::UpdateRtc(expected)]);
    assert_eq!(m.screen, Screen::Menu(MenuElt::Clock));
}

#[test]
fn datetime_validity() {
    assert!(sample_time().is_valid());
    assert!(DateTime::epoch().is_valid());
    let mut bad = sample_time();
    bad.month = 13;
    assert!(!bad.is_valid());
    bad.month = 12;
    bad.year = 1969;
    assert!(!bad.is_valid());
}
