//! The screen and menu state machine: messages update a model, and the
//! model renders to text.
use vstd::prelude::*;
use crate::datetime::{DateTime, YEAR_MAX, YEAR_MIN};
use crate::msg_queue::Msg;
use crate::text::{centi, centi_text, decimal, decimal_text, two_digit_text, two_digits};
use vstd::string::StringExecFns;
use vstd::utf8::encode_utf8;

verus! {

/// A request for work outside the user interface.
#[derive(Clone, Copy, Debug, PartialEq, Eq, Structural)]
pub enum Cmd {
    UpdateRtc(DateTime),
}

/// Number of commands one message may emit.
pub const CMD_CAPACITY: usize = 4;

/// The commands held by a command list, in order.
pub uninterp spec fn cmd_items(v: heapless::Vec<Cmd, 4>) -> Seq<Cmd>;

/// Outcome of adding a command: handed back when there is no room.
pub type CmdPushResult = Result<(), Cmd>;

/// Relies on heapless::Vec::new: the new list is empty.
#[verifier::external_body]
fn cmds_new() -> (r: heapless::Vec<Cmd, 4>)
    ensures
        cmd_items(r) == Seq::<Cmd>::empty(),
{
    heapless::Vec::new()
}

/// Relies on heapless::Vec::push: appends below the capacity, otherwise
/// hands the command back and leaves the list as it was.
#[verifier::external_body]
fn cmds_push(v: &mut heapless::Vec<Cmd, 4>, c: Cmd) -> (r: CmdPushResult)
    ensures
        r is Ok <==> cmd_items(*old(v)).len() < CMD_CAPACITY,
        r is Ok ==> cmd_items(*final(v)) == cmd_items(*old(v)).push(c),
        r is Err ==> r->Err_0 == c,
        r is Err ==> cmd_items(*final(v)) == cmd_items(*old(v)),
{
    v.push(c)
}

/// Relies on heapless::Vec's by-value iterator: yields the commands in order.
#[verifier::external_body]
fn cmds_into_vec(v: heapless::Vec<Cmd, 4>) -> (r: Vec<Cmd>)
    ensures
        r@ == cmd_items(v),
{
    v.into_iter().collect()
}

/// An entry of the two-item ring menu.
#[derive(Clone, Copy, Debug, PartialEq, Eq, Structural)]
pub enum MenuElt {
    Clock,
    SetClock,
}

impl MenuElt {
    /// The other entry of the ring.
    pub open spec fn other(self) -> MenuElt {
        match self {
            MenuElt::Clock => MenuElt::SetClock,
            MenuElt::SetClock => MenuElt::Clock,
        }
    }

    pub fn next(&self) -> (r: MenuElt)
        ensures
            r == self.other(),
    {
        match *self {
            MenuElt::Clock => MenuElt::SetClock,
            MenuElt::SetClock => MenuElt::Clock,
        }
    }

    pub fn prev(&self) -> (r: MenuElt)
        ensures
            r == self.other(),
    {
        match *self {
            MenuElt::Clock => MenuElt::SetClock,
            MenuElt::SetClock => MenuElt::Clock,
        }
    }
}

/// The field under edit, in editing order.
#[derive(Clone, Copy, Debug, PartialEq, Eq, Structural)]
pub enum EditField {
    Year,
    Month,
    Day,
    Hour,
    Min,
}

/// One step up within `lo..=hi`, from `hi` back to `lo`.
pub open spec fn wrap_up(v: int, lo: int, hi: int) -> int {
    if v >= hi {
        lo
    } else {
        v + 1
    }
}

/// One step down within `lo..=hi`, from `lo` round to `hi`.
pub open spec fn wrap_down(v: int, lo: int, hi: int) -> int {
    if v <= lo {
        hi
    } else {
        v - 1
    }
}

/// A date under edit, with the cursor on one of its fields.
#[derive(Clone, Copy, Debug, PartialEq, Eq, Structural)]
pub struct EditDateTime {
    pub datetime: DateTime,
    pub state: EditField,
}

impl EditDateTime {
    pub open spec fn wf(self) -> bool {
        self.datetime.wf()
    }

    /// The draft after one step up of the field under edit.
    pub open spec fn stepped_up(self) -> EditDateTime {
        let d = self.datetime;
        let nd = match self.state {
            EditField::Year => DateTime {
                year: wrap_up(d.year as int, YEAR_MIN as int, YEAR_MAX as int) as u16,
                ..d
            },
            EditField::Month => DateTime { month: wrap_up(d.month as int, 1, 12) as u8, ..d },
            EditField::Day => DateTime { day: wrap_up(d.day as int, 1, 31) as u8, ..d },
            EditField::Hour => DateTime { hour: wrap_up(d.hour as int, 0, 23) as u8, ..d },
            EditField::Min => DateTime { min: wrap_up(d.min as int, 0, 59) as u8, ..d },
        };
        EditDateTime { datetime: nd, ..self }
    }

    /// The draft after one step down of the field under edit.
    pub open spec fn stepped_down(self) -> EditDateTime {
        let d = self.datetime;
        let nd = match self.state {
            EditField::Year => DateTime {
                year: wrap_down(d.year as int, YEAR_MIN as int, YEAR_MAX as int) as u16,
                ..d
            },
            EditField::Month => DateTime { month: wrap_down(d.month as int, 1, 12) as u8, ..d },
            EditField::Day => DateTime { day: wrap_down(d.day as int, 1, 31) as u8, ..d },
            EditField::Hour => DateTime { hour: wrap_down(d.hour as int, 0, 23) as u8, ..d },
            EditField::Min => DateTime { min: wrap_down(d.min as int, 0, 59) as u8, ..d },
        };
        EditDateTime { datetime: nd, ..self }
    }

    /// The field that follows `f` in editing order; none after the minutes.
    pub open spec fn field_after(f: EditField) -> Option<EditField> {
        match f {
            EditField::Year => Some(EditField::Month),
            EditField::Month => Some(EditField::Day),
            EditField::Day => Some(EditField::Hour),
            EditField::Hour => Some(EditField::Min),
            EditField::Min => None,
        }
    }

    /// Starts editing `datetime` at its year.
    pub fn new(datetime: DateTime) -> (r: EditDateTime)
        ensures
            r == (EditDateTime { datetime, state: EditField::Year }),
    {
        EditDateTime { datetime, state: EditField::Year }
    }

    /// Steps the field under edit up, wrapping within its domain.
    pub fn next(&mut self)
        requires
            old(self).wf(),
        ensures
            *final(self) == old(self).stepped_up(),
            final(self).wf(),
    {
        match self.state {
            EditField::Year => {
                if self.datetime.year >= YEAR_MAX {
                    self.datetime.year = YEAR_MIN;
                } else {
                    self.datetime.year = self.datetime.year + 1;
                }
            },
            EditField::Month => self.datetime.month = self.datetime.month % 12 + 1,
            EditField::Day => self.datetime.day = self.datetime.day % 31 + 1,
            EditField::Hour => self.datetime.hour = (self.datetime.hour + 1) % 24,
            EditField::Min => self.datetime.min = (self.datetime.min + 1) % 60,
        }
    }

    /// Steps the field under edit down, wrapping within its domain.
    pub fn prev(&mut self)
        requires
            old(self).wf(),
        ensures
            *final(self) == old(self).stepped_down(),
            final(self).wf(),
    {
        match self.state {
            EditField::Year => {
                if self.datetime.year <= YEAR_MIN {
                    self.datetime.year = YEAR_MAX;
                } else {
                    self.datetime.year = self.datetime.year - 1;
                }
            },
            EditField::Month => self.datetime.month = (self.datetime.month + 12 - 2) % 12 + 1,
            EditField::Day => self.datetime.day = (self.datetime.day + 31 - 2) % 31 + 1,
            EditField::Hour => self.datetime.hour = (self.datetime.hour + 24 - 1) % 24,
            EditField::Min => self.datetime.min = (self.datetime.min + 60 - 1) % 60,
        }
    }

    /// Moves the cursor to the next field; past the minutes, hands back
    /// the finished date and leaves the draft as it is.
    pub fn ok(&mut self) -> (r: Option<DateTime>)
        ensures
            Self::field_after(old(self).state) is None ==> r == Some(old(self).datetime)
                && *final(self) == *old(self),
            Self::field_after(old(self).state) is Some ==> r is None && *final(self) == (
            EditDateTime { state: Self::field_after(old(self).state)->0, ..*old(self) }),
    {
        match self.state {
            EditField::Year => self.state = EditField::Month,
            EditField::Month => self.state = EditField::Day,
            EditField::Day => self.state = EditField::Hour,
            EditField::Hour => self.state = EditField::Min,
            EditField::Min => return Some(self.datetime),
        }
        None
    }
}

/// What the display shows.
#[derive(Clone, Copy, Debug, PartialEq, Eq, Structural)]
pub enum Screen {
    Clock,
    Menu(MenuElt),
    SetClock(EditDateTime),
}

impl Screen {
    pub open spec fn wf(self) -> bool {
        match self {
            Screen::SetClock(e) => e.wf(),
            _ => true,
        }
    }
}

/// Size of the display buffer, in bytes of UTF-8.
pub const VIEW_CAPACITY: usize = 128;

#[verifier::external_type_specification]
#[verifier::external_body]
pub struct ExHeaplessString<const N: usize>(heapless::String<N>);

/// The characters held by a display buffer.
pub uninterp spec fn display_chars(s: heapless::String<128>) -> Seq<char>;

/// Outcome of copying text into a display buffer.
pub type DisplayResult = Result<heapless::String<128>, ()>;

/// Relies on heapless::String's `TryFrom<&str>` (a `push_str` onto an
/// empty buffer): it copies the text when its UTF-8 bytes fit in the
/// capacity, and fails without copying otherwise.
#[verifier::external_body]
fn display_text(s: &str) -> (r: DisplayResult)
    ensures
        r is Ok <==> encode_utf8(s@).len() <= VIEW_CAPACITY,
        r is Ok ==> display_chars(r->Ok_0) == s@,
{
    heapless::String::try_from(s)
}

/// Why a model could not be rendered.
#[derive(Clone, Copy, Debug, PartialEq, Eq, Structural)]
pub enum ViewError {
    /// The text does not fit in the display buffer.
    BufferFull,
}

/// `2018-09-01 23:15:40`.
pub open spec fn datetime_text(d: DateTime) -> Seq<char> {
    decimal(d.year as nat) + "-"@ + two_digits(d.month as nat) + "-"@ + two_digits(d.day as nat)
        + " "@ + two_digits(d.hour as nat) + ":"@ + two_digits(d.min as nat) + ":"@ + two_digits(
        d.sec as nat,
    )
}

/// The label of a menu entry.
pub open spec fn menu_label(elt: MenuElt) -> Seq<char> {
    match elt {
        MenuElt::Clock => "clock"@,
        MenuElt::SetClock => "set clock"@,
    }
}

/// The field under edit, named, with its value.
pub open spec fn edit_text(e: EditDateTime) -> Seq<char> {
    match e.state {
        EditField::Year => "year: "@ + decimal(e.datetime.year as nat),
        EditField::Month => "month: "@ + decimal(e.datetime.month as nat),
        EditField::Day => "day: "@ + decimal(e.datetime.day as nat),
        EditField::Hour => "hour: "@ + decimal(e.datetime.hour as nat),
        EditField::Min => "min: "@ + decimal(e.datetime.min as nat),
    }
}

/// Magnitude of a temperature.
pub open spec fn magnitude(t: i16) -> nat {
    if t < 0 {
        (-t) as nat
    } else {
        t as nat
    }
}

/// Everything the display depends on.
#[derive(Clone, Copy, Debug, PartialEq, Eq, Structural)]
pub struct Model {
    pub now: DateTime,
    /// Pascals.
    pub pressure: u32,
    /// Hundredths of a degree Celsius.
    pub temperature: i16,
    /// Percent; 0 when absent.
    pub humidity: u8,
    pub screen: Screen,
}

/// What a message asks for, as far as the model may take it.
pub open spec fn msg_wf(msg: Msg) -> bool {
    match msg {
        Msg::DateTime(dt) => dt.wf(),
        _ => true,
    }
}

impl Model {
    pub open spec fn wf(self) -> bool {
        self.now.wf() && self.screen.wf()
    }

    /// The screen after the OK button.
    pub open spec fn screen_after_ok(self) -> Screen {
        match self.screen {
            Screen::Clock => Screen::Menu(MenuElt::Clock),
            Screen::Menu(MenuElt::Clock) => Screen::Clock,
            Screen::Menu(MenuElt::SetClock) => Screen::SetClock(
                EditDateTime { datetime: DateTime { sec: 0, ..self.now }, state: EditField::Year },
            ),
            Screen::SetClock(e) => match EditDateTime::field_after(e.state) {
                Some(f) => Screen::SetClock(EditDateTime { state: f, ..e }),
                None => Screen::Clock,
            },
        }
    }

    /// The model after `msg`.
    pub open spec fn after(self, msg: Msg) -> Model {
        match msg {
            Msg::DateTime(dt) => Model { now: dt, ..self },
            Msg::Environment(m) => Model {
                pressure: m.pressure,
                temperature: m.temperature,
                humidity: m.humidity,
                ..self
            },
            Msg::ButtonOk => Model { screen: self.screen_after_ok(), ..self },
            Msg::ButtonPlus => match self.screen {
                Screen::Menu(elt) => Model { screen: Screen::Menu(elt.other()), ..self },
                Screen::SetClock(e) => Model { screen: Screen::SetClock(e.stepped_up()), ..self },
                Screen::Clock => self,
            },
            Msg::ButtonMinus => match self.screen {
                Screen::Menu(elt) => Model { screen: Screen::Menu(elt.other()), ..self },
                Screen::SetClock(e) => Model {
                    screen: Screen::SetClock(e.stepped_down()),
                    ..self
                },
                Screen::Clock => self,
            },
        }
    }

    /// The commands that `msg` emits: one clock update when OK leaves the
    /// minutes of an edit, none otherwise.
    pub open spec fn emitted(self, msg: Msg) -> Seq<Cmd> {
        match (msg, self.screen) {
            (Msg::ButtonOk, Screen::SetClock(e)) => if e.state == EditField::Min {
                seq![Cmd::UpdateRtc(e.datetime)]
            } else {
                seq![]
            },
            _ => seq![],
        }
    }

    /// The text of the screen.
    pub open spec fn view_text(self) -> Seq<char> {
        let body = match self.screen {
            Screen::Clock => "Temperature: "@ + centi(self.temperature < 0, magnitude(self.temperature))
                + " deg C\n"@ + "Pressure:    "@ + centi(false, self.pressure as nat) + "hPa\n"@ + if self.humidity
                != 0 {
                "Humidity:    "@ + decimal(self.humidity as nat) + "%\n"@
            } else {
                Seq::<char>::empty()
            },
            Screen::Menu(elt) => "Menu: "@ + menu_label(elt) + "\n"@,
            Screen::SetClock(e) => "Set clock: "@ + edit_text(e) + "\n"@,
        };
        datetime_text(self.now) + "\n\n"@ + body
    }

    /// The model after `msgs`, in order.
    pub open spec fn after_all(self, msgs: Seq<Msg>) -> Model
        decreases msgs.len(),
    {
        if msgs.len() == 0 {
            self
        } else {
            self.after(msgs[0]).after_all(msgs.drop_first())
        }
    }

    /// The commands that `msgs` emit, in order.
    pub open spec fn emitted_all(self, msgs: Seq<Msg>) -> Seq<Cmd>
        decreases msgs.len(),
    {
        if msgs.len() == 0 {
            seq![]
        } else {
            self.emitted(msgs[0]) + self.after(msgs[0]).emitted_all(msgs.drop_first())
        }
    }

    /// The model at start-up: the counter's origin, no reading, the clock screen.
    pub fn init() -> (r: Model)
        ensures
            r.wf(),
            r.now == DateTime::epoch_spec(),
            r.pressure == 0 && r.temperature == 0 && r.humidity == 0,
            r.screen == Screen::Clock,
    {
        Model {
            now: DateTime::epoch(),
            pressure: 0,
            temperature: 0,
            humidity: 0,
            screen: Screen::Clock,
        }
    }

    /// Folds one message into the model; returns the commands it emits.
    pub fn update(&mut self, msg: Msg) -> (r: heapless::Vec<Cmd, 4>)
        requires
            old(self).wf(),
            msg_wf(msg),
        ensures
            *final(self) == old(self).after(msg),
            cmd_items(r) == old(self).emitted(msg),
            final(self).wf(),
    {
        let mut cmds = cmds_new();
        match msg {
            Msg::DateTime(dt) => self.now = dt,
            Msg::Environment(m) => {
                self.pressure = m.pressure;
                self.temperature = m.temperature;
                self.humidity = m.humidity;
            },
            Msg::ButtonOk => {
                let next = match self.screen {
                    Screen::Clock => Screen::Menu(MenuElt::Clock),
                    Screen::Menu(MenuElt::Clock) => Screen::Clock,
                    Screen::Menu(MenuElt::SetClock) => {
                        let mut dt = self.now;
                        dt.sec = 0;
                        Screen::SetClock(EditDateTime::new(dt))
                    },
                    Screen::SetClock(e) => {
                        let mut edit = e;
                        match edit.ok() {
                            Some(dt) => {
                                let _ = cmds_push(&mut cmds, Cmd::UpdateRtc(dt));
                                Screen::Clock
                            },
                            None => Screen::SetClock(edit),
                        }
                    },
                };
                self.screen = next;
            },
            Msg::ButtonPlus => match self.screen {
                Screen::Menu(elt) => self.screen = Screen::Menu(elt.next()),
                Screen::SetClock(e) => {
                    let mut edit = e;
                    edit.next();
                    self.screen = Screen::SetClock(edit);
                },
                Screen::Clock => {},
            },
            Msg::ButtonMinus => match self.screen {
                Screen::Menu(elt) => self.screen = Screen::Menu(elt.prev()),
                Screen::SetClock(e) => {
                    let mut edit = e;
                    edit.prev();
                    self.screen = Screen::SetClock(edit);
                },
                Screen::Clock => {},
            },
        }
        proof {
            assert(cmd_items(cmds) =~= old(self).emitted(msg));
        }
        cmds
    }

    /// Folds `msgs` into the model in order; returns every command they emit, in order.
    pub fn update_all(&mut self, msgs: Vec<Msg>) -> (r: Vec<Cmd>)
        requires
            old(self).wf(),
            forall|i: int| 0 <= i < msgs@.len() ==> msg_wf(#[trigger] msgs@[i]),
        ensures
            final(self).wf(),
            *final(self) == old(self).after_all(msgs@),
            r@ == old(self).emitted_all(msgs@),
    {
        let mut cmds: Vec<Cmd> = Vec::new();
        let mut i: usize = 0;
        proof {
            assert(msgs@.subrange(0, msgs@.len() as int) =~= msgs@);
            assert(cmds@ + self.emitted_all(msgs@) =~= self.emitted_all(msgs@));
        }
        while i < msgs.len()
            invariant
                i <= msgs@.len(),
                self.wf(),
                forall|j: int| 0 <= j < msgs@.len() ==> msg_wf(#[trigger] msgs@[j]),
                old(self).after_all(msgs@) == self.after_all(msgs@.subrange(i as int, msgs@.len() as int)),
                old(self).emitted_all(msgs@) == cmds@ + self.emitted_all(
                    msgs@.subrange(i as int, msgs@.len() as int),
                ),
            decreases msgs@.len() - i,
        {
            let ghost rest = msgs@.subrange(i as int, msgs@.len() as int);
            let ghost before = *self;
            let mut out = cmds_into_vec(self.update(msgs[i]));
            proof {
                assert(rest[0] == msgs@[i as int]);
                assert(rest.drop_first() =~= msgs@.subrange(i + 1, msgs@.len() as int));
                assert(cmds@ + out@ + self.emitted_all(rest.drop_first()) =~= cmds@ + (before.emitted(msgs@[i as int]) + self.emitted_all(rest.drop_first())));
            }
            cmds.append(&mut out);
            i = i + 1;
        }
        proof {
            assert(msgs@.subrange(i as int, msgs@.len() as int) =~= Seq::<Msg>::empty());
            assert(cmds@ + Seq::<Cmd>::empty() =~= cmds@);
        }
        cmds
    }

    /// Renders the model into a display buffer; fails when the text does not fit.
    #[verifier::rlimit(40)]
    pub fn view(&self) -> (r: Result<heapless::String<128>, ViewError>)
        ensures
            r is Ok <==> encode_utf8(self.view_text()).len() <= VIEW_CAPACITY,
            r is Ok ==> display_chars(r->Ok_0) == self.view_text(),
            r is Err ==> r->Err_0 == ViewError::BufferFull,
    {
        let mut s = decimal_text(self.now.year as u32);
        s.append("-");
        s.append(two_digit_text(self.now.month as u32).as_str());
        s.append("-");
        s.append(two_digit_text(self.now.day as u32).as_str());
        s.append(" ");
        s.append(two_digit_text(self.now.hour as u32).as_str());
        s.append(":");
        s.append(two_digit_text(self.now.min as u32).as_str());
        s.append(":");
        s.append(two_digit_text(self.now.sec as u32).as_str());
        s.append("\n\n");
        proof {
            assert(s@ =~= datetime_text(self.now) + "\n\n"@);
        }
        let ghost head = s@;
        match self.screen {
            Screen::Clock => {
                let negative = self.temperature < 0;
                let mag: u32 = if negative {
                    (-(self.temperature as i32)) as u32
                } else {
                    self.temperature as u32
                };
                s.append("Temperature: ");
                s.append(centi_text(negative, mag).as_str());
                s.append(" deg C\n");
                s.append("Pressure:    ");
                s.append(centi_text(false, self.pressure).as_str());
                s.append("hPa\n");
                if self.humidity != 0 {
                    s.append("Humidity:    ");
                    s.append(decimal_text(self.humidity as u32).as_str());
                    s.append("%\n");
                }
            },
            Screen::Menu(elt) => {
                s.append("Menu: ");
                match elt {
                    MenuElt::Clock => s.append("clock"),
                    MenuElt::SetClock => s.append("set clock"),
                }
                s.append("\n");
            },
            Screen::SetClock(e) => {
                s.append("Set clock: ");
                match e.state {
                    EditField::Year => {
                        s.append("year: ");
                        s.append(decimal_text(e.datetime.year as u32).as_str());
                    },
                    EditField::Month => {
                        s.append("month: ");
                        s.append(decimal_text(e.datetime.month as u32).as_str());
                    },
                    EditField::Day => {
                        s.append("day: ");
                        s.append(decimal_text(e.datetime.day as u32).as_str());
                    },
                    EditField::Hour => {
                        s.append("hour: ");
                        s.append(decimal_text(e.datetime.hour as u32).as_str());
                    },
                    EditField::Min => {
                        s.append("min: ");
                        s.append(decimal_text(e.datetime.min as u32).as_str());
                    },
                }
                s.append("\n");
            },
        }
        assert(s@ =~= self.view_text());
        match display_text(s.as_str()) {
            Ok(text) => Ok(text),
            Err(_) => Err(ViewError::BufferFull),
        }
    }
}

/// `n` presses of the OK button.
pub open spec fn ok_presses(n: nat) -> Seq<Msg> {
    Seq::new(n, |_i: int| Msg::ButtonOk)
}

proof fn lemma_ok_step(m: Model, n: nat)
    ensures
        m.after_all(ok_presses(n + 1)) == m.after(Msg::ButtonOk).after_all(ok_presses(n)),
        m.emitted_all(ok_presses(n + 1)) == m.emitted(Msg::ButtonOk) + m.after(
            Msg::ButtonOk,
        ).emitted_all(ok_presses(n)),
{
    assert(ok_presses(n + 1).drop_first() =~= ok_presses(n));
    assert(ok_presses(n + 1)[0] == Msg::ButtonOk);
}

/// From the clock screen, OK alternates between the menu (on its clock
/// entry) and the clock screen, and emits no command.
pub proof fn lemma_ok_from_clock_cycles(m: Model, n: nat)
    requires
        m.screen == Screen::Clock || m.screen == Screen::Menu(MenuElt::Clock),
    ensures
        m.after_all(ok_presses(n)).screen == if (n % 2 == 0) == (m.screen == Screen::Clock) {
            Screen::Clock
        } else {
            Screen::Menu(MenuElt::Clock)
        },
        m.emitted_all(ok_presses(n)) == Seq::<Cmd>::empty(),
    decreases n,
{
    if n == 0 {
        assert(ok_presses(0) =~= Seq::<Msg>::empty());
    } else {
        lemma_ok_step(m, (n - 1) as nat);
        lemma_ok_from_clock_cycles(m.after(Msg::ButtonOk), (n - 1) as nat);
        assert(m.emitted(Msg::ButtonOk) + Seq::<Cmd>::empty() =~= Seq::<Cmd>::empty());
    }
}

/// Up and down presses while the month is under edit keep it within
/// `1..=12`, wrapping from 12 up to 1 and from 1 down to 12, and touch
/// nothing else.
pub proof fn lemma_month_edit_wraps(m: Model, presses: Seq<Msg>)
    requires
        m.wf(),
        m.screen is SetClock,
        m.screen->SetClock_0.state == EditField::Month,
        forall|i: int| 0 <= i < presses.len() ==> #[trigger] presses[i] == Msg::ButtonPlus
            || presses[i] == Msg::ButtonMinus,
    ensures
        m.after_all(presses).screen is SetClock,
        m.after_all(presses).screen->SetClock_0.state == EditField::Month,
        1 <= m.after_all(presses).screen->SetClock_0.datetime.month <= 12,
        m.emitted_all(presses) == Seq::<Cmd>::empty(),
        m.screen->SetClock_0.datetime.month == 12 ==> m.after(
            Msg::ButtonPlus,
        ).screen->SetClock_0.datetime.month == 1,
        m.screen->SetClock_0.datetime.month == 1 ==> m.after(
            Msg::ButtonMinus,
        ).screen->SetClock_0.datetime.month == 12,
    decreases presses.len(),
{
    if presses.len() > 0 {
        let next = m.after(presses[0]);
        assert(presses[0] == Msg::ButtonPlus || presses[0] == Msg::ButtonMinus);
        assert(next.wf());
        let rest = presses.drop_first();
        assert forall|i: int| 0 <= i < rest.len() implies #[trigger] rest[i] == Msg::ButtonPlus
            || rest[i] == Msg::ButtonMinus by {
            assert(rest[i] == presses[i + 1]);
        }
        lemma_month_edit_wraps(next, rest);
        assert(m.emitted(presses[0]) + Seq::<Cmd>::empty() =~= Seq::<Cmd>::empty());
    }
}

/// From the menu's set-clock entry, OK opens the editor on the current
/// time with seconds at 0; five presses more, through year, month, day,
/// hour and minute, return to the clock screen and emit exactly one clock
/// update, with that date.
pub proof fn lemma_set_clock_round(m: Model)
    requires
        m.screen == Screen::Menu(MenuElt::SetClock),
    ensures
        m.after(Msg::ButtonOk).screen == Screen::SetClock(
            EditDateTime { datetime: DateTime { sec: 0, ..m.now }, state: EditField::Year },
        ),
        m.after_all(ok_presses(6)).screen == Screen::Clock,
        m.emitted_all(ok_presses(6)) == seq![Cmd::UpdateRtc(DateTime { sec: 0, ..m.now })],
{
    let m1 = m.after(Msg::ButtonOk);
    let m2 = m1.after(Msg::ButtonOk);
    let m3 = m2.after(Msg::ButtonOk);
    let m4 = m3.after(Msg::ButtonOk);
    let m5 = m4.after(Msg::ButtonOk);
    let m6 = m5.after(Msg::ButtonOk);
    lemma_ok_step(m, 5);
    lemma_ok_step(m1, 4);
    lemma_ok_step(m2, 3);
    lemma_ok_step(m3, 2);
    lemma_ok_step(m4, 1);
    lemma_ok_step(m5, 0);
    assert(ok_presses(0) =~= Seq::<Msg>::empty());
    assert(m6.emitted_all(ok_presses(0)) == Seq::<Cmd>::empty());
    assert(m.emitted_all(ok_presses(6)) =~= seq![Cmd::UpdateRtc(DateTime { sec: 0, ..m.now })]);
}

/// Rendering depends on the model alone: equal models give equal text.
pub proof fn lemma_view_is_pure(a: Model, b: Model)
    requires
        a == b,
    ensures
        a.view_text() == b.view_text(),
{
}

} // verus!
