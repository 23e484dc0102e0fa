//! Debouncing of a push button sampled once per millisecond.
use vstd::prelude::*;

verus! {

/// Consecutive samples a new level must hold before it is reported.
pub const DEBOUNCE_THRESHOLD: u8 = 10;

/// What one sample reports.
#[derive(Clone, Copy, Debug, PartialEq, Eq, Structural)]
pub enum Event {
    Pressed,
    Released,
    Nothing,
}

/// The last reported level and how long the other level has been seen.
#[derive(Clone, Copy, Debug, PartialEq, Eq, Structural)]
pub struct Button {
    pub pressed: bool,
    pub count: u8,
}

/// The button and the event after sampling `level` in `b`.
pub open spec fn sampled(b: Button, level: bool) -> (Button, Event) {
    if level == b.pressed {
        (Button { pressed: b.pressed, count: 0 }, Event::Nothing)
    } else if b.count + 1 >= DEBOUNCE_THRESHOLD {
        (Button { pressed: level, count: 0 }, if level {
            Event::Pressed
        } else {
            Event::Released
        })
    } else {
        (Button { pressed: b.pressed, count: (b.count + 1) as u8 }, Event::Nothing)
    }
}

impl Button {
    pub open spec fn wf(self) -> bool {
        self.count < DEBOUNCE_THRESHOLD
    }

    /// A released button.
    pub fn new() -> (r: Button)
        ensures
            r.wf(),
            !r.pressed,
            r.count == 0,
    {
        Button { pressed: false, count: 0 }
    }

    /// Takes one sample, `true` for pressed; reports an edge once the new
    /// level has held for the threshold.
    pub fn poll(&mut self, level: bool) -> (r: Event)
        requires
            old(self).wf(),
        ensures
            final(self).wf(),
            (*final(self), r) == sampled(*old(self), level),
    {
        if level == self.pressed {
            self.count = 0;
            Event::Nothing
        } else if self.count + 1 >= DEBOUNCE_THRESHOLD {
            self.pressed = level;
            self.count = 0;
            if level {
                Event::Pressed
            } else {
                Event::Released
            }
        } else {
            self.count = self.count + 1;
            Event::Nothing
        }
    }
}

/// The number of `Pressed` events that `levels`, sampled in turn from `b`, report.
pub open spec fn presses(b: Button, levels: Seq<bool>) -> nat
    decreases levels.len(),
{
    if levels.len() == 0 {
        0
    } else {
        let (next, e) = sampled(b, levels[0]);
        (if e == Event::Pressed {
            1nat
        } else {
            0nat
        }) + presses(next, levels.drop_first())
    }
}

/// `n` samples of a held button.
pub open spec fn held(n: nat) -> Seq<bool> {
    Seq::new(n, |_i: int| true)
}

proof fn lemma_held_presses(b: Button, n: nat)
    requires
        b.wf(),
    ensures
        presses(b, held(n)) == if b.pressed || n + b.count < DEBOUNCE_THRESHOLD {
            0nat
        } else {
            1nat
        },
    decreases n,
{
    if n > 0 {
        let (next, _e) = sampled(b, true);
        assert(held(n).drop_first() =~= held((n - 1) as nat));
        lemma_held_presses(next, (n - 1) as nat);
    }
}

/// A button held down from rest for at least the threshold reports exactly
/// one press, however long it is held.
pub proof fn lemma_held_button_presses_once(n: nat)
    requires
        n >= DEBOUNCE_THRESHOLD,
    ensures
        presses(Button { pressed: false, count: 0 }, held(n)) == 1,
{
    lemma_held_presses(Button { pressed: false, count: 0 }, n);
}

} // verus!
