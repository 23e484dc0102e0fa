//! The alarm player: plays a melody a number of times, one step per
//! millisecond.
use vstd::prelude::*;

verus! {

/// Where a playback stands.
#[derive(Clone, Copy, Debug, PartialEq, Eq, Structural)]
pub enum PlayerState {
    Idle,
    /// Playing note `note`, `elapsed` milliseconds into it, with `repeats`
    /// plays of the melody left, this one included.
    Playing { repeats: u32, note: usize, elapsed: u32 },
}

/// Plays a melody, given as the duration in milliseconds of each note.
pub struct Alarm {
    melody: Vec<u32>,
    state: PlayerState,
}

/// The state after one millisecond of `state` over notes of `durations`.
pub open spec fn advanced(durations: Seq<u32>, state: PlayerState) -> PlayerState {
    match state {
        PlayerState::Idle => PlayerState::Idle,
        PlayerState::Playing { repeats, note, elapsed } => if elapsed + 1 < durations[note as int] {
            PlayerState::Playing { repeats, note, elapsed: (elapsed + 1) as u32 }
        } else if note + 1 < durations.len() {
            PlayerState::Playing { repeats, note: (note + 1) as usize, elapsed: 0 }
        } else if repeats > 1 {
            PlayerState::Playing { repeats: (repeats - 1) as u32, note: 0, elapsed: 0 }
        } else {
            PlayerState::Idle
        },
    }
}

/// The note that sounds in `state`.
pub open spec fn sounding(state: PlayerState) -> Option<usize> {
    match state {
        PlayerState::Idle => None,
        PlayerState::Playing { note, .. } => Some(note),
    }
}

impl Alarm {
    pub closed spec fn melody_spec(self) -> Seq<u32> {
        self.melody@
    }

    pub closed spec fn state_spec(self) -> PlayerState {
        self.state
    }

    /// A playing state points at a note of the melody.
    pub open spec fn wf(self) -> bool {
        match self.state_spec() {
            PlayerState::Idle => true,
            PlayerState::Playing { repeats, note, .. } => repeats >= 1 && note
                < self.melody_spec().len(),
        }
    }

    /// An idle player with no melody.
    pub fn new() -> (r: Alarm)
        ensures
            r.wf(),
            r.state_spec() == PlayerState::Idle,
            r.melody_spec() == Seq::<u32>::empty(),
    {
        Alarm { melody: Vec::new(), state: PlayerState::Idle }
    }

    /// Where the playback stands.
    pub fn state(&self) -> (r: PlayerState)
        ensures
            r == self.state_spec(),
    {
        self.state
    }

    /// Starts `melody` from its first note, to be played `repeats` times;
    /// a playback under way is dropped. Nothing plays when the melody is
    /// empty or `repeats` is 0.
    pub fn play(&mut self, melody: Vec<u32>, repeats: u32)
        ensures
            final(self).wf(),
            final(self).melody_spec() == melody@,
            melody@.len() > 0 && repeats > 0 ==> final(self).state_spec() == (PlayerState::Playing {
                repeats,
                note: 0,
                elapsed: 0,
            }),
            melody@.len() == 0 || repeats == 0 ==> final(self).state_spec() == PlayerState::Idle,
    {
        let playing = melody.len() > 0 && repeats > 0;
        self.melody = melody;
        if playing {
            self.state = PlayerState::Playing { repeats, note: 0, elapsed: 0 };
        } else {
            self.state = PlayerState::Idle;
        }
    }

    /// Silences the player at once, whatever it was playing.
    pub fn stop(&mut self)
        ensures
            final(self).wf(),
            final(self).state_spec() == PlayerState::Idle,
            final(self).melody_spec() == old(self).melody_spec(),
    {
        self.state = PlayerState::Idle;
    }

    /// Advances the playback by one millisecond; returns the note that
    /// sounds afterwards, if any.
    pub fn poll(&mut self) -> (r: Option<usize>)
        requires
            old(self).wf(),
        ensures
            final(self).wf(),
            final(self).melody_spec() == old(self).melody_spec(),
            final(self).state_spec() == advanced(old(self).melody_spec(), old(self).state_spec()),
            r == sounding(final(self).state_spec()),
    {
        match self.state {
            PlayerState::Idle => {},
            PlayerState::Playing { repeats, note, elapsed } => {
                if (elapsed as u64) + 1 < self.melody[note] as u64 {
                    self.state = PlayerState::Playing { repeats, note, elapsed: elapsed + 1 };
                } else if note < self.melody.len() - 1 {
                    self.state = PlayerState::Playing { repeats, note: note + 1, elapsed: 0 };
                } else if repeats > 1 {
                    self.state = PlayerState::Playing { repeats: repeats - 1, note: 0, elapsed: 0 };
                } else {
                    self.state = PlayerState::Idle;
                }
            },
        }
        match self.state {
            PlayerState::Idle => None,
            PlayerState::Playing { note, .. } => Some(note),
        }
    }
}

} // verus!
