//! Alarm schedules: up to eight entries, each checked once per second.
use vstd::prelude::*;
use crate::datetime::DateTime;

verus! {

/// Number of alarm entries.
pub const ALARM_COUNT: usize = 8;

/// One alarm: rings at `hour:min:00` while enabled.
#[derive(Clone, Copy, Debug, PartialEq, Eq, Structural)]
pub struct AlarmManager {
    pub is_enable: bool,
    pub hour: u8,
    pub min: u8,
}

impl AlarmManager {
    /// Whether this entry rings at `now`.
    pub open spec fn rings_at(self, now: DateTime) -> bool {
        self.is_enable && now.sec == 0 && now.hour == self.hour && now.min
            == self.min
    }

    /// A disabled alarm at midnight.
    pub fn new() -> (r: AlarmManager)
        ensures
            !r.is_enable,
            r.hour == 0,
            r.min == 0,
    {
        AlarmManager { is_enable: false, hour: 0, min: 0 }
    }

    pub fn set_hour(&mut self, hour: u8)
        ensures
            final(self).hour == hour,
            final(self).min == old(self).min,
            final(self).is_enable == old(self).is_enable,
    {
        self.hour = hour;
    }

    pub fn set_min(&mut self, min: u8)
        ensures
            final(self).min == min,
            final(self).hour == old(self).hour,
            final(self).is_enable == old(self).is_enable,
    {
        self.min = min;
    }

    /// True iff the entry is enabled, `now` is on a minute's first second,
    /// and the hour and minute are the entry's.
    pub fn must_ring(&self, now: &DateTime) -> (r: bool)
        ensures
            r == self.rings_at(*now),
    {
        self.is_enable && now.sec == 0 && now.hour == self.hour && now.min == self.min
    }
}

/// The entries at start-up: the first armed for 23:16, the others disabled.
pub fn boot_alarms() -> (r: [AlarmManager; 8])
    ensures
        r[0].is_enable && r[0].hour == 23 && r[0].min == 16,
        forall|i: int| 1 <= i < 8 ==> !(#[trigger] r[i]).is_enable,
{
    let mut first = AlarmManager::new();
    first.is_enable = true;
    first.set_hour(23);
    first.set_min(16);
    let off = AlarmManager::new();
    [first, off, off, off, off, off, off, off]
}

/// Whether any entry rings at `now`; several at once still make one ring.
pub fn any_must_ring(alarms: &[AlarmManager; 8], now: &DateTime) -> (r: bool)
    ensures
        r == exists|i: int| 0 <= i < 8 && (#[trigger] alarms[i]).rings_at(*now),
{
    let mut i: usize = 0;
    while i < ALARM_COUNT
        invariant
            i <= ALARM_COUNT,
            forall|j: int| 0 <= j < i ==> !(#[trigger] alarms[j]).rings_at(*now),
        decreases ALARM_COUNT - i,
    {
        if alarms[i].must_ring(now) {
            return true;
        }
        i = i + 1;
    }
    false
}

} // verus!
