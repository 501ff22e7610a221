use vstd::prelude::*;

verus! {

/// Local wall-clock time as the schedules read it: seconds since the Unix epoch,
/// plus the local hour, minute, weekday (0 = Monday) and Julian day number.
#[derive(Clone, Copy, Debug, PartialEq, Eq, Structural)]
pub struct WallClock {
    pub unix_seconds: u64,
    pub hour: u8,
    pub minute: u8,
    pub weekday: u8,
    pub julian_day: i32,
}

pub const MONDAY: u8 = 0;

pub const WEDNESDAY: u8 = 2;

pub const FRIDAY: u8 = 4;

impl WallClock {
    pub open spec fn wf(&self) -> bool {
        self.hour < 24 && self.minute < 60 && self.weekday < 7
    }

    /// Index of the minute since the epoch; two times share it iff they fall in the same minute.
    pub open spec fn minute_stamp(&self) -> int {
        self.unix_seconds as int / 60
    }

    pub fn new(unix_seconds: u64, hour: u8, minute: u8, weekday: u8, julian_day: i32) -> (r: Self)
        requires
            hour < 24,
            minute < 60,
            weekday < 7,
        ensures
            r.wf(),
            r == (WallClock { unix_seconds, hour, minute, weekday, julian_day }),
    {
        WallClock { unix_seconds, hour, minute, weekday, julian_day }
    }

    /// The minute index of this time, `unix_seconds / 60` rounded down.
    pub fn minute_index(&self) -> (r: u64)
        ensures
            r == self.minute_stamp(),
    {
        self.unix_seconds / 60
    }
}

} // verus!
