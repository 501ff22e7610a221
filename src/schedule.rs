use vstd::prelude::*;
use crate::clock::{WallClock, MONDAY, WEDNESDAY, FRIDAY};
use crate::drawable::BearDraw;
use crate::notify::{alert_lines, alert_lines_of, view_lines, NotificationAlert, PollOutcome};
use crate::screen::Drawable;
use crate::screensaver::SimpleScreensaver;

verus! {

/// Seconds that must pass between two polls of the notification feed.
pub const POLL_INTERVAL: u64 = 60;

/// A reminder that requests a screensaver at one minute of the day, unless another
/// screen is showing; optionally it also turns the buzzer on.
#[derive(Debug)]
pub struct Reminder {
    pub hour: u8,
    pub minute: u8,
    pub action: String,
    pub should_beep: bool,
    /// The minute (since the epoch) in which it last fired.
    pub last_fired: Option<u64>,
}

/// A reminder shown on Monday, Wednesday and Friday at 20:00, 20:30 and 20:55, at most
/// once per day.
#[derive(Debug)]
pub struct BearReminder {
    /// The Julian day on which it last fired.
    pub last_day: i32,
    pub image: SimpleScreensaver,
}

/// A poll of the notification feed, at most once a minute.
#[derive(Debug)]
pub struct GithubNotifications {
    /// Unix time of the last poll.
    pub last_call: u64,
    pub last_modified: Option<String>,
    pub image: SimpleScreensaver,
}

/// The background rules that run before every frame.
#[derive(Debug)]
pub enum Schedule {
    Reminder(Reminder),
    Bear(BearReminder),
    Github(GithubNotifications),
}

/// What a schedule that fired asks of the context.
#[derive(Debug)]
pub enum Firing {
    Nothing,
    /// Request the screensaver with this id, turning the buzzer on first if asked.
    Action { id: String, beep: bool },
    /// Push this screen.
    Push(Drawable),
}

pub open spec fn reminder_fires(r: Reminder, depth: int, now: WallClock) -> bool {
    now.hour == r.hour && now.minute == r.minute && depth == 1 && r.last_fired != Some(now.minute_stamp() as u64)
}

pub open spec fn is_bear_day(weekday: u8) -> bool {
    weekday == MONDAY || weekday == WEDNESDAY || weekday == FRIDAY
}

pub open spec fn is_bear_time(now: WallClock) -> bool {
    is_bear_day(now.weekday) && now.hour == 20 && (now.minute == 0 || now.minute == 30 || now.minute == 55)
}

pub open spec fn bear_fires(b: BearReminder, now: WallClock) -> bool {
    is_bear_time(now) && now.julian_day != b.last_day
}

pub open spec fn poll_fires(g: GithubNotifications, now: WallClock) -> bool {
    now.unix_seconds >= g.last_call + POLL_INTERVAL
}

/// Whether schedule `s` fires when checked at `now` with `depth` screens on the stack.
pub open spec fn fires(s: Schedule, depth: int, now: WallClock) -> bool {
    match s {
        Schedule::Reminder(r) => reminder_fires(r, depth, now),
        Schedule::Bear(b) => bear_fires(b, now),
        Schedule::Github(g) => poll_fires(g, now),
    }
}

/// Whether no schedule of `ss` fires at `now` with `depth` screens on the stack.
pub open spec fn none_fires(ss: Seq<Schedule>, depth: int, now: WallClock) -> bool {
    forall|i: int| 0 <= i < ss.len() ==> !#[trigger] fires(ss[i], depth, now)
}

/// The reminder after firing at `now`.
pub open spec fn reminder_after(r: Reminder, now: WallClock) -> Reminder {
    Reminder { last_fired: Some(now.minute_stamp() as u64), ..r }
}

/// The day-scoped reminder after firing at `now`.
pub open spec fn bear_after(b: BearReminder, now: WallClock) -> BearReminder {
    BearReminder { last_day: now.julian_day, ..b }
}

/// What a poll schedule `g` that fires at `now`, with `poll` the outcome of polling the
/// feed, becomes (`g2`) and asks for (`f`): an alert exactly when the poll brought
/// something worth one.
pub open spec fn poll_step(g: GithubNotifications, now: WallClock, poll: Option<PollOutcome>, g2: GithubNotifications, f: Firing) -> bool {
    &&& g2.last_call == now.unix_seconds
    &&& g2.image == g.image
    &&& match poll {
        None => f is Nothing && g2.last_modified == g.last_modified,
        Some(o) => g2.last_modified == o.last_modified && match alert_lines_of(o.notifications@) {
            None => f is Nothing,
            Some(ls) => f is Push && match f->Push_0 {
                Drawable::Alert(a) => a.wf() && a.calls == 0 && view_lines(a.lines@) == ls && a.image.data@ == g.image.data@,
                _ => false,
            },
        },
    }
}

/// One schedule checked at `now` with `depth` screens on the stack: what it becomes
/// (`s2`), what is left of the poll outcome (`poll2`), and what it asks for (`f`).
pub open spec fn schedule_step(
    s: Schedule,
    depth: int,
    now: WallClock,
    poll: Option<PollOutcome>,
    s2: Schedule,
    poll2: Option<PollOutcome>,
    f: Firing,
) -> bool {
    if !fires(s, depth, now) {
        f is Nothing && s2 == s && poll2 == poll
    } else {
        match s {
            Schedule::Reminder(r) => s2 == Schedule::Reminder(reminder_after(r, now)) && poll2 == poll && f is Action
                && f->id@ == r.action@ && f->beep == r.should_beep,
            Schedule::Bear(b) => s2 == Schedule::Bear(bear_after(b, now)) && poll2 == poll && f is Push && match f->Push_0 {
                Drawable::Bear(d) => d.calls == 0 && d.image.data@ == b.image.data@ && d.wf(),
                _ => false,
            },
            Schedule::Github(g) => s2 is Github && poll2 is None && poll_step(g, now, poll, s2->Github_0, f),
        }
    }
}

impl Reminder {
    pub fn new(hour: u8, minute: u8, action: &str, should_beep: bool) -> (r: Self)
        ensures
            r.hour == hour,
            r.minute == minute,
            r.action@ == action@,
            r.should_beep == should_beep,
            r.last_fired is None,
    {
        Reminder { hour, minute, action: action.to_owned(), should_beep, last_fired: None }
    }

    pub fn check(&self, depth: usize, now: &WallClock) -> (r: bool)
        ensures
            r == reminder_fires(*self, depth as int, *now),
    {
        let stamp = now.minute_index();
        let fired_now = match self.last_fired {
            Some(m) => m == stamp,
            None => false,
        };
        now.hour == self.hour && now.minute == self.minute && depth == 1 && !fired_now
    }
}

impl BearReminder {
    pub fn new(image: SimpleScreensaver) -> (r: Self)
        requires
            image.wf(),
        ensures
            r.last_day == 0,
            r.image == image,
    {
        BearReminder { last_day: 0, image }
    }

    pub fn check(&self, now: &WallClock) -> (r: bool)
        ensures
            r == bear_fires(*self, *now),
    {
        let day = now.weekday;
        let day_match = day == MONDAY || day == WEDNESDAY || day == FRIDAY;
        let good_time = now.hour == 20 && (now.minute == 0 || now.minute == 30 || now.minute == 55) && day_match;
        good_time && now.julian_day != self.last_day
    }
}

impl GithubNotifications {
    /// A poll schedule whose last poll was at `last_call`.
    pub fn new(last_call: u64, image: SimpleScreensaver) -> (r: Self)
        requires
            image.wf(),
        ensures
            r.last_call == last_call,
            r.last_modified is None,
            r.image == image,
    {
        GithubNotifications { last_call, last_modified: None, image }
    }

    /// Whether a minute has passed since the last poll.
    pub fn check(&self, now: &WallClock) -> (r: bool)
        ensures
            r == poll_fires(*self, *now),
    {
        now.unix_seconds >= self.last_call && now.unix_seconds - self.last_call >= POLL_INTERVAL
    }

    /// Records a poll at `now` and turns what it brought into an alert, if anything is
    /// worth one. `None` stands for a poll that failed; it is skipped silently.
    pub fn execute(&mut self, now: &WallClock, outcome: Option<PollOutcome>) -> (r: Option<NotificationAlert>)
        requires
            old(self).image.wf(),
        ensures
            final(self).last_call == now.unix_seconds,
            final(self).image == old(self).image,
            match outcome {
                None => r is None && final(self).last_modified == old(self).last_modified,
                Some(o) => final(self).last_modified == o.last_modified && match alert_lines_of(o.notifications@) {
                    None => r is None,
                    Some(ls) => r is Some && r->0.wf() && r->0.calls == 0 && view_lines(r->0.lines@) == ls
                        && r->0.image.data@ == old(self).image.data@,
                },
            },
    {
        self.last_call = now.unix_seconds;
        match outcome {
            None => None,
            Some(o) => {
                self.last_modified = o.last_modified;
                match alert_lines(&o.notifications) {
                    None => None,
                    Some(lines) => Some(NotificationAlert::new(lines, self.image.fresh())),
                }
            },
        }
    }
}

/// The reminders of the day: the language lesson at 11:40 and 23:40, lunch at 13:15.
pub fn reminders() -> (r: Vec<Schedule>)
    ensures
        r@.len() == 3,
        forall|i: int| 0 <= i < 3 ==> #[trigger] r@[i] is Reminder,
{
    let mut v: Vec<Schedule> = Vec::new();
    v.push(Schedule::Reminder(Reminder::new(11, 40, "duolingo", false)));
    v.push(Schedule::Reminder(Reminder::new(23, 40, "duolingo", false)));
    v.push(Schedule::Reminder(Reminder::new(13, 15, "plate", false)));
    v
}

impl Schedule {
    pub open spec fn wf(&self) -> bool {
        match self {
            Schedule::Reminder(_) => true,
            Schedule::Bear(b) => b.image.wf(),
            Schedule::Github(g) => g.image.wf(),
        }
    }

    /// Checks the schedule at `now`, with `depth` screens on the stack, and runs it if it
    /// fires. A poll that fires consumes `poll`, the outcome of polling the feed.
    pub fn check_and_do(&mut self, depth: usize, now: &WallClock, poll: &mut Option<PollOutcome>) -> (f: Firing)
        requires
            old(self).wf(),
        ensures
            final(self).wf(),
            schedule_step(*old(self), depth as int, *now, *old(poll), *final(self), *final(poll), f),
            !(f is Push) || f->Push_0.wf(),
    {
        match self {
            Schedule::Reminder(r) => {
                if r.check(depth, now) {
                    r.last_fired = Some(now.minute_index());
                    Firing::Action { id: r.action.clone(), beep: r.should_beep }
                } else {
                    Firing::Nothing
                }
            },
            Schedule::Bear(b) => {
                if b.check(now) {
                    b.last_day = now.julian_day;
                    Firing::Push(Drawable::Bear(BearDraw::new(b.image.fresh())))
                } else {
                    Firing::Nothing
                }
            },
            Schedule::Github(g) => {
                if g.check(now) {
                    let outcome = poll.take();
                    match g.execute(now, outcome) {
                        Some(alert) => Firing::Push(Drawable::Alert(alert)),
                        None => Firing::Nothing,
                    }
                } else {
                    Firing::Nothing
                }
            },
        }
    }
}

} // verus!
