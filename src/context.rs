use vstd::prelude::*;
use rand_xoshiro::Xoroshiro128StarStar;
use crate::clock::WallClock;
use crate::dashboard::DashboardData;
use crate::drawable::{Measurements, MeasurementsMode, TimeDisplay};
use crate::frame::{Color565, DrawOp};
use crate::notify::PollOutcome;
use crate::schedule::{
    fires, none_fires, poll_fires, reminders, schedule_step, BearReminder, Firing, GithubNotifications, Schedule,
};
use crate::screen::{draw_outcome, is_fresh_copy, same_kind, Drawable};
use crate::screensaver::SimpleScreensaver;
use crate::totp::Totp;
use crate::input::{path_entry, pressed_path, screen_id, screen_name, settled_path, Menu, MenuAction};

verus! {

/// Sparkle steps per screensaver frame unless overridden.
pub const DEFAULT_SPEED: u64 = 32;

/// Seconds before start-up at which the notification feed counts as last polled.
pub const FIRST_POLL_DELAY: u64 = 50;

/// Turns the buzzer flag on.
pub fn enable_pwm(on: &mut bool)
    ensures
        *final(on),
{
    *on = true;
}

/// Turns the buzzer flag off.
pub fn disable_pwm(on: &mut bool)
    ensures
        !*final(on),
{
    *on = false;
}

/// The first position at or after `k` of a catalogue entry with id `id`.
pub open spec fn find_from(reg: Seq<Drawable>, id: Seq<char>, k: int) -> Option<int>
    decreases reg.len() - k,
{
    if k < 0 || k >= reg.len() {
        None
    } else if reg[k].spec_id() == Some(id) {
        Some(k)
    } else {
        find_from(reg, id, k + 1)
    }
}

/// The first catalogue entry with id `id`: lookup is a linear scan, first match wins.
pub open spec fn find_entry(reg: Seq<Drawable>, id: Seq<char>) -> Option<int> {
    find_from(reg, id, 0)
}

/// How requesting screen `id` from catalogue `reg` takes the stack from `before` to
/// `after`: a fresh instance of the first matching entry is pushed, or nothing happens.
pub open spec fn action_done(reg: Seq<Drawable>, id: Seq<char>, before: Seq<Drawable>, after: Seq<Drawable>) -> bool {
    match find_entry(reg, id) {
        Some(k) => after.len() == before.len() + 1 && after.drop_last() == before && is_fresh_copy(after.last(), reg[k]),
        None => after == before,
    }
}

/// How many screens are left once every expired screen on top of the stack is popped.
pub open spec fn keep_len(s: Seq<Drawable>) -> nat
    decreases s.len(),
{
    if s.len() == 0 {
        0
    } else if s.last().spec_expired() {
        keep_len(s.drop_last())
    } else {
        s.len()
    }
}

proof fn lemma_keep_len_bound(s: Seq<Drawable>)
    ensures
        keep_len(s) <= s.len(),
    decreases s.len(),
{
    if s.len() > 0 && s.last().spec_expired() {
        lemma_keep_len_bound(s.drop_last());
    }
}

/// A well-formed stack: the root clock at the bottom, every screen well formed.
pub open spec fn stack_wf(s: Seq<Drawable>) -> bool {
    &&& s.len() >= 1
    &&& s[0] is Time
    &&& forall|i: int| 0 <= i < s.len() ==> #[trigger] s[i].wf()
}

/// The index of the first poll schedule of `ss` at or after `k`.
pub open spec fn first_poll(ss: Seq<Schedule>, k: int) -> Option<int>
    decreases ss.len() - k,
{
    if k < 0 || k >= ss.len() {
        None
    } else if ss[k] is Github {
        Some(k)
    } else {
        first_poll(ss, k + 1)
    }
}

/// Whether some schedule of `ss` that polls the feed is due at `now`.
pub open spec fn some_poll_due(ss: Seq<Schedule>, now: WallClock) -> bool {
    exists|i: int| 0 <= i < ss.len() && #[trigger] ss[i] is Github && poll_fires(ss[i]->Github_0, now)
}

/// How carrying out `f` takes the stack from `before` to `after` and the buzzer flag from
/// `pwm` to `pwm2`: a requested screen as `do_action` pushes it, with the buzzer turned on
/// first when asked; a pushed screen on top.
pub open spec fn applied(reg: Seq<Drawable>, before: Seq<Drawable>, pwm: bool, f: Firing, after: Seq<Drawable>, pwm2: bool) -> bool {
    match f {
        Firing::Nothing => after == before && pwm2 == pwm,
        Firing::Action { id, beep } => action_done(reg, id@, before, after) && pwm2 == (pwm || beep),
        Firing::Push(d) => after == before.push(d) && pwm2 == pwm,
    }
}

/// Running the schedules `ss` in order at `now`: schedule `i` sees the stack `stacks[i]`,
/// the buzzer flag `pwms[i]` and what is left of the poll outcome `polls[i]`; it becomes
/// `ss2[i]`, asks for `fs[i]`, and that is carried out to give the next stack and flag.
pub open spec fn schedules_run(
    reg: Seq<Drawable>,
    ss: Seq<Schedule>,
    ss2: Seq<Schedule>,
    stacks: Seq<Seq<Drawable>>,
    pwms: Seq<bool>,
    polls: Seq<Option<PollOutcome>>,
    fs: Seq<Firing>,
    now: WallClock,
) -> bool {
    &&& ss2.len() == ss.len()
    &&& fs.len() == ss.len()
    &&& stacks.len() == ss.len() + 1
    &&& pwms.len() == ss.len() + 1
    &&& polls.len() == ss.len() + 1
    &&& forall|i: int|
        0 <= i < ss.len() ==> schedule_step(ss[i], stacks[i].len() as int, now, polls[i], ss2[i], polls[i + 1], #[trigger] fs[i])
            && applied(reg, stacks[i], pwms[i], fs[i], stacks[i + 1], pwms[i + 1])
}

/// The frame step from stack `before` and buzzer flag `pwm`: the run of expired screens on
/// top is popped (the buzzer turned off if any was), and the screen then on top draws one
/// frame (see `draw_outcome`), whose result is returned; an empty stack draws nothing and
/// returns false.
pub open spec fn advanced(
    before: Seq<Drawable>,
    pwm: bool,
    after: Seq<Drawable>,
    pwm2: bool,
    r: bool,
    now: WallClock,
    codes: Seq<String>,
) -> bool {
    let n = keep_len(before);
    &&& n <= before.len()
    &&& after.len() == n
    &&& (n < before.len() ==> !pwm2)
    &&& (n == before.len() ==> pwm2 == pwm)
    &&& (n == 0 ==> !r)
    &&& (n > 0 ==> after.take(n - 1) == before.take(n - 1) && !before[n - 1].spec_expired() && draw_outcome(
        before[n - 1],
        after[n - 1],
        r,
        now,
        codes,
    ))
}

/// The scheduler: the catalogue of requestable screens, the background schedules, the
/// stack of active screens (top = last), and the process-wide settings that screens and
/// schedules read or set.
#[derive(Debug)]
pub struct ContextDefault {
    pub screensavers: Vec<Drawable>,
    pub scheduled: Vec<Schedule>,
    pub active: Vec<Drawable>,
    /// Whether the buzzer should sound.
    pub pwm_on: bool,
    /// Sparkle steps per screensaver frame.
    pub speed: u64,
    /// The sensor history, for the dashboard.
    pub sensors: DashboardData,
    /// The current one-time codes, one per account of the TOTP screen.
    pub totp_codes: Vec<String>,
}

impl ContextDefault {
    /// Every screen, catalogue entry and schedule well formed. The root clock is put at the
    /// bottom by `new` (see `stack_wf`), and nothing here relies on it.
    pub open spec fn wf(&self) -> bool {
        &&& forall|i: int| 0 <= i < self.active@.len() ==> #[trigger] self.active@[i].wf()
        &&& forall|i: int| 0 <= i < self.screensavers@.len() ==> #[trigger] self.screensavers@[i].wf()
        &&& forall|i: int| 0 <= i < self.scheduled@.len() ==> #[trigger] self.scheduled@[i].wf()
    }

    /// A context showing the clock alone. The catalogue holds the given screensavers and the
    /// three dashboards; the schedules are the daily reminders, the notification poll (due
    /// ten seconds after `now`) and the day-scoped reminder.
    pub fn new(now: &WallClock, screensavers: Vec<SimpleScreensaver>, teddy_bear: SimpleScreensaver, github: SimpleScreensaver) -> (r: Self)
        requires
            forall|i: int| 0 <= i < screensavers@.len() ==> #[trigger] screensavers@[i].wf(),
            teddy_bear.wf(),
            github.wf(),
        ensures
            r.wf(),
            stack_wf(r.active@),
            r.active@.len() == 1,
            r.active@[0] == Drawable::Time(TimeDisplay { last_min: 60 }),
            r.screensavers@.len() == screensavers@.len() + 3,
            forall|i: int| 0 <= i < screensavers@.len() ==> #[trigger] r.screensavers@[i] == Drawable::Simple(screensavers@[i]),
            r.screensavers@[screensavers@.len() as int] == Drawable::Measurements(
                Measurements { mode: MeasurementsMode::Default, drawn: false, frames: 0 },
            ),
            r.screensavers@[screensavers@.len() as int + 1] == Drawable::Measurements(
                Measurements { mode: MeasurementsMode::Temps, drawn: false, frames: 0 },
            ),
            r.screensavers@[screensavers@.len() as int + 2] == Drawable::Measurements(
                Measurements { mode: MeasurementsMode::Events, drawn: false, frames: 0 },
            ),
            r.scheduled@.len() == 5,
            !r.pwm_on,
    {
        let mut reg = crate::screen::screensavers(screensavers);
        reg.push(Drawable::Measurements(Measurements::default()));
        reg.push(Drawable::Measurements(Measurements::temps()));
        reg.push(Drawable::Measurements(Measurements::events()));
        let mut scheduled = reminders();
        let first = if now.unix_seconds >= FIRST_POLL_DELAY { now.unix_seconds - FIRST_POLL_DELAY } else { 0 };
        scheduled.push(Schedule::Github(GithubNotifications::new(first, github)));
        scheduled.push(Schedule::Bear(BearReminder::new(teddy_bear)));
        let mut active: Vec<Drawable> = Vec::new();
        active.push(Drawable::Time(TimeDisplay::new()));
        ContextDefault {
            screensavers: reg,
            scheduled,
            active,
            pwm_on: false,
            speed: DEFAULT_SPEED,
            sensors: DashboardData { reading: None, temps: Vec::new(), appointments: Vec::new() },
            totp_codes: Vec::new(),
        }
    }

    /// Adds the TOTP screen to the catalogue.
    pub fn add(&mut self, totp: Totp)
        requires
            old(self).wf(),
            totp.wf(),
        ensures
            final(self).wf(),
            final(self).screensavers@ == old(self).screensavers@.push(Drawable::Totp(totp)),
            final(self).active@ == old(self).active@,
            final(self).scheduled@ == old(self).scheduled@,
    {
        self.screensavers.push(Drawable::Totp(totp));
    }

    /// The number of screens on the stack.
    pub fn active_count(&self) -> (r: usize)
        ensures
            r == self.active@.len(),
    {
        self.active.len()
    }

    /// Turns the buzzer on.
    pub fn enable_pwm(&mut self)
        ensures
            final(self).totp_codes@ == old(self).totp_codes@,
            final(self).pwm_on,
            final(self).active@ == old(self).active@,
            final(self).screensavers@ == old(self).screensavers@,
            final(self).scheduled@ == old(self).scheduled@,
    {
        enable_pwm(&mut self.pwm_on);
    }

    /// Turns the buzzer off.
    pub fn disable_pwm(&mut self)
        ensures
            final(self).totp_codes@ == old(self).totp_codes@,
            !final(self).pwm_on,
            final(self).active@ == old(self).active@,
            final(self).screensavers@ == old(self).screensavers@,
            final(self).scheduled@ == old(self).scheduled@,
    {
        disable_pwm(&mut self.pwm_on);
    }

    /// Pushes a screen on top of the stack.
    pub fn do_draw(&mut self, drawable: Drawable)
        requires
            old(self).wf(),
            drawable.wf(),
        ensures
            final(self).totp_codes@ == old(self).totp_codes@,
            final(self).wf(),
            final(self).active@ == old(self).active@.push(drawable),
            final(self).screensavers@ == old(self).screensavers@,
            final(self).scheduled@ == old(self).scheduled@,
            final(self).pwm_on == old(self).pwm_on,
    {
        self.active.push(drawable);
    }

    /// Pushes a new instance of the first catalogue screen with id `id`; does nothing when
    /// there is none. Returns whether one was found.
    pub fn do_action(&mut self, id: &str) -> (found: bool)
        requires
            old(self).wf(),
        ensures
            final(self).totp_codes@ == old(self).totp_codes@,
            final(self).wf(),
            final(self).screensavers@ == old(self).screensavers@,
            final(self).scheduled@ == old(self).scheduled@,
            final(self).pwm_on == old(self).pwm_on,
            found == find_entry(old(self).screensavers@, id@) is Some,
            action_done(old(self).screensavers@, id@, old(self).active@, final(self).active@),
    {
        let target = id.to_owned();
        let mut i: usize = 0;
        while i < self.screensavers.len()
            invariant
                self.wf(),
                *self == *old(self),
                i <= self.screensavers@.len(),
                target@ == id@,
                find_entry(self.screensavers@, id@) == find_from(self.screensavers@, id@, i as int),
            decreases self.screensavers@.len() - i,
        {
            if self.screensavers[i].has_id(&target) {
                let d = self.screensavers[i].fresh();
                let ghost before = self.active@;
                self.active.push(d);
                proof {
                    assert(self.active@.drop_last() =~= before);
                    assert forall|j: int| 0 <= j < self.active@.len() implies #[trigger] self.active@[j].wf() by {
                        if j < before.len() {
                            assert(self.active@[j] == before[j]);
                        }
                    }
                }
                return true;
            }
            i += 1;
        }
        false
    }

    /// Pops the top screen and clears the display, unless only the root is left.
    /// Returns whether it did so.
    pub fn pop_action_and_clear(&mut self, ops: &mut Vec<DrawOp>) -> (r: bool)
        requires
            old(self).wf(),
        ensures
            final(self).totp_codes@ == old(self).totp_codes@,
            final(self).wf(),
            r == (old(self).active@.len() > 1),
            r ==> final(self).active@ == old(self).active@.drop_last() && final(ops)@ == old(ops)@.push(
                DrawOp::Clear(Color565 { r: 0, g: 0, b: 0 }),
            ),
            !r ==> final(self).active@ == old(self).active@ && final(ops)@ == old(ops)@,
            final(self).screensavers@ == old(self).screensavers@,
            final(self).scheduled@ == old(self).scheduled@,
            final(self).pwm_on == old(self).pwm_on,
    {
        if self.active.len() > 1 {
            let _ = self.active.pop();
            ops.push(DrawOp::Clear(Color565::black()));
            proof {
                assert(self.active@ =~= old(self).active@.drop_last());
                assert forall|j: int| 0 <= j < self.active@.len() implies #[trigger] self.active@[j].wf() by {
                    assert(self.active@[j] == old(self).active@[j]);
                }
            }
            true
        } else {
            false
        }
    }

    /// Whether a poll of the notification feed is due at `now`; the caller then polls and
    /// hands the outcome to `loop_iter`.
    pub fn poll_due(&self, now: &WallClock) -> (r: bool)
        ensures
            r == some_poll_due(self.scheduled@, *now),
    {
        let mut i: usize = 0;
        while i < self.scheduled.len()
            invariant
                i <= self.scheduled@.len(),
                forall|j: int| 0 <= j < i ==> !(#[trigger] self.scheduled@[j] is Github && poll_fires(self.scheduled@[j]->Github_0, *now)),
            decreases self.scheduled@.len() - i,
        {
            match &self.scheduled[i] {
                Schedule::Github(g) => {
                    if g.check(now) {
                        return true;
                    }
                },
                _ => {},
            }
            i += 1;
        }
        false
    }

    /// The last-modified marker of the first poll schedule, to send with the next poll of
    /// the feed; `None` when there is no poll schedule.
    pub fn poll_last_modified(&self) -> (r: Option<String>)
        ensures
            match first_poll(self.scheduled@, 0) {
                None => r is None,
                Some(i) => match self.scheduled@[i]->Github_0.last_modified {
                    None => r is None,
                    Some(m) => r is Some && r->0@ == m@,
                },
            },
    {
        let mut i: usize = 0;
        while i < self.scheduled.len()
            invariant
                i <= self.scheduled@.len(),
                first_poll(self.scheduled@, 0) == first_poll(self.scheduled@, i as int),
            decreases self.scheduled@.len() - i,
        {
            match &self.scheduled[i] {
                Schedule::Github(g) => {
                    return match &g.last_modified {
                        None => None,
                        Some(m) => Some(m.clone()),
                    };
                },
                _ => {},
            }
            i += 1;
        }
        None
    }

    /// Carries out what a schedule asked for.
    fn apply(&mut self, f: Firing)
        requires
            old(self).wf(),
            !(f is Push) || f->Push_0.wf(),
        ensures
            final(self).totp_codes@ == old(self).totp_codes@,
            final(self).wf(),
            final(self).screensavers@ == old(self).screensavers@,
            final(self).scheduled@ == old(self).scheduled@,
            applied(old(self).screensavers@, old(self).active@, old(self).pwm_on, f, final(self).active@, final(self).pwm_on),
            final(self).active@.len() >= old(self).active@.len(),
            final(self).active@.subrange(0, old(self).active@.len() as int) == old(self).active@,
    {
        let ghost fg = f;
        match f {
            Firing::Nothing => {},
            Firing::Action { id, beep } => {
                if beep {
                    self.enable_pwm();
                }
                let _ = self.do_action(id.as_str());
                proof {
                    assert(self.active@.subrange(0, old(self).active@.len() as int) =~= old(self).active@);
                }
            },
            Firing::Push(d) => {
                self.do_draw(d);
                proof {
                    assert(self.active@.subrange(0, old(self).active@.len() as int) =~= old(self).active@);
                }
            },
        }
    }

    /// Runs every schedule once, in order. A poll of the feed that comes due consumes
    /// `poll`, the outcome of polling it (`None`: the poll failed or was not made).
    pub fn run_schedules(&mut self, now: &WallClock, poll: Option<PollOutcome>)
        requires
            old(self).wf(),
        ensures
            final(self).wf(),
            final(self).screensavers@ == old(self).screensavers@,
            final(self).scheduled@.len() == old(self).scheduled@.len(),
            final(self).totp_codes@ == old(self).totp_codes@,
            final(self).active@.len() >= old(self).active@.len(),
            final(self).active@.subrange(0, old(self).active@.len() as int) == old(self).active@,
            exists|ss2: Seq<Schedule>, stacks: Seq<Seq<Drawable>>, pwms: Seq<bool>, polls: Seq<Option<PollOutcome>>, fs: Seq<Firing>|
                #[trigger] schedules_run(old(self).screensavers@, old(self).scheduled@, ss2, stacks, pwms, polls, fs, *now)
                    && stacks[0] == old(self).active@ && pwms[0] == old(self).pwm_on && polls[0] == poll
                    && ss2 == final(self).scheduled@ && stacks.last() == final(self).active@ && pwms.last()
                    == final(self).pwm_on,
            none_fires(old(self).scheduled@, old(self).active@.len() as int, *now) ==> final(self).active@
                == old(self).active@ && final(self).scheduled@ == old(self).scheduled@ && final(self).pwm_on
                == old(self).pwm_on,
    {
        let ghost poll0 = poll;
        let ghost reg = self.screensavers@;
        let ghost olds = self.scheduled@;
        let mut poll = poll;
        let ghost mut ss2: Seq<Schedule> = Seq::empty();
        let ghost mut stacks: Seq<Seq<Drawable>> = seq![self.active@];
        let ghost mut pwms: Seq<bool> = seq![self.pwm_on];
        let ghost mut polls: Seq<Option<PollOutcome>> = seq![poll];
        let ghost mut fs: Seq<Firing> = Seq::empty();
        let mut i: usize = 0;
        while i < self.scheduled.len()
            invariant
                self.wf(),
                i <= self.scheduled@.len(),
                self.scheduled@.len() == olds.len(),
                olds == old(self).scheduled@,
                reg == old(self).screensavers@,
                self.screensavers@ == reg,
                self.totp_codes@ == old(self).totp_codes@,
                self.active@.len() >= old(self).active@.len(),
                self.active@.subrange(0, old(self).active@.len() as int) == old(self).active@,
                none_fires(old(self).scheduled@, old(self).active@.len() as int, *now) ==> self.active@
                    == old(self).active@ && self.scheduled@ == old(self).scheduled@ && self.pwm_on == old(self).pwm_on,
                schedules_run(reg, olds.take(i as int), ss2, stacks, pwms, polls, fs, *now),
                stacks[0] == old(self).active@,
                pwms[0] == old(self).pwm_on,
                polls[0] == poll0,
                stacks.last() == self.active@,
                pwms.last() == self.pwm_on,
                polls.last() == poll,
                ss2 == self.scheduled@.take(i as int),
                forall|j: int| i <= j < olds.len() ==> #[trigger] self.scheduled@[j] == olds[j],
            decreases self.scheduled@.len() - i,
        {
            let depth = self.active.len();
            let ghost mid = self.active@;
            let ghost pwm_before = self.pwm_on;
            let ghost poll_before = poll;
            let ghost scheds = self.scheduled@;
            let mut s = self.scheduled.remove(i);
            let f = s.check_and_do(depth, now, &mut poll);
            let ghost s_new = s;
            let ghost fg = f;
            self.scheduled.insert(i, s);
            proof {
                assert(scheds[i as int] == olds[i as int]);
                assert forall|j: int| 0 <= j < self.scheduled@.len() implies #[trigger] self.scheduled@[j].wf() by {
                    if j < i {
                        assert(self.scheduled@[j] == scheds[j]);
                    } else if j > i {
                        assert(self.scheduled@[j] == scheds[j]);
                    }
                }
                if none_fires(old(self).scheduled@, old(self).active@.len() as int, *now) {
                    assert(!fires(scheds[i as int], depth as int, *now));
                    assert(self.scheduled@ =~= scheds);
                }
            }
            self.apply(f);
            proof {
                assert(self.active@.subrange(0, old(self).active@.len() as int) =~= mid.subrange(
                    0,
                    old(self).active@.len() as int,
                ));
                let ss2n = ss2.push(s_new);
                let stacksn = stacks.push(self.active@);
                let pwmsn = pwms.push(self.pwm_on);
                let pollsn = polls.push(poll);
                let fsn = fs.push(fg);
                let olds_i = olds.take(i + 1);
                assert forall|k: int| 0 <= k < olds_i.len() implies schedule_step(
                    olds_i[k],
                    stacksn[k].len() as int,
                    *now,
                    pollsn[k],
                    ss2n[k],
                    pollsn[k + 1],
                    #[trigger] fsn[k],
                ) && applied(reg, stacksn[k], pwmsn[k], fsn[k], stacksn[k + 1], pwmsn[k + 1]) by {
                    if k < i {
                        assert(olds.take(i as int)[k] == olds_i[k]);
                        assert(fs[k] == fsn[k]);
                        assert(stacks[k] == stacksn[k]);
                        assert(stacks[k + 1] == stacksn[k + 1]);
                        assert(pwms[k] == pwmsn[k]);
                        assert(pwms[k + 1] == pwmsn[k + 1]);
                        assert(polls[k] == pollsn[k]);
                        assert(polls[k + 1] == pollsn[k + 1]);
                        assert(ss2[k] == ss2n[k]);
                    } else {
                        assert(k == i);
                        assert(stacks[k] == mid);
                    }
                }
                assert(schedules_run(reg, olds_i, ss2n, stacksn, pwmsn, pollsn, fsn, *now));
                assert(ss2n =~= self.scheduled@.take(i + 1));
                ss2 = ss2n;
                stacks = stacksn;
                pwms = pwmsn;
                polls = pollsn;
                fs = fsn;
            }
            i += 1;
        }
        proof {
            assert(olds.take(olds.len() as int) =~= olds);
            assert(ss2 =~= self.scheduled@);
            assert(schedules_run(reg, olds, ss2, stacks, pwms, polls, fs, *now));
        }
    }

    /// The frame step: pops every expired screen off the top of the stack (turning the
    /// buzzer off for each), then draws the screen now on top into `ops` and returns
    /// whether the display changed (see `advanced`).
    pub fn advance(&mut self, now: &WallClock, rng: &mut Xoroshiro128StarStar, ops: &mut Vec<DrawOp>) -> (r: bool)
        requires
            old(self).wf(),
            now.wf(),
        ensures
            final(self).wf(),
            final(self).screensavers@ == old(self).screensavers@,
            final(self).scheduled@ == old(self).scheduled@,
            final(self).totp_codes@ == old(self).totp_codes@,
            advanced(old(self).active@, old(self).pwm_on, final(self).active@, final(self).pwm_on, r, *now, old(self).totp_codes@),
    {
        while self.active.len() > 0 && self.active[self.active.len() - 1].expired()
            invariant
                self.wf(),
                self.screensavers@ == old(self).screensavers@,
                self.scheduled@ == old(self).scheduled@,
                self.totp_codes@ == old(self).totp_codes@,
                self.active@.len() <= old(self).active@.len(),
                self.active@ == old(self).active@.take(self.active@.len() as int),
                keep_len(self.active@) == keep_len(old(self).active@),
                self.active@.len() < old(self).active@.len() ==> !self.pwm_on,
                self.active@.len() == old(self).active@.len() ==> self.pwm_on == old(self).pwm_on,
            decreases self.active@.len(),
        {
            let ghost before = self.active@;
            let _ = self.active.pop();
            self.disable_pwm();
            proof {
                assert(keep_len(before) == keep_len(before.drop_last()));
                assert(self.active@ =~= before.drop_last());
                assert(self.active@ =~= old(self).active@.take(self.active@.len() as int));
                assert forall|j: int| 0 <= j < self.active@.len() implies #[trigger] self.active@[j].wf() by {
                    assert(self.active@[j] == before[j]);
                }
            }
        }
        proof {
            lemma_keep_len_bound(old(self).active@);
        }
        if self.active.len() == 0 {
            return false;
        }
        let ghost kept = self.active@;
        proof {
            assert(keep_len(kept) == kept.len());
        }
        let mut top = self.active.pop().unwrap();
        let r = top.draw(now, self.speed, &self.sensors, &self.totp_codes, rng, ops);
        self.active.push(top);
        proof {
            assert(self.active@.take(kept.len() - 1) =~= kept.take(kept.len() - 1));
            assert(kept.take(kept.len() - 1) =~= old(self).active@.take(kept.len() - 1));
            assert forall|j: int| 0 <= j < self.active@.len() implies #[trigger] self.active@[j].wf() by {
                if j < kept.len() - 1 {
                    assert(self.active@[j] == kept[j]);
                }
            }
            assert(kept[kept.len() - 1] == old(self).active@[kept.len() - 1]);
        }
        r
    }

    /// One tick of the main loop: runs the schedules at `now` (see `run_schedules`), then
    /// the frame step (see `advance`). Returns whether the display changed.
    pub fn loop_iter(
        &mut self,
        now: &WallClock,
        rng: &mut Xoroshiro128StarStar,
        poll: Option<PollOutcome>,
        ops: &mut Vec<DrawOp>,
    ) -> (r: bool)
        requires
            old(self).wf(),
            now.wf(),
        ensures
            final(self).wf(),
            final(self).screensavers@ == old(self).screensavers@,
            final(self).scheduled@.len() == old(self).scheduled@.len(),
            exists|ss2: Seq<Schedule>, stacks: Seq<Seq<Drawable>>, pwms: Seq<bool>, polls: Seq<Option<PollOutcome>>, fs: Seq<Firing>|
                #[trigger] schedules_run(old(self).screensavers@, old(self).scheduled@, ss2, stacks, pwms, polls, fs, *now)
                    && stacks[0] == old(self).active@ && pwms[0] == old(self).pwm_on && polls[0] == poll
                    && ss2 == final(self).scheduled@ && advanced(
                    stacks.last(),
                    pwms.last(),
                    final(self).active@,
                    final(self).pwm_on,
                    r,
                    *now,
                    old(self).totp_codes@,
                ),
            none_fires(old(self).scheduled@, old(self).active@.len() as int, *now) ==> {
                &&& final(self).scheduled@ == old(self).scheduled@
                &&& advanced(old(self).active@, old(self).pwm_on, final(self).active@, final(self).pwm_on, r, *now, old(self).totp_codes@)
                &&& (old(self).active@.len() == 1 && old(self).active@[0] is Time ==> final(self).active@.len() == 1 && r == (
                now.minute != old(self).active@[0]->Time_0.last_min))
            },
    {
        self.run_schedules(now, poll);
        let ghost mid = *self;
        let r = self.advance(now, rng, ops);
        proof {
            let (ss2, stacks, pwms, polls, fs) = choose|ss2: Seq<Schedule>, stacks: Seq<Seq<Drawable>>, pwms: Seq<bool>, polls: Seq<Option<PollOutcome>>, fs: Seq<Firing>|
                #[trigger] schedules_run(old(self).screensavers@, old(self).scheduled@, ss2, stacks, pwms, polls, fs, *now)
                    && stacks[0] == old(self).active@ && pwms[0] == old(self).pwm_on && polls[0] == poll
                    && ss2 == mid.scheduled@ && stacks.last() == mid.active@ && pwms.last() == mid.pwm_on;
            assert(schedules_run(old(self).screensavers@, old(self).scheduled@, ss2, stacks, pwms, polls, fs, *now));
        }
        r
    }

    /// Turns the page of the TOTP screen if it is on top; otherwise does nothing.
    pub fn next_totp_page(&mut self)
        requires
            old(self).wf(),
        ensures
            final(self).wf(),
            final(self).screensavers@ == old(self).screensavers@,
            final(self).scheduled@ == old(self).scheduled@,
            final(self).pwm_on == old(self).pwm_on,
            final(self).active@.len() == old(self).active@.len(),
            final(self).totp_codes@ == old(self).totp_codes@,
            final(self).active@.drop_last() == old(self).active@.drop_last(),
            old(self).active@.len() == 0 ==> final(self).active@ == old(self).active@,
            old(self).active@.len() > 0 ==> same_kind(final(self).active@.last(), old(self).active@.last()),
            old(self).active@.len() > 0 ==> match old(self).active@.last() {
                Drawable::Totp(t) => match final(self).active@.last() {
                    Drawable::Totp(u) => u.accounts == t.accounts && u.page == if t.accounts@.len() < (t.page + 1) * 6 {
                        0
                    } else {
                        t.page + 1
                    },
                    _ => false,
                },
                _ => final(self).active@ == old(self).active@,
            },
    {
        if self.active.len() == 0 {
            return;
        }
        let mut top = self.active.pop().unwrap();
        proof {
            assert(top == old(self).active@[old(self).active@.len() - 1]);
            assert(top.wf());
        }
        match &mut top {
            Drawable::Totp(t) => t.next_page(),
            _ => {},
        }
        self.active.push(top);
        proof {
            assert(self.active@.drop_last() =~= old(self).active@.drop_last());
            assert forall|j: int| 0 <= j < self.active@.len() implies #[trigger] self.active@[j].wf() by {
                if j < self.active@.len() - 1 {
                    assert(self.active@[j] == old(self).active@[j]);
                }
            }
            if !(old(self).active@.last() is Totp) {
                assert(self.active@ =~= old(self).active@);
            }
        }
    }

    /// Handles a press of the button on line `offset` at `now_ms`: extends the menu path,
    /// looks it up, carries out what it names, then trims the path. Returns whether the
    /// display should be flushed at once.
    pub fn handle_button(&mut self, menu: &mut Menu, offset: u32, now_ms: u64, ops: &mut Vec<DrawOp>) -> (flush: bool)
        requires
            old(self).wf(),
            old(menu).wf(),
        ensures
            final(self).wf(),
            final(menu).wf(),
            final(self).screensavers@ == old(self).screensavers@,
            final(self).scheduled@ == old(self).scheduled@,
            final(menu).last_press_ms == now_ms,
            ({
                let p = pressed_path(old(menu).path@, offset);
                let e = path_entry(p);
                let reg = old(self).screensavers@;
                let before = old(self).active@;
                let after = final(self).active@;
                let popped = before.len() > 1;
                &&& final(menu).path@ == settled_path(p, e, if e.action is Back { popped } else { e.clear })
                &&& flush == (e.action is Back && popped)
                &&& final(ops)@ == if (e.action is Replace || e.action is Back) && popped {
                    old(ops)@.push(DrawOp::Clear(Color565 { r: 0, g: 0, b: 0 }))
                } else {
                    old(ops)@
                }
                &&& match e.action {
                    MenuAction::Nothing => after == before && final(self).pwm_on == old(self).pwm_on,
                    MenuAction::Show(sc) => action_done(reg, screen_id(sc), before, after) && final(self).pwm_on
                        == old(self).pwm_on,
                    MenuAction::Replace(sc) => action_done(reg, screen_id(sc), if popped { before.drop_last() } else { before }, after)
                        && final(self).pwm_on == old(self).pwm_on,
                    MenuAction::Back => if popped {
                        after == before.drop_last() && !final(self).pwm_on
                    } else {
                        after == before && final(self).pwm_on == old(self).pwm_on
                    },
                    MenuAction::NextPage => after.len() == before.len() && after.drop_last() == before.drop_last()
                        && final(self).pwm_on == old(self).pwm_on,
                    MenuAction::BuzzerOn => after == before && final(self).pwm_on,
                    MenuAction::BuzzerOff => after == before && !final(self).pwm_on,
                }
            }),
    {
        let e = menu.press(offset, now_ms);
        let mut cleared = e.clear;
        let mut flush = false;
        match e.action {
            MenuAction::Nothing => {},
            MenuAction::Show(sc) => {
                let _ = self.do_action(screen_name(sc));
            },
            MenuAction::Replace(sc) => {
                let _ = self.pop_action_and_clear(ops);
                let _ = self.do_action(screen_name(sc));
            },
            MenuAction::Back => {
                cleared = false;
                if self.active.len() > 1 {
                    let _ = self.pop_action_and_clear(ops);
                    self.disable_pwm();
                    flush = true;
                    cleared = true;
                }
            },
            MenuAction::NextPage => {
                self.next_totp_page();
            },
            MenuAction::BuzzerOn => {
                self.enable_pwm();
            },
            MenuAction::BuzzerOff => {
                self.disable_pwm();
            },
        }
        menu.settle(e, cleared);
        flush
    }
}

} // verus!
