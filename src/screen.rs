use vstd::prelude::*;
use rand_xoshiro::Xoroshiro128StarStar;
use crate::clock::WallClock;
use crate::dashboard::DashboardData;
use crate::drawable::{BearDraw, Measurements, MeasurementsMode, TimeDisplay};
use crate::frame::DrawOp;
use crate::notify::NotificationAlert;
use crate::screensaver::SimpleScreensaver;
use crate::totp::{Totp, TotpAccount};

verus! {

/// Every kind of screen content the stack can hold.
#[derive(Debug)]
pub enum Drawable {
    Time(TimeDisplay),
    Simple(SimpleScreensaver),
    Bear(BearDraw),
    Measurements(Measurements),
    Alert(NotificationAlert),
    Totp(Totp),
}

/// Whether two screens are of the same kind.
pub open spec fn same_kind(a: Drawable, b: Drawable) -> bool {
    match (a, b) {
        (Drawable::Time(_), Drawable::Time(_)) => true,
        (Drawable::Simple(_), Drawable::Simple(_)) => true,
        (Drawable::Bear(_), Drawable::Bear(_)) => true,
        (Drawable::Measurements(_), Drawable::Measurements(_)) => true,
        (Drawable::Alert(_), Drawable::Alert(_)) => true,
        (Drawable::Totp(_), Drawable::Totp(_)) => true,
        _ => false,
    }
}

pub open spec fn mode_id(m: MeasurementsMode) -> Seq<char> {
    match m {
        MeasurementsMode::Default => "measurements"@,
        MeasurementsMode::Temps => "measurements_temps"@,
        MeasurementsMode::Events => "measurements_events"@,
    }
}

pub open spec fn same_accounts(a: Seq<TotpAccount>, b: Seq<TotpAccount>) -> bool {
    a.len() == b.len() && forall|i: int| 0 <= i < a.len() ==> #[trigger] a[i].issuer@ == b[i].issuer@ && a[i].label@ == b[i].label@
}

/// Whether `r` is `d` as it was before it drew anything.
pub open spec fn is_fresh_copy(r: Drawable, d: Drawable) -> bool {
    match (r, d) {
        (Drawable::Time(a), Drawable::Time(_)) => a.last_min == 60,
        (Drawable::Simple(a), Drawable::Simple(b)) => a.id@ == b.id@ && a.data@ == b.data@ && a.iters == 0,
        (Drawable::Measurements(a), Drawable::Measurements(b)) => a.mode == b.mode && !a.drawn && a.frames == 0,
        (Drawable::Totp(a), Drawable::Totp(b)) => same_accounts(a.accounts@, b.accounts@) && a.page == 0 && a.codes@.len() == 0,
        (Drawable::Bear(a), Drawable::Bear(b)) => a.image.id@ == b.image.id@ && a.image.data@ == b.image.data@
            && a.image.iters == 0 && a.calls == 0,
        (Drawable::Alert(a), Drawable::Alert(b)) => a.image.id@ == b.image.id@ && a.image.data@ == b.image.data@
            && a.image.iters == 0 && a.calls == 0 && a.lines@.len() == b.lines@.len()
            && forall|i: int| 0 <= i < a.lines@.len() ==> #[trigger] a.lines@[i]@ == b.lines@[i]@,
        _ => false,
    }
}

/// What one frame does to a screen: the screen after it (`after`) and whether it changed
/// the display (`r`), given the time and the current one-time codes.
pub open spec fn draw_outcome(before: Drawable, after: Drawable, r: bool, now: WallClock, codes: Seq<String>) -> bool {
    &&& same_kind(after, before)
    &&& after.spec_id() == before.spec_id()
    &&& match before {
                Drawable::Time(t) => r == (now.minute != t.last_min) && after == Drawable::Time(
                    TimeDisplay { last_min: now.minute },
                ),
                Drawable::Simple(s) => r && match after {
                    Drawable::Simple(f) => f.iters == if s.iters < u32::MAX { s.iters + 1 } else { s.iters as int },
                    _ => false,
                },
                Drawable::Bear(b) => match after {
                    Drawable::Bear(f) => f.calls == if b.calls < u32::MAX { b.calls + 1 } else { b.calls as int } && r == (
                    f.calls <= crate::drawable::BEAR_PAINT_FRAMES),
                    _ => false,
                },
                Drawable::Measurements(m) => r == !m.drawn && match after {
                    Drawable::Measurements(f) => f.drawn && f.mode == m.mode && f.frames == if m.frames < u32::MAX {
                        m.frames + 1
                    } else {
                        m.frames as int
                    },
                    _ => false,
                },
                Drawable::Alert(a) => r == (a.calls < crate::notify::ALERT_PAINT_FRAMES) && match after {
                    Drawable::Alert(f) => f.calls == if a.calls < u32::MAX { a.calls + 1 } else { a.calls as int },
                    _ => false,
                },
                Drawable::Totp(t) => if codes.len() == t.accounts@.len() {
                    let start = t.page * crate::totp::PAGE_SIZE;
                    let shown = crate::totp::view_codes(codes).subrange(start as int, crate::totp::page_end(codes.len() as int, start as int));
                    match after {
                        Drawable::Totp(u) => u.wf() && u.accounts == t.accounts && u.page == t.page && r == (shown != crate::totp::view_codes(t.codes@))
                            && crate::totp::view_codes(u.codes@) == shown,
                        _ => false,
                    }
                } else {
                    !r && after == before
                },
            }
}

impl Drawable {
    pub open spec fn wf(&self) -> bool {
        match self {
            Drawable::Time(_) => true,
            Drawable::Simple(s) => s.wf(),
            Drawable::Bear(b) => b.wf(),
            Drawable::Measurements(_) => true,
            Drawable::Alert(a) => a.wf(),
            Drawable::Totp(t) => t.wf(),
        }
    }

    pub open spec fn spec_expired(&self) -> bool {
        match self {
            Drawable::Time(_) => false,
            Drawable::Simple(s) => s.spec_expired(),
            Drawable::Bear(b) => b.spec_expired(),
            Drawable::Measurements(m) => m.spec_expired(),
            Drawable::Alert(a) => a.spec_expired(),
            Drawable::Totp(_) => false,
        }
    }

    /// The id under which the screen can be requested, if it has one.
    pub open spec fn spec_id(&self) -> Option<Seq<char>> {
        match self {
            Drawable::Time(_) => Some("time"@),
            Drawable::Simple(s) => Some(s.id@),
            Drawable::Measurements(m) => Some(mode_id(m.mode)),
            Drawable::Totp(_) => Some("totp"@),
            _ => None,
        }
    }

    pub fn expired(&self) -> (r: bool)
        ensures
            r == self.spec_expired(),
    {
        match self {
            Drawable::Time(_) => false,
            Drawable::Simple(s) => s.expired(),
            Drawable::Bear(b) => b.expired(),
            Drawable::Measurements(m) => m.expired(),
            Drawable::Alert(a) => a.expired(),
            Drawable::Totp(_) => false,
        }
    }

    /// Whether the screen's id is `id`.
    pub fn has_id(&self, id: &String) -> (r: bool)
        ensures
            r == (self.spec_id() == Some(id@)),
    {
        let own: Option<String> = match self {
            Drawable::Time(_) => Some("time".to_owned()),
            Drawable::Simple(s) => Some(s.id.clone()),
            Drawable::Measurements(m) => match m.mode {
                MeasurementsMode::Default => Some("measurements".to_owned()),
                MeasurementsMode::Temps => Some("measurements_temps".to_owned()),
                MeasurementsMode::Events => Some("measurements_events".to_owned()),
            },
            Drawable::Totp(_) => Some("totp".to_owned()),
            _ => None,
        };
        match own {
            Some(s) => s == *id,
            None => false,
        }
    }

    /// A new instance of the screen, as it was before it drew anything.
    pub fn fresh(&self) -> (r: Drawable)
        requires
            self.wf(),
        ensures
            r.wf(),
            is_fresh_copy(r, *self),
            r.spec_id() == self.spec_id(),
            !r.spec_expired(),
    {
        match self {
            Drawable::Time(_) => Drawable::Time(TimeDisplay::new()),
            Drawable::Simple(s) => Drawable::Simple(s.fresh()),
            Drawable::Measurements(m) => Drawable::Measurements(Measurements { mode: m.mode, drawn: false, frames: 0 }),
            Drawable::Totp(t) => {
                let mut accounts: Vec<TotpAccount> = Vec::new();
                let mut i: usize = 0;
                while i < t.accounts.len()
                    invariant
                        i <= t.accounts@.len(),
                        accounts@.len() == i,
                        forall|j: int| 0 <= j < i ==> #[trigger] accounts@[j].issuer@ == t.accounts@[j].issuer@
                            && accounts@[j].label@ == t.accounts@[j].label@,
                    decreases t.accounts@.len() - i,
                {
                    let a = &t.accounts[i];
                    accounts.push(TotpAccount { issuer: a.issuer.clone(), label: a.label.clone() });
                    i += 1;
                }
                Drawable::Totp(Totp { accounts, page: 0, codes: Vec::new() })
            },
            Drawable::Bear(b) => Drawable::Bear(BearDraw::new(b.image.fresh())),
            Drawable::Alert(a) => {
                let mut lines: Vec<String> = Vec::new();
                let mut i: usize = 0;
                while i < a.lines.len()
                    invariant
                        i <= a.lines@.len(),
                        lines@.len() == i,
                        forall|j: int| 0 <= j < i ==> #[trigger] lines@[j]@ == a.lines@[j]@,
                    decreases a.lines@.len() - i,
                {
                    lines.push(a.lines[i].clone());
                    i += 1;
                }
                Drawable::Alert(NotificationAlert::new(lines, a.image.fresh()))
            },
        }
    }

    /// Draws one frame of the screen into `ops`; returns whether the screen changed.
    /// Besides its own state a frame reads the time, the sparkle steps per frame, the
    /// sensor history, and the current one-time codes (one per TOTP account).
    pub fn draw(
        &mut self,
        now: &WallClock,
        speed: u64,
        sensors: &DashboardData,
        codes: &Vec<String>,
        rng: &mut Xoroshiro128StarStar,
        ops: &mut Vec<DrawOp>,
    ) -> (r: bool)
        requires
            old(self).wf(),
            now.wf(),
        ensures
            final(self).wf(),
            draw_outcome(*old(self), *final(self), r, *now, codes@),
            ((*old(self)) is Totp && codes@.len() != (*old(self))->Totp_0.accounts@.len()) ==> final(ops)@ == old(ops)@,
    {
        match self {
            Drawable::Time(t) => t.draw(now, ops),
            Drawable::Simple(s) => s.draw(rng, speed, ops),
            Drawable::Bear(b) => b.draw(ops),
            Drawable::Measurements(m) => m.draw(now, sensors, ops),
            Drawable::Alert(a) => a.draw(rng, ops),
            Drawable::Totp(t) => {
                if codes.len() == t.accounts.len() {
                    t.draw(codes, ops)
                } else {
                    false
                }
            },
        }
    }
}

/// The catalogue entries for a list of screensavers, in the same order.
pub fn screensavers(images: Vec<SimpleScreensaver>) -> (r: Vec<Drawable>)
    ensures
        r@.len() == images@.len(),
        forall|i: int| 0 <= i < images@.len() ==> #[trigger] r@[i] == Drawable::Simple(images@[i]),
{
    let ghost all = images@;
    let mut src = images;
    let mut out: Vec<Drawable> = Vec::new();
    while src.len() > 0
        invariant
            out@.len() + src@.len() == all.len(),
            forall|i: int| 0 <= i < out@.len() ==> #[trigger] out@[i] == Drawable::Simple(all[i]),
            forall|j: int| 0 <= j < src@.len() ==> #[trigger] src@[j] == all[out@.len() + j],
        decreases src@.len(),
    {
        let ghost before = src@;
        let s = src.remove(0);
        proof {
            assert(s == all[out@.len() as int]);
            assert forall|j: int| 0 <= j < src@.len() implies #[trigger] src@[j] == all[out@.len() + 1 + j] by {
                assert(src@[j] == before[j + 1]);
            }
        }
        out.push(Drawable::Simple(s));
    }
    out
}

} // verus!
