use vstd::prelude::*;
use crate::clock::WallClock;
use crate::dashboard::day_letters_of;
use crate::drawable::Weekly;
use crate::frame::{Color565, DrawOp, Font};
use crate::text::{chars_of, decimal, decimal_chars, push_all, string_from_chars};

verus! {

/// Days of the calendar grid, starting today.
pub const GRID_DAYS: i32 = 5;

/// Events listed below the grid.
pub const LISTED: usize = 7;

/// Characters of an event name that fit on a list row.
pub const NAME_CHARS: usize = 19;

/// One appointment of the calendar, in local time: weekday (0 = Monday), start, length in
/// minutes, name, and its date as Julian day and as day and month.
#[derive(Debug)]
pub struct Appointment {
    pub weekday: i32,
    pub hour: i32,
    pub minute: i32,
    pub duration: i32,
    pub name: String,
    pub julian_day: i32,
    pub day: u8,
    pub month: u8,
}

impl Appointment {
    pub open spec fn wf(&self) -> bool {
        0 <= self.weekday < 7 && 0 <= self.hour < 24 && 0 <= self.minute < 60 && 0 <= self.duration <= 100000
            && -10000000 <= self.julian_day <= 10000000
    }
}

/// Days from weekday `today` to the next weekday `target`, today included.
pub open spec fn days_until(target: int, today: int) -> int {
    (target - today + 7) % 7
}

/// The next occurrence of a weekly event, today included, if its weekday is valid.
pub fn weekly_appointment(w: &Weekly, now: &WallClock) -> (r: Option<Appointment>)
    requires
        now.wf(),
        -10000000 <= now.julian_day <= 10000000 - 7,
    ensures
        r is Some <==> (0 <= w.day < 7 && 0 <= w.hour < 24 && 0 <= w.minute < 60 && 0 <= w.duration <= 100000),
        r is Some ==> ({
            let a = r->0;
            &&& a.wf()
            &&& a.weekday == w.day && a.hour == w.hour && a.minute == w.minute && a.duration == w.duration
            &&& a.name@ == w.name@
            &&& a.julian_day == now.julian_day + days_until(w.day as int, now.weekday as int)
        }),
{
    if !(0 <= w.day && w.day < 7 && 0 <= w.hour && w.hour < 24 && 0 <= w.minute && w.minute < 60 && 0 <= w.duration
        && w.duration <= 100000) {
        return None;
    }
    let offset = (w.day - now.weekday as i32 + 7) % 7;
    Some(Appointment {
        weekday: w.day,
        hour: w.hour,
        minute: w.minute,
        duration: w.duration,
        name: w.name.clone(),
        julian_day: now.julian_day + offset,
        day: 0,
        month: 0,
    })
}

/// Whether a one-off event starting at Unix time `start` still lies ahead of `now`.
pub fn is_upcoming(start: u64, now: &WallClock) -> (r: bool)
    ensures
        r == (start >= now.unix_seconds),
{
    start >= now.unix_seconds
}

/// The sort key of an appointment: date, days from today's weekday, hour, minute.
pub open spec fn agenda_key(a: Appointment, today: int) -> (int, int, int, int) {
    (a.julian_day as int, (a.weekday + 7 - today) % 7, a.hour as int, a.minute as int)
}

pub open spec fn key_le(a: (int, int, int, int), b: (int, int, int, int)) -> bool {
    a.0 < b.0 || (a.0 == b.0 && (a.1 < b.1 || (a.1 == b.1 && (a.2 < b.2 || (a.2 == b.2 && a.3 <= b.3)))))
}

pub open spec fn tuple_le(a: (i32, i32, i32, i32, usize), b: (i32, i32, i32, i32, usize)) -> bool {
    a.0 < b.0 || (a.0 == b.0 && (a.1 < b.1 || (a.1 == b.1 && (a.2 < b.2 || (a.2 == b.2 && (a.3 < b.3 || (a.3
        == b.3 && a.4 <= b.4)))))))
}

/// Relies on `slice::sort_unstable` for tuples of integers, which std orders
/// lexicographically: the same tuples, in ascending order.
#[verifier::external_body]
fn sorted_tuples(v: Vec<(i32, i32, i32, i32, usize)>) -> (r: Vec<(i32, i32, i32, i32, usize)>)
    ensures
        r@.to_multiset() == v@.to_multiset(),
        r@.len() == v@.len(),
        forall|i: int, j: int| 0 <= i < j < r@.len() ==> tuple_le(r@[i], r@[j]),
{
    let mut v = v;
    v.sort_unstable();
    v
}

/// The order in which appointments are listed: by date, then weekday distance, hour and
/// minute; equal keys keep their order. Returns indices into `list`.
pub fn agenda_order(list: &Vec<Appointment>, today: u8) -> (r: Vec<usize>)
    requires
        today < 7,
        forall|i: int| 0 <= i < list@.len() ==> (#[trigger] list@[i]).wf(),
    ensures
        r@.len() == list@.len(),
        forall|i: int| 0 <= i < r@.len() ==> #[trigger] r@[i] < list@.len(),
        forall|i: int, j: int|
            0 <= i < j < r@.len() ==> key_le(agenda_key(list@[r@[i] as int], today as int), agenda_key(list@[r@[j] as int], today as int)),
        forall|i: int, j: int| 0 <= i < j < r@.len() ==> r@[i] != r@[j],
{
    let mut keys: Vec<(i32, i32, i32, i32, usize)> = Vec::new();
    let mut i: usize = 0;
    while i < list.len()
        invariant
            today < 7,
            i <= list@.len(),
            keys@.len() == i,
            forall|q: int| 0 <= q < list@.len() ==> (#[trigger] list@[q]).wf(),
            forall|q: int|
                0 <= q < i ==> #[trigger] keys@[q] == (
                    list@[q].julian_day,
                    ((list@[q].weekday + 7 - today) % 7) as i32,
                    list@[q].hour,
                    list@[q].minute,
                    q as usize,
                ),
        decreases list@.len() - i,
    {
        let a = &list[i];
        keys.push((a.julian_day, (a.weekday + 7 - today as i32) % 7, a.hour, a.minute, i));
        i += 1;
    }
    let ghost orig = keys@;
    let sorted = sorted_tuples(keys);
    let mut out: Vec<usize> = Vec::new();
    let mut j: usize = 0;
    while j < sorted.len()
        invariant
            j <= sorted@.len(),
            sorted@.len() == list@.len(),
            out@.len() == j,
            forall|q: int| 0 <= q < j ==> #[trigger] out@[q] == sorted@[q].4,
            forall|q: int| 0 <= q < orig.len() ==> #[trigger] orig[q].4 == q,
            orig.len() == list@.len(),
            sorted@.to_multiset() == orig.to_multiset(),
        decreases sorted@.len() - j,
    {
        out.push(sorted[j].4);
        j += 1;
    }
    proof {
        broadcast use vstd::seq_lib::to_multiset_contains;
        assert forall|q: int| 0 <= q < sorted@.len() implies orig.contains(#[trigger] sorted@[q]) by {
            assert(sorted@.to_multiset().count(sorted@[q]) > 0);
        }
        assert(orig.no_duplicates()) by {
            assert forall|x: int, y: int| 0 <= x < orig.len() && 0 <= y < orig.len() && x != y implies orig[x] != orig[y] by {
                assert(orig[x].4 == x);
                assert(orig[y].4 == y);
            }
        }
        orig.lemma_multiset_has_no_duplicates();
        sorted@.lemma_multiset_has_no_duplicates_conv();
        assert forall|q: int| 0 <= q < out@.len() implies #[trigger] out@[q] < list@.len() by {
            assert(orig.contains(sorted@[q]));
            let w = choose|w: int| 0 <= w < orig.len() && orig[w] == sorted@[q];
            assert(orig[w].4 == w);
        }
        assert forall|a: int, b: int| 0 <= a < b < out@.len() implies key_le(
            agenda_key(list@[out@[a] as int], today as int),
            agenda_key(list@[out@[b] as int], today as int),
        ) && out@[a] != out@[b] by {
            assert(orig.contains(sorted@[a]));
            assert(orig.contains(sorted@[b]));
            let wa = choose|w: int| 0 <= w < orig.len() && orig[w] == sorted@[a];
            let wb = choose|w: int| 0 <= w < orig.len() && orig[w] == sorted@[b];
            assert(orig[wa].4 == wa);
            assert(orig[wb].4 == wb);
            assert(tuple_le(sorted@[a], sorted@[b]));
            assert(sorted@[a] != sorted@[b]);
        }
    }
    out
}

/// The colour of the `k`-th listed event; later ones share a pale yellow.
pub open spec fn event_color(k: int) -> Color565 {
    if k == 0 {
        Color565 { r: 31, g: 63, b: 0 }
    } else if k == 1 {
        Color565 { r: 31, g: 0, b: 31 }
    } else if k == 2 {
        Color565 { r: 0, g: 63, b: 31 }
    } else if k == 3 {
        Color565 { r: 31, g: 0, b: 0 }
    } else if k == 4 {
        Color565 { r: 0, g: 63, b: 0 }
    } else if k == 5 {
        Color565 { r: 0, g: 0, b: 31 }
    } else if k == 6 {
        Color565 { r: 31, g: 63, b: 31 }
    } else {
        Color565 { r: 31, g: 63, b: 16 }
    }
}

pub fn event_color_of(k: usize) -> (c: Color565)
    ensures
        c == event_color(k as int),
{
    match k {
        0 => Color565 { r: 31, g: 63, b: 0 },
        1 => Color565 { r: 31, g: 0, b: 31 },
        2 => Color565 { r: 0, g: 63, b: 31 },
        3 => Color565 { r: 31, g: 0, b: 0 },
        4 => Color565 { r: 0, g: 63, b: 0 },
        5 => Color565 { r: 0, g: 0, b: 31 },
        6 => Color565 { r: 31, g: 63, b: 31 },
        _ => Color565 { r: 31, g: 63, b: 16 },
    }
}

/// Whether appointment `e` falls in the five days from `now`'s date on.
pub open spec fn in_window(e: Appointment, now: WallClock) -> bool {
    e.julian_day >= now.julian_day && (e.julian_day as i64) - (now.julian_day as i64) <= 4
}

/// Whether appointment `e` overlaps the six minutes from `hour`:`minute` on day `i` of the grid.
pub open spec fn covers(e: Appointment, i: int, hour: int, minute: int, now: WallClock) -> bool {
    let start = e.hour * 60 + e.minute;
    let t = hour * 60 + minute;
    &&& e.weekday == (now.weekday + i) % 7
    &&& in_window(e, now)
    &&& t + 6 > start
    &&& t < start + e.duration
}

/// Whether `op` paints a grid cell as the calendar does: one pixel per six minutes, a
/// column of ten per hour row, twelve columns per day; magenta marks the present, the
/// other colours are those of the events that cover the cell.
pub open spec fn is_grid_cell(op: DrawOp, list: Seq<Appointment>, order: Seq<usize>, now: WallClock) -> bool {
    match op {
        DrawOp::Rect { x, y, w, h, color } => {
            let i = (x - 4) / 12;
            let slot = (x - 4) % 12;
            let hour = y - 8;
            &&& w == 1 && h == 1 && x >= 4 && 0 <= i < GRID_DAYS && slot < 10 && 0 <= hour < 24
            &&& ((i == 0 && hour == now.hour && slot == now.minute / 6 && color == Color565 { r: 31, g: 0, b: 31 })
                || exists|k: int|
                0 <= k < order.len() && covers(list[#[trigger] order[k] as int], i, hour, 6 * slot, now) && color
                    == event_color(k))
        },
        _ => false,
    }
}

/// Paints the five-day grid of the calendar.
pub fn calendar_grid(list: &Vec<Appointment>, order: &Vec<usize>, now: &WallClock, ops: &mut Vec<DrawOp>)
    requires
        now.wf(),
        forall|i: int| 0 <= i < list@.len() ==> (#[trigger] list@[i]).wf(),
        forall|i: int| 0 <= i < order@.len() ==> #[trigger] order@[i] < list@.len(),
    ensures
        final(ops)@.len() >= old(ops)@.len(),
        final(ops)@.take(old(ops)@.len() as int) == old(ops)@,
        forall|j: int| old(ops)@.len() <= j < final(ops)@.len() ==> is_grid_cell(#[trigger] final(ops)@[j], list@, order@, *now),
{
    let ghost start = ops@;
    let mut i: i32 = 0;
    while i < GRID_DAYS
        invariant
            now.wf(),
            0 <= i <= GRID_DAYS,
            forall|q: int| 0 <= q < list@.len() ==> (#[trigger] list@[q]).wf(),
            forall|q: int| 0 <= q < order@.len() ==> #[trigger] order@[q] < list@.len(),
            ops@.len() >= start.len(),
            ops@.take(start.len() as int) == start,
            forall|j: int| start.len() <= j < ops@.len() ==> is_grid_cell(#[trigger] ops@[j], list@, order@, *now),
        decreases GRID_DAYS - i,
    {
        let day = (now.weekday as i32 + i) % 7;
        let mut hour: i32 = 0;
        while hour < 24
            invariant
                now.wf(),
                0 <= i < GRID_DAYS,
                day == (now.weekday + i) % 7,
                0 <= hour <= 24,
                forall|q: int| 0 <= q < list@.len() ==> (#[trigger] list@[q]).wf(),
                forall|q: int| 0 <= q < order@.len() ==> #[trigger] order@[q] < list@.len(),
                ops@.len() >= start.len(),
                ops@.take(start.len() as int) == start,
                forall|j: int| start.len() <= j < ops@.len() ==> is_grid_cell(#[trigger] ops@[j], list@, order@, *now),
            decreases 24 - hour,
        {
            let mut slot: i32 = 0;
            while slot < 10
                invariant
                    now.wf(),
                    0 <= i < GRID_DAYS,
                    day == (now.weekday + i) % 7,
                    0 <= hour < 24,
                    0 <= slot <= 10,
                    forall|q: int| 0 <= q < list@.len() ==> (#[trigger] list@[q]).wf(),
                    forall|q: int| 0 <= q < order@.len() ==> #[trigger] order@[q] < list@.len(),
                    ops@.len() >= start.len(),
                    ops@.take(start.len() as int) == start,
                    forall|j: int| start.len() <= j < ops@.len() ==> is_grid_cell(#[trigger] ops@[j], list@, order@, *now),
                decreases 10 - slot,
            {
                let x = 4 + 12 * i + slot;
                let y = 8 + hour;
                assert((x - 4) / 12 == i && (x - 4) % 12 == slot) by (nonlinear_arith)
                    requires
                        x == 4 + 12 * i + slot,
                        0 <= slot < 10,
                        0 <= i,
                ;
                if i == 0 && hour == now.hour as i32 && slot == (now.minute / 6) as i32 {
                    let op = DrawOp::Rect { x, y, w: 1, h: 1, color: Color565 { r: 31, g: 0, b: 31 } };
                    proof {
                        assert(is_grid_cell(op, list@, order@, *now));
                    }
                    ops.push(op);
                    proof {
                        assert(ops@.take(start.len() as int) =~= start);
                    }
                }
                let minute = 6 * slot;
                let t = hour * 60 + minute;
                let mut k: usize = 0;
                while k < order.len()
                    invariant
                        now.wf(),
                        0 <= i < GRID_DAYS,
                        day == (now.weekday + i) % 7,
                        0 <= hour < 24,
                        0 <= slot < 10,
                        x == 4 + 12 * i + slot,
                        y == 8 + hour,
                        minute == 6 * slot,
                        t == hour * 60 + minute,
                        k <= order@.len(),
                        forall|q: int| 0 <= q < list@.len() ==> (#[trigger] list@[q]).wf(),
                        forall|q: int| 0 <= q < order@.len() ==> #[trigger] order@[q] < list@.len(),
                        ops@.len() >= start.len(),
                        ops@.take(start.len() as int) == start,
                        forall|j: int| start.len() <= j < ops@.len() ==> is_grid_cell(#[trigger] ops@[j], list@, order@, *now),
                    decreases order@.len() - k,
                {
                    let e = &list[order[k]];
                    let begin = e.hour * 60 + e.minute;
                    if e.weekday == day && e.julian_day >= now.julian_day && (e.julian_day as i64) - (now.julian_day as i64) <= 4
                        && t + 6 > begin && t < begin + e.duration {
                        let op = DrawOp::Rect { x, y, w: 1, h: 1, color: event_color_of(k) };
                        proof {
                            assert(covers(list@[order@[k as int] as int], i as int, hour as int, 6 * slot as int, *now));
                            assert(is_grid_cell(op, list@, order@, *now));
                        }
                        ops.push(op);
                        proof {
                            assert(ops@.take(start.len() as int) =~= start);
                        }
                    }
                    k += 1;
                }
                slot += 1;
            }
            hour += 1;
        }
        i += 1;
    }
}

/// Whether appointment `e` is still ahead on day `i` of the grid (later today, or on a
/// later day) and falls in the window.
pub open spec fn ahead(e: Appointment, i: int, now: WallClock) -> bool {
    &&& e.weekday == (now.weekday + i) % 7
    &&& in_window(e, now)
    &&& (i > 0 || e.hour > now.hour || (e.hour == now.hour && e.minute >= now.minute))
}

pub open spec fn seconds_until(e: Appointment, i: int, now: WallClock) -> int {
    ((i * 24 + e.hour) * 60 + e.minute) * 60 - (now.hour * 60 + now.minute) * 60
}

/// Seconds until the first appointment ahead, scanning day by day and, within a day, in
/// listed order.
pub open spec fn first_ahead(list: Seq<Appointment>, order: Seq<usize>, now: WallClock, i: int, k: int) -> Option<int>
    decreases GRID_DAYS - i, order.len() - k,
{
    if i < 0 || i >= GRID_DAYS || k < 0 {
        None
    } else if k >= order.len() {
        first_ahead(list, order, now, i + 1, 0)
    } else if ahead(list[order[k] as int], i, now) {
        Some(seconds_until(list[order[k] as int], i, now))
    } else {
        first_ahead(list, order, now, i, k + 1)
    }
}

/// How long until the first appointment ahead, as the dashboard shows it.
pub fn time_until_first(list: &Vec<Appointment>, order: &Vec<usize>, now: &WallClock) -> (r: Option<i32>)
    requires
        now.wf(),
        forall|i: int| 0 <= i < list@.len() ==> (#[trigger] list@[i]).wf(),
        forall|i: int| 0 <= i < order@.len() ==> #[trigger] order@[i] < list@.len(),
    ensures
        match first_ahead(list@, order@, *now, 0, 0) {
            None => r is None,
            Some(s) => r == Some(s as i32),
        },
{
    let mut i: i32 = 0;
    while i < GRID_DAYS
        invariant
            now.wf(),
            0 <= i <= GRID_DAYS,
            forall|q: int| 0 <= q < list@.len() ==> (#[trigger] list@[q]).wf(),
            forall|q: int| 0 <= q < order@.len() ==> #[trigger] order@[q] < list@.len(),
            first_ahead(list@, order@, *now, 0, 0) == first_ahead(list@, order@, *now, i as int, 0),
        decreases GRID_DAYS - i,
    {
        let day = (now.weekday as i32 + i) % 7;
        let mut k: usize = 0;
        while k < order.len()
            invariant
                now.wf(),
                0 <= i < GRID_DAYS,
                day == (now.weekday + i) % 7,
                k <= order@.len(),
                forall|q: int| 0 <= q < list@.len() ==> (#[trigger] list@[q]).wf(),
                forall|q: int| 0 <= q < order@.len() ==> #[trigger] order@[q] < list@.len(),
                first_ahead(list@, order@, *now, 0, 0) == first_ahead(list@, order@, *now, i as int, k as int),
            decreases order@.len() - k,
        {
            let e = &list[order[k]];
            if e.weekday == day && e.julian_day >= now.julian_day && (e.julian_day as i64) - (now.julian_day as i64) <= 4 && (i > 0
                || e.hour > now.hour as i32 || (e.hour == now.hour as i32 && e.minute >= now.minute as i32)) {
                let secs = ((i * 24 + e.hour) * 60 + e.minute) * 60 - (now.hour as i32 * 60 + now.minute as i32) * 60;
                return Some(secs);
            }
            k += 1;
        }
        i += 1;
    }
    None
}

/// The countdown text: "<h>h<m>m" under a day, "<m>m" under an hour, "?" at the minute,
/// nothing from a day on.
pub open spec fn until_text(secs: int) -> Seq<char> {
    let days = secs / 86400;
    let hours = (secs / 3600) % 24;
    let minutes = (secs / 60) % 60;
    if secs < 0 {
        seq!['?']
    } else if days > 0 {
        Seq::empty()
    } else if hours > 0 {
        decimal(hours as nat) + seq!['h'] + decimal(minutes as nat) + seq!['m']
    } else if minutes > 0 {
        decimal(minutes as nat) + seq!['m']
    } else {
        seq!['?']
    }
}

/// The countdown text (see `until_text`).
pub fn until_string(secs: i32) -> (r: String)
    ensures
        r@ == until_text(secs as int),
{
    let mut v: Vec<char> = Vec::new();
    if secs < 0 {
        v.push('?');
    } else {
        let days = secs / 86400;
        let hours = (secs / 3600) % 24;
        let minutes = (secs / 60) % 60;
        if days > 0 {
        } else if hours > 0 {
            push_all(&mut v, &decimal_chars(hours as u64));
            v.push('h');
            push_all(&mut v, &decimal_chars(minutes as u64));
            v.push('m');
        } else if minutes > 0 {
            push_all(&mut v, &decimal_chars(minutes as u64));
            v.push('m');
        } else {
            v.push('?');
        }
    }
    proof {
        assert(v@ =~= until_text(secs as int));
    }
    string_from_chars(&v)
}

/// Whether every appointment is well formed.
pub fn appointments_ok(list: &Vec<Appointment>) -> (r: bool)
    ensures
        r == forall|i: int| 0 <= i < list@.len() ==> (#[trigger] list@[i]).wf(),
{
    let mut i: usize = 0;
    while i < list.len()
        invariant
            i <= list@.len(),
            forall|q: int| 0 <= q < i ==> (#[trigger] list@[q]).wf(),
        decreases list@.len() - i,
    {
        let a = &list[i];
        if !(0 <= a.weekday && a.weekday < 7 && 0 <= a.hour && a.hour < 24 && 0 <= a.minute && a.minute < 60 && 0
            <= a.duration && a.duration <= 100000 && -10000000 <= a.julian_day && a.julian_day <= 10000000) {
            return false;
        }
        i += 1;
    }
    true
}

/// The date text "<day>.<month>." of an appointment more than a week ahead.
pub open spec fn date_text(e: Appointment) -> Seq<char> {
    decimal(e.day as nat) + seq!['.'] + decimal(e.month as nat) + seq!['.']
}

/// Lists the first seven appointments in order: the date when more than a week ahead,
/// else the weekday, then the name in the event's colour.
pub fn event_list(list: &Vec<Appointment>, order: &Vec<usize>, now: &WallClock, ops: &mut Vec<DrawOp>)
    requires
        forall|i: int| 0 <= i < list@.len() ==> (#[trigger] list@[i]).wf(),
        forall|i: int| 0 <= i < order@.len() ==> #[trigger] order@[i] < list@.len(),
    ensures
        final(ops)@.take(old(ops)@.len() as int) == old(ops)@,
        final(ops)@.len() >= old(ops)@.len() + 2 * (if order@.len() < LISTED { order@.len() as int } else { LISTED as int }),
        final(ops)@.len() <= old(ops)@.len() + 3 * (if order@.len() < LISTED { order@.len() as int } else { LISTED as int }),
{
    let ghost start = ops@;
    let white = Color565::white();
    let n = if order.len() < LISTED { order.len() } else { LISTED };
    let mut r: usize = 0;
    while r < n
        invariant
            n <= order@.len(),
            n <= LISTED,
            r <= n,
            forall|i: int| 0 <= i < list@.len() ==> (#[trigger] list@[i]).wf(),
            forall|i: int| 0 <= i < order@.len() ==> #[trigger] order@[i] < list@.len(),
            ops@.take(start.len() as int) == start,
            start.len() + 2 * r <= ops@.len() <= start.len() + 3 * r,
        decreases n - r,
    {
        let e = &list[order[r]];
        let y: i32 = 69 + 9 * r as i32;
        let ghost before = ops@;
        if e.julian_day > now.julian_day && (e.julian_day as i64) - (now.julian_day as i64) > 7 {
            let mut v: Vec<char> = Vec::new();
            push_all(&mut v, &decimal_chars(e.day as u64));
            v.push('.');
            push_all(&mut v, &decimal_chars(e.month as u64));
            v.push('.');
            proof {
                assert(v@ =~= date_text(*e));
            }
            ops.push(DrawOp::Text { text: string_from_chars(&v), x: 0, y, font: Font::Micro, color: white });
        } else {
            let (a, b) = day_letters_of(e.weekday as u8);
            let va = vec![a];
            let vb = vec![b];
            ops.push(DrawOp::Text { text: string_from_chars(&va), x: 0, y, font: Font::Tiny, color: white });
            ops.push(DrawOp::Text { text: string_from_chars(&vb), x: 6, y, font: Font::Mini, color: white });
        }
        let name = chars_of(e.name.as_str());
        let cut = if name.len() > NAME_CHARS { crate::text::sub_chars(&name, 0, NAME_CHARS) } else { name };
        ops.push(DrawOp::Text { text: string_from_chars(&cut), x: 14, y, font: Font::Tiny, color: event_color_of(r) });
        proof {
            assert(ops@.take(start.len() as int) =~= start);
        }
        r += 1;
    }
}

/// `c` extends `a` when it extends `b` and `b` extends `a`.
pub proof fn lemma_prefix_chain(a: Seq<DrawOp>, b: Seq<DrawOp>, c: Seq<DrawOp>)
    requires
        a.len() <= b.len() <= c.len(),
        b.take(a.len() as int) == a,
        c.take(b.len() as int) == b,
    ensures
        c.take(a.len() as int) == a,
{
    assert forall|i: int| 0 <= i < a.len() implies c.take(a.len() as int)[i] == a[i] by {
        assert(c.take(b.len() as int)[i] == c[i]);
        assert(b.take(a.len() as int)[i] == b[i]);
    }
    assert(c.take(a.len() as int) =~= a);
}

/// The appointments of the calendar: the next occurrence of each valid weekly event, then
/// the one-off events (each with its Unix start time) that still lie ahead.
pub fn agenda(weekly: &Vec<Weekly>, one_off: Vec<(u64, Appointment)>, now: &WallClock) -> (r: Vec<Appointment>)
    requires
        now.wf(),
        -10000000 <= now.julian_day <= 10000000 - 7,
    ensures
        forall|i: int| 0 <= i < r@.len() ==> (#[trigger] r@[i]).wf(),
        r@.len() <= weekly@.len() + one_off@.len(),
{
    let mut out: Vec<Appointment> = Vec::new();
    let mut i: usize = 0;
    while i < weekly.len()
        invariant
            now.wf(),
            -10000000 <= now.julian_day <= 10000000 - 7,
            i <= weekly@.len(),
            out@.len() <= i,
            forall|q: int| 0 <= q < out@.len() ==> (#[trigger] out@[q]).wf(),
        decreases weekly@.len() - i,
    {
        if let Some(a) = weekly_appointment(&weekly[i], now) {
            out.push(a);
        }
        i += 1;
    }
    let ghost w = out@.len();
    let mut rest = one_off;
    let ghost total = rest@.len();
    let mut taken: Vec<(u64, Appointment)> = Vec::new();
    while rest.len() > 0
        invariant
            rest@.len() + taken@.len() == total,
        decreases rest@.len(),
    {
        let x = rest.pop().unwrap();
        taken.push(x);
    }
    while taken.len() > 0
        invariant
            out@.len() <= w + (total - taken@.len()),
            w <= weekly@.len(),
            taken@.len() <= total,
            forall|q: int| 0 <= q < out@.len() ==> (#[trigger] out@[q]).wf(),
        decreases taken@.len(),
    {
        let (start, a) = taken.pop().unwrap();
        let ok = 0 <= a.weekday && a.weekday < 7 && 0 <= a.hour && a.hour < 24 && 0 <= a.minute && a.minute < 60
            && 0 <= a.duration && a.duration <= 100000 && -10000000 <= a.julian_day && a.julian_day <= 10000000;
        if ok && is_upcoming(start, now) {
            out.push(a);
        }
    }
    out
}

/// The calendar file: an object with the fetched one-off events under "events", followed
/// by the weekly part (a `"weekly": [...]` member).
pub open spec fn events_document(events: Seq<char>, weekly: Seq<char>) -> Seq<char> {
    seq!['{'] + "\"events\": "@ + events + seq![','] + weekly + seq!['}']
}

/// The calendar file's text (see `events_document`).
pub fn events_document_of(events: &str, weekly: &str) -> (r: String)
    ensures
        r@ == events_document(events@, weekly@),
{
    let mut v: Vec<char> = vec!['{'];
    push_all(&mut v, &chars_of("\"events\": "));
    push_all(&mut v, &chars_of(events));
    v.push(',');
    push_all(&mut v, &chars_of(weekly));
    v.push('}');
    assert(v@ =~= events_document(events@, weekly@));
    string_from_chars(&v)
}

} // verus!
