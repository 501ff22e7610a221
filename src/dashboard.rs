use vstd::prelude::*;
use crate::frame::{Color565, DrawOp, Font, is_text};
use crate::text::{decimal_chars, push_all, string_from_chars};

verus! {

/// What the dashboard shows besides the time: the latest sensor reading, the latest
/// temperatures (tenths of a degree, newest first) and the appointments ahead.
#[derive(Debug)]
pub struct DashboardData {
    pub reading: Option<crate::drawable::Reading>,
    pub temps: Vec<i32>,
    pub appointments: Vec<crate::calendar::Appointment>,
}

/// Hours the temperature chart has room for.
pub const CHART_HOURS: usize = 64;

/// Whether hourly ranges fit the chart: at most 64 hours, each ordered and of sane size.
pub open spec fn chartable(r: Seq<(i32, i32)>) -> bool {
    r.len() <= CHART_HOURS && forall|i: int| 0 <= i < r.len() ==> -100000 <= (#[trigger] r[i]).0 <= r[i].1 <= 100000
}

/// Whether the ranges fit the chart.
pub fn is_chartable(r: &Vec<(i32, i32)>) -> (b: bool)
    ensures
        b == chartable(r@),
{
    if r.len() > CHART_HOURS {
        return false;
    }
    let mut i: usize = 0;
    while i < r.len()
        invariant
            i <= r@.len(),
            forall|q: int| 0 <= q < i ==> -100000 <= (#[trigger] r@[q]).0 <= r@[q].1 <= 100000,
        decreases r@.len() - i,
    {
        let (a, b) = r[i];
        if !(-100000 <= a && a <= b && b <= 100000) {
            return false;
        }
        i += 1;
    }
    true
}

/// Readings per hour of the temperature history (one every ten minutes).
pub const PER_HOUR: usize = 6;

/// Temperatures above this many tenths of a degree are treated as sensor faults.
pub const MAX_PLAUSIBLE: i32 = 400;

pub open spec fn is_sorted_i32(s: Seq<i32>) -> bool {
    forall|i: int, j: int| 0 <= i < j < s.len() ==> s[i] <= s[j]
}

/// Relies on `slice::sort_unstable`: the same values, in ascending order.
#[verifier::external_body]
fn sorted_i32(v: Vec<i32>) -> (r: Vec<i32>)
    ensures
        r@.to_multiset() == v@.to_multiset(),
        r@.len() == v@.len(),
        is_sorted_i32(r@),
{
    let mut v = v;
    v.sort_unstable();
    v
}

/// The `k`-th hour of a temperature history: six readings, fewer at the end.
pub open spec fn hour_chunk(t: Seq<i32>, k: int) -> Seq<i32> {
    let start = (PER_HOUR as int) * k;
    let end = if start + (PER_HOUR as int) < t.len() { start + (PER_HOUR as int) } else { t.len() as int };
    t.subrange(start, end)
}

/// Number of hours in a history whose readings can give a range (at least two each).
pub open spec fn hour_count(t: Seq<i32>) -> int {
    let n = t.len() as int;
    let full = n / (PER_HOUR as int);
    if n % (PER_HOUR as int) >= 2 { full + 1 } else { full }
}

/// Whether `range` is the range of hour `k`, given the sorted readings `s` of that hour
/// and the range before it: second-lowest to second-highest reading; a fault above 40 °C
/// is replaced by the previous hour's maximum (or the hour's minimum at the start).
pub open spec fn is_hour_range(s: Seq<i32>, range: (i32, i32), prev: Option<(i32, i32)>) -> bool {
    let lo = s[1];
    let hi = s[s.len() - 2];
    if hi > MAX_PLAUSIBLE {
        let max = match prev {
            None => lo,
            Some(p) => p.1,
        };
        range == (if lo < max { lo } else { max }, max)
    } else {
        range == (lo, hi)
    }
}

/// Whether entry `k` of `r` is the range of hour `k` of `temps`.
pub open spec fn is_range_of_hour(temps: Seq<i32>, r: Seq<(i32, i32)>, k: int) -> bool {
    exists|s: Seq<i32>|
        #[trigger] s.to_multiset() == hour_chunk(temps, k).to_multiset() && s.len() == hour_chunk(temps, k).len()
            && s.len() >= 2 && is_sorted_i32(s) && is_hour_range(s, r[k], if k == 0 { None } else { Some(r[k - 1]) })
}

/// The hourly (min, max) ranges of a temperature history, newest hour first, as the
/// dashboard charts them (see `is_hour_range`).
pub fn hourly_ranges(temps: &Vec<i32>) -> (r: Vec<(i32, i32)>)
    ensures
        r@.len() == hour_count(temps@),
        forall|k: int| 0 <= k < r@.len() ==> #[trigger] is_range_of_hour(temps@, r@, k),
{
    let mut out: Vec<(i32, i32)> = Vec::new();
    let mut start: usize = 0;
    while temps.len() - start >= 2
        invariant
            start <= temps@.len(),
            start == PER_HOUR * out@.len() || (start == temps@.len() && out@.len() == hour_count(temps@)),
            start < temps@.len() ==> start == PER_HOUR * out@.len(),
            forall|k: int| 0 <= k < out@.len() ==> #[trigger] is_range_of_hour(temps@, out@, k),
        decreases temps@.len() - start,
    {
        let end = if temps.len() - start > PER_HOUR { start + PER_HOUR } else { temps.len() };
        let ghost k = out@.len() as int;
        let mut chunk: Vec<i32> = Vec::new();
        let mut j: usize = start;
        while j < end
            invariant
                start <= j <= end,
                end <= temps@.len(),
                chunk@ == temps@.subrange(start as int, j as int),
            decreases end - j,
        {
            chunk.push(temps[j]);
            proof {
                assert(temps@.subrange(start as int, j + 1) =~= temps@.subrange(start as int, j as int).push(temps@[j as int]));
            }
            j += 1;
        }
        assert(chunk@ == hour_chunk(temps@, k));
        let s = sorted_i32(chunk);
        let lo = s[1];
        let hi = s[s.len() - 2];
        let range = if hi > MAX_PLAUSIBLE {
            let max = if out.len() == 0 { lo } else { out[out.len() - 1].1 };
            (if lo < max { lo } else { max }, max)
        } else {
            (lo, hi)
        };
        let ghost before = out@;
        out.push(range);
        proof {
            assert(is_hour_range(s@, range, if k == 0 { None } else { Some(out@[k - 1]) }));
            assert forall|q: int| 0 <= q < out@.len() implies #[trigger] is_range_of_hour(temps@, out@, q) by {
                if q < k {
                    assert(out@[q] == before[q]);
                    if q > 0 {
                        assert(out@[q - 1] == before[q - 1]);
                    }
                    assert(is_range_of_hour(temps@, before, q));
                    let s2 = choose|s2: Seq<i32>|
                        #[trigger] s2.to_multiset() == hour_chunk(temps@, q).to_multiset() && s2.len() == hour_chunk(temps@, q).len()
                            && s2.len() >= 2 && is_sorted_i32(s2) && is_hour_range(s2, before[q], if q == 0 { None } else { Some(before[q - 1]) });
                    assert(s2.to_multiset() == hour_chunk(temps@, q).to_multiset());
                } else {
                    assert(s@.to_multiset() == hour_chunk(temps@, q).to_multiset());
                }
            }
            let n = temps@.len() as int;
            if end < temps@.len() {
                assert(end == PER_HOUR * out@.len());
            } else {
                assert(start == PER_HOUR * k);
                assert(n - start <= 6 && n - start >= 2);
                assert(hour_count(temps@) == k + 1) by (nonlinear_arith)
                    requires
                        start == 6 * k,
                        n - start <= 6,
                        n - start >= 2,
                        hour_count(temps@) == (if n % 6 >= 2 { n / 6 + 1 } else { n / 6 }),
                        k >= 0,
                ;
            }
        }
        start = end;
    }
    proof {
        let n = temps@.len() as int;
        if start < temps@.len() || out@.len() != hour_count(temps@) {
            assert(start == PER_HOUR * out@.len());
            let k = out@.len() as int;
            assert(hour_count(temps@) == k) by (nonlinear_arith)
                requires
                    start == 6 * k,
                    n - start < 2,
                    n - start >= 0,
                    hour_count(temps@) == (if n % 6 >= 2 { n / 6 + 1 } else { n / 6 }),
                    k >= 0,
            ;
        }
    }
    out
}

/// A reading in tenths of a degree as text: "21.5", "20", "-0.5".
pub open spec fn tenths_text(v: int) -> Seq<char> {
    let m = if v < 0 { -v } else { v };
    let sign = if v < 0 { seq!['-'] } else { Seq::<char>::empty() };
    let frac = if m % 10 != 0 { seq!['.', crate::text::digit_char((m % 10) as nat)] } else { Seq::<char>::empty() };
    sign + crate::text::decimal((m / 10) as nat) + frac
}

/// A reading in tenths of a degree as text (see `tenths_text`).
pub fn tenths_string(v: i32) -> (r: String)
    ensures
        r@ == tenths_text(v as int),
{
    let m: u64 = if v < 0 { (-(v as i64)) as u64 } else { v as u64 };
    let mut out: Vec<char> = Vec::new();
    if v < 0 {
        out.push('-');
    }
    push_all(&mut out, &decimal_chars(m / 10));
    if m % 10 != 0 {
        out.push('.');
        out.push(crate::text::digit(m % 10));
    }
    proof {
        let sign = if v < 0 { seq!['-'] } else { Seq::<char>::empty() };
        let frac = if m % 10 != 0 { seq!['.', crate::text::digit_char((m % 10) as nat)] } else { Seq::<char>::empty() };
        assert(out@ =~= sign + crate::text::decimal((m / 10) as nat) + frac);
    }
    string_from_chars(&out)
}

/// The lowest minimum of `r[..k]`, starting from 1000.
pub open spec fn lowest(r: Seq<(i32, i32)>, k: int) -> int
    decreases k,
{
    if k <= 0 { 1000 } else {
        let m = lowest(r, k - 1);
        if (r[k - 1].0 as int) < m { r[k - 1].0 as int } else { m }
    }
}

/// The highest maximum of `r[..k]`, starting from 0.
pub open spec fn highest(r: Seq<(i32, i32)>, k: int) -> int
    decreases k,
{
    if k <= 0 { 0 } else {
        let m = highest(r, k - 1);
        if (r[k - 1].1 as int) > m { r[k - 1].1 as int } else { m }
    }
}

proof fn lemma_extremes(r: Seq<(i32, i32)>, n: int)
    requires
        0 <= n <= r.len(),
    ensures
        forall|k: int| 0 <= k < n ==> lowest(r, n) <= (#[trigger] r[k]).0 && highest(r, n) >= r[k].1,
    decreases n,
{
    if n > 0 {
        lemma_extremes(r, n - 1);
    }
}

/// The bar for range `range` at column `i` of a chart spanning `lo` to `hi` over 63 rows
/// below row 64, two pixels wide.
pub open spec fn chart_bar(range: (i32, i32), i: int, lo: int, hi: int) -> DrawOp {
    let diff = hi - lo;
    let y1 = 64 + (hi - range.1) * 63 / diff;
    let y2 = 64 + (hi - range.0) * 63 / diff;
    DrawOp::Rect { x: (2 * i) as i32, y: y1 as i32, w: 2, h: (y2 - y1 + 1) as u32, color: Color565 { r: 31, g: 63, b: 31 } }
}

/// Charts hourly ranges (newest first in `ranges`, drawn oldest at the left) with the
/// extremes written beside; there are no bars when all readings are equal.
pub fn temperature_chart(ranges: &Vec<(i32, i32)>, ops: &mut Vec<DrawOp>)
    requires
        chartable(ranges@),
    ensures
        ({
            let n = ranges@.len() as int;
            let lo = lowest(ranges@, n);
            let hi = highest(ranges@, n);
            let bars = if hi > lo { n } else { 0 };
            &&& final(ops)@.len() == old(ops)@.len() + bars + 2
            &&& forall|i: int| 0 <= i < bars ==> #[trigger] final(ops)@[old(ops)@.len() + i] == chart_bar(ranges@[n - 1 - i], i, lo, hi)
            &&& is_text(final(ops)@[old(ops)@.len() + bars], tenths_text(hi), 100, 74, Font::Tiny, Color565 { r: 31, g: 63, b: 31 })
            &&& is_text(final(ops)@[old(ops)@.len() + bars + 1], tenths_text(lo), 100, 114, Font::Tiny, Color565 { r: 31, g: 63, b: 31 })
        }),
        final(ops)@.take(old(ops)@.len() as int) == old(ops)@,
{
    let n = ranges.len();
    let mut lo: i32 = 1000;
    let mut hi: i32 = 0;
    let mut k: usize = 0;
    while k < n
        invariant
            n == ranges@.len(),
            k <= n,
            lo == lowest(ranges@, k as int),
            hi == highest(ranges@, k as int),
            -100000 <= lo <= 1000,
            0 <= hi <= 100000,
            forall|i: int| 0 <= i < ranges@.len() ==> -100000 <= (#[trigger] ranges@[i]).0 <= ranges@[i].1 <= 100000,
        decreases n - k,
    {
        if ranges[k].0 < lo {
            lo = ranges[k].0;
        }
        if ranges[k].1 > hi {
            hi = ranges[k].1;
        }
        k += 1;
    }
    let ghost start = ops@;
    let white = Color565::white();
    proof {
        lemma_extremes(ranges@, n as int);
    }
    if hi > lo {
        let diff = hi as i64 - lo as i64;
        let mut i: usize = 0;
        while i < n
            invariant
                n == ranges@.len(),
                n <= 64,
                i <= n,
                lo == lowest(ranges@, n as int),
                hi == highest(ranges@, n as int),
                hi > lo,
                diff == hi - lo,
                white == (Color565 { r: 31, g: 63, b: 31 }),
                -100000 <= lo <= 1000,
                0 <= hi <= 100000,
                forall|q: int| 0 <= q < ranges@.len() ==> -100000 <= (#[trigger] ranges@[q]).0 <= ranges@[q].1 <= 100000,
                ops@.len() == start.len() + i,
                forall|q: int| 0 <= q < i ==> #[trigger] ops@[start.len() + q] == chart_bar(ranges@[n - 1 - q], q, lo as int, hi as int),
                ops@.subrange(0, start.len() as int) == start,
                forall|k: int| 0 <= k < n ==> lo <= (#[trigger] ranges@[k]).0 && hi >= ranges@[k].1,
            decreases n - i,
        {
            let (a, b) = ranges[n - 1 - i];
            let top = hi as i64 - b as i64;
            let bottom = hi as i64 - a as i64;
            proof {
                assert(0 <= top <= 200000);
                assert(0 <= bottom <= 200000);
            }
            let y1: i64 = 64 + (top * 63) / diff;
            let y2: i64 = 64 + (bottom * 63) / diff;
            proof {
                let t = top as int;
                let bt = bottom as int;
                let d = diff as int;
                assert(0 <= (t * 63) / d <= 20000000) by (nonlinear_arith)
                    requires
                        d >= 1,
                        0 <= t <= 200000,
                ;
                assert(0 <= (bt * 63) / d <= 20000000) by (nonlinear_arith)
                    requires
                        d >= 1,
                        0 <= bt <= 200000,
                ;
            }
            let h = y2 - y1 + 1;
            ops.push(DrawOp::Rect { x: (2 * i) as i32, y: y1 as i32, w: 2, h: h as u32, color: white });
            proof {
                assert(ops@.subrange(0, start.len() as int) =~= start);
            }
            i += 1;
        }
    }
    let ghost mid = ops@;
    ops.push(DrawOp::Text { text: tenths_string(hi), x: 100, y: 74, font: Font::Tiny, color: white });
    ops.push(DrawOp::Text { text: tenths_string(lo), x: 100, y: 114, font: Font::Tiny, color: white });
    proof {
        let bars = if hi > lo { n as int } else { 0 };
        assert(mid.len() == start.len() + bars);
        assert forall|i: int| 0 <= i < bars implies #[trigger] ops@[start.len() + i] == chart_bar(ranges@[n - 1 - i], i, lo as int, hi as int) by {
            assert(ops@[start.len() + i] == mid[start.len() + i]);
        }
        if hi <= lo {
            assert(mid == start);
        }
        assert(mid.take(start.len() as int) =~= start);
        assert(ops@.take(start.len() as int) =~= start);
    }
}

/// The two letters of the German weekday abbreviation (0 = Monday).
pub open spec fn day_letters(d: int) -> (char, char) {
    if d == 0 {
        ('M', 'o')
    } else if d == 1 {
        ('D', 'i')
    } else if d == 2 {
        ('M', 'i')
    } else if d == 3 {
        ('D', 'o')
    } else if d == 4 {
        ('F', 'r')
    } else if d == 5 {
        ('S', 'a')
    } else {
        ('S', 'o')
    }
}

pub fn day_letters_of(d: u8) -> (r: (char, char))
    ensures
        r == day_letters(d as int),
{
    match d {
        0 => ('M', 'o'),
        1 => ('D', 'i'),
        2 => ('M', 'i'),
        3 => ('D', 'o'),
        4 => ('F', 'r'),
        5 => ('S', 'a'),
        _ => ('S', 'o'),
    }
}

fn one_char(c: char) -> (r: String)
    ensures
        r@ == seq![c],
{
    let v = vec![c];
    assert(v@ =~= seq![c]);
    string_from_chars(&v)
}

/// The column heads of the five-day calendar: today's weekday first.
pub fn week_header(weekday: u8, ops: &mut Vec<DrawOp>)
    requires
        weekday < 7,
    ensures
        final(ops)@.len() == old(ops)@.len() + 10,
        final(ops)@.take(old(ops)@.len() as int) == old(ops)@,
        forall|i: int|
            0 <= i < 5 ==> is_text(
                #[trigger] final(ops)@[old(ops)@.len() + 2 * i],
                seq![day_letters((weekday + i) % 7).0],
                12 * i + 4,
                6,
                Font::Tiny,
                Color565 { r: 31, g: 63, b: 31 },
            ) && is_text(
                final(ops)@[old(ops)@.len() + 2 * i + 1],
                seq![day_letters((weekday + i) % 7).1],
                12 * i + 10,
                6,
                Font::Mini,
                Color565 { r: 31, g: 63, b: 31 },
            ),
{
    let ghost start = ops@;
    let white = Color565::white();
    let mut i: u8 = 0;
    while i < 5
        invariant
            weekday < 7,
            i <= 5,
            white == (Color565 { r: 31, g: 63, b: 31 }),
            ops@.len() == start.len() + 2 * i,
            start == old(ops)@,
            ops@.take(start.len() as int) == start,
            forall|q: int|
                0 <= q < i ==> is_text(
                    #[trigger] ops@[start.len() + 2 * q],
                    seq![day_letters((weekday + q) % 7).0],
                    12 * q + 4,
                    6,
                    Font::Tiny,
                    Color565 { r: 31, g: 63, b: 31 },
                ) && is_text(
                    ops@[start.len() + 2 * q + 1],
                    seq![day_letters((weekday + q) % 7).1],
                    12 * q + 10,
                    6,
                    Font::Mini,
                    Color565 { r: 31, g: 63, b: 31 },
                ),
        decreases 5 - i,
    {
        let (a, b) = day_letters_of((weekday + i) % 7);
        let ghost prev = ops@;
        ops.push(DrawOp::Text { text: one_char(a), x: 12 * i as i32 + 4, y: 6, font: Font::Tiny, color: white });
        ops.push(DrawOp::Text { text: one_char(b), x: 12 * i as i32 + 10, y: 6, font: Font::Mini, color: white });
        proof {
            assert forall|q: int| 0 <= q < i implies #[trigger] ops@[start.len() + 2 * q] == prev[start.len() + 2 * q]
                && ops@[start.len() + 2 * q + 1] == prev[start.len() + 2 * q + 1] by {}
            assert(ops@.take(start.len() as int) =~= start);
        }
        i += 1;
    }
}

/// The pixels of the degree sign and the "C" beside the temperature.
pub fn degree_sign(ops: &mut Vec<DrawOp>)
    ensures
        final(ops)@.len() == old(ops)@.len() + 15,
        final(ops)@.take(old(ops)@.len() as int) == old(ops)@,
{
    let white = Color565::white();
    let xs: [i32; 15] = [118, 119, 117, 117, 120, 120, 118, 119, 122, 122, 122, 123, 124, 123, 124];
    let ys: [i32; 15] = [49, 49, 50, 51, 50, 51, 52, 52, 50, 51, 52, 49, 49, 53, 53];
    let ghost start = ops@.len();
    let mut i: usize = 0;
    while i < 15
        invariant
            i <= 15,
            ops@.len() == start + i,
            start == old(ops)@.len(),
            ops@.take(start as int) == old(ops)@,
        decreases 15 - i,
    {
        ops.push(DrawOp::Rect { x: xs[i], y: ys[i], w: 1, h: 1, color: white });
        assert(ops@.take(start as int) =~= old(ops)@);
        i += 1;
    }
}

/// The hour axis of the calendar: a line with ticks at 8:00 and 20:00.
pub fn hour_axis(ops: &mut Vec<DrawOp>)
    ensures
        final(ops)@ == old(ops)@ + seq![
            DrawOp::Rect { x: 2, y: 8, w: 1, h: 24, color: Color565 { r: 31, g: 63, b: 31 } },
            DrawOp::Rect { x: 1, y: 16, w: 1, h: 1, color: Color565 { r: 31, g: 63, b: 31 } },
            DrawOp::Rect { x: 1, y: 28, w: 1, h: 1, color: Color565 { r: 31, g: 63, b: 31 } },
        ],
{
    let white = Color565::white();
    ops.push(DrawOp::Rect { x: 2, y: 8, w: 1, h: 24, color: white });
    ops.push(DrawOp::Rect { x: 1, y: 16, w: 1, h: 1, color: white });
    ops.push(DrawOp::Rect { x: 1, y: 28, w: 1, h: 1, color: white });
    assert(ops@ =~= old(ops)@ + seq![
        DrawOp::Rect { x: 2, y: 8, w: 1, h: 24, color: Color565 { r: 31, g: 63, b: 31 } },
        DrawOp::Rect { x: 1, y: 16, w: 1, h: 1, color: Color565 { r: 31, g: 63, b: 31 } },
        DrawOp::Rect { x: 1, y: 28, w: 1, h: 1, color: Color565 { r: 31, g: 63, b: 31 } },
    ]);
}

/// The part of the dashboard below the clock and the reading: degree sign, hour axis,
/// weekday heads, the calendar grid, then the event list or the temperature chart as the
/// mode asks, and the countdown to the next appointment.
pub fn dashboard_body(mode: crate::drawable::MeasurementsMode, now: &crate::clock::WallClock, data: &DashboardData, ops: &mut Vec<DrawOp>)
    requires
        now.wf(),
    ensures
        final(ops)@.len() >= old(ops)@.len() + 28,
        final(ops)@.take(old(ops)@.len() as int) == old(ops)@,
{
    let ghost s0 = ops@;
    degree_sign(ops);
    let ghost s1 = ops@;
    hour_axis(ops);
    let ghost s2 = ops@;
    proof {
        assert(s2.take(s1.len() as int) =~= s1);
        crate::calendar::lemma_prefix_chain(s0, s1, s2);
    }
    week_header(now.weekday, ops);
    proof {
        crate::calendar::lemma_prefix_chain(s0, s2, ops@);
    }
    let ghost s3 = ops@;
    let apps = &data.appointments;
    if crate::calendar::appointments_ok(apps) {
        let order = crate::calendar::agenda_order(apps, now.weekday);
        crate::calendar::calendar_grid(apps, &order, now, ops);
        proof {
            crate::calendar::lemma_prefix_chain(s0, s3, ops@);
        }
        let ghost s4 = ops@;
        if mode == crate::drawable::MeasurementsMode::Events {
            crate::calendar::event_list(apps, &order, now, ops);
        } else if mode == crate::drawable::MeasurementsMode::Temps {
            chart_part(data, ops);
        }
        proof {
            if ops@.len() != s4.len() || mode == crate::drawable::MeasurementsMode::Events || mode == crate::drawable::MeasurementsMode::Temps {
                crate::calendar::lemma_prefix_chain(s0, s4, ops@);
            }
        }
        if let Some(secs) = crate::calendar::time_until_first(apps, &order, now) {
            let ghost s5 = ops@;
            ops.push(DrawOp::Text { text: crate::calendar::until_string(secs), x: 2, y: 60, font: Font::Medium, color: Color565::white() });
            proof {
                assert(ops@.take(s5.len() as int) =~= s5);
                crate::calendar::lemma_prefix_chain(s0, s5, ops@);
            }
        }
    } else if mode == crate::drawable::MeasurementsMode::Temps {
        chart_part(data, ops);
        proof {
            crate::calendar::lemma_prefix_chain(s0, s3, ops@);
        }
    }
}

/// The temperature chart of the history, when its hourly ranges fit.
fn chart_part(data: &DashboardData, ops: &mut Vec<DrawOp>)
    ensures
        final(ops)@.len() >= old(ops)@.len(),
        final(ops)@.take(old(ops)@.len() as int) == old(ops)@,
{
    let ranges = hourly_ranges(&data.temps);
    if is_chartable(&ranges) {
        temperature_chart(&ranges, ops);
    } else {
        assert(ops@.take(ops@.len() as int) =~= ops@);
    }
}

} // verus!
