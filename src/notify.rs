use vstd::prelude::*;
use crate::text::{decimal, decimal_chars, string_from_chars, chars_of};

verus! {

/// The subject of a notification: what it is about.
#[derive(Debug)]
pub struct Subject {
    pub title: String,
    pub url: Option<String>,
    pub latest_comment_url: Option<String>,
    pub kind: String,
}

/// One entry of the notification feed.
#[derive(Debug)]
pub struct Notification {
    pub id: String,
    pub subject: Subject,
    pub reason: String,
    pub unread: bool,
    pub updated_at: String,
}

/// What one successful poll of the feed brought: its entries and the new
/// last-modified marker to send with the next poll.
#[derive(Debug)]
pub struct PollOutcome {
    pub notifications: Vec<Notification>,
    pub last_modified: Option<String>,
}

/// Most lines an alert lists before summarising the rest.
pub const MAX_LINES: usize = 8;

/// Whether a notification deserves listing: unread and, when `strict`, not a mere state
/// change.
pub open spec fn is_relevant(n: Notification, strict: bool) -> bool {
    (!strict || n.reason@ != "state_change"@) && n.unread
}

/// How many entries of `ns` deserve an alert.
pub open spec fn count_relevant(ns: Seq<Notification>, strict: bool) -> nat
    decreases ns.len(),
{
    if ns.len() == 0 {
        0
    } else {
        count_relevant(ns.drop_first(), strict) + if is_relevant(ns[0], strict) { 1nat } else { 0nat }
    }
}

/// `s` cut at every occurrence of `sep`; always at least one part.
pub open spec fn split_on(s: Seq<char>, sep: char) -> Seq<Seq<char>>
    decreases s.len(),
{
    if s.len() == 0 {
        seq![Seq::<char>::empty()]
    } else {
        let prev = split_on(s.drop_last(), sep);
        if s.last() == sep {
            prev.push(Seq::<char>::empty())
        } else {
            prev.update(prev.len() - 1, prev.last().push(s.last()))
        }
    }
}

/// The line that names where a notification points: "<repository> #<number>", taken
/// from the sixth and eighth '/'-separated parts of its URL.
pub open spec fn url_line(url: Option<String>) -> Seq<char> {
    match url {
        None => "no url"@,
        Some(u) => {
            let parts = split_on(u@, '/');
            if parts.len() < 8 {
                "too few url parts"@
            } else {
                parts[5] + seq![' ', '#'] + parts[7]
            }
        },
    }
}

/// Whether the URL line of a notification is a real one, followed by the title.
pub open spec fn has_title_line(url: Option<String>) -> bool {
    match url {
        None => false,
        Some(u) => split_on(u@, '/').len() >= 8,
    }
}

/// `lines` after listing notification `n`: its URL line, then its title while there is room.
pub open spec fn add_entry(lines: Seq<Seq<char>>, n: Notification) -> Seq<Seq<char>> {
    let l = lines.push(url_line(n.subject.url));
    if has_title_line(n.subject.url) && l.len() < MAX_LINES {
        l.push(n.subject.title@)
    } else {
        l
    }
}

/// Lists the relevant entries of `ns` after `lines` until eight lines are filled; also
/// gives how many relevant entries were left unlisted.
pub open spec fn fill_lines(ns: Seq<Notification>, lines: Seq<Seq<char>>, strict: bool) -> (Seq<Seq<char>>, nat)
    decreases ns.len(),
{
    if ns.len() == 0 {
        (lines, 0)
    } else if !is_relevant(ns[0], strict) {
        fill_lines(ns.drop_first(), lines, strict)
    } else if lines.len() >= MAX_LINES {
        (lines, count_relevant(ns, strict))
    } else {
        fill_lines(ns.drop_first(), add_entry(lines, ns[0]), strict)
    }
}

/// The summary line for entries left unlisted.
pub open spec fn more_line(n: nat) -> Seq<char> {
    seq!['.', '.', '.', ' '] + decimal(n) + seq![' ', 'm', 'o', 'r', 'e']
}

/// The summary lines of a batch of notifications, or `None` when none is relevant.
pub open spec fn lines_of(ns: Seq<Notification>, strict: bool) -> Option<Seq<Seq<char>>> {
    if count_relevant(ns, strict) == 0 {
        None
    } else {
        let (lines, rest) = fill_lines(ns, Seq::empty(), strict);
        Some(if rest != 0 { lines.push(more_line(rest)) } else { lines })
    }
}

/// The lines of the alert for a batch of notifications (state changes left out), or
/// `None` when none deserves one.
pub open spec fn alert_lines_of(ns: Seq<Notification>) -> Option<Seq<Seq<char>>> {
    lines_of(ns, true)
}

pub open spec fn view_lines(v: Seq<String>) -> Seq<Seq<char>> {
    v.map_values(|s: String| s@)
}

/// The parts of `s` between occurrences of `sep`.
pub fn split_chars(s: &Vec<char>, sep: char) -> (r: Vec<Vec<char>>)
    ensures
        r@.len() == split_on(s@, sep).len(),
        forall|i: int| 0 <= i < r@.len() ==> #[trigger] r@[i]@ == split_on(s@, sep)[i],
{
    let mut done: Vec<Vec<char>> = Vec::new();
    let mut cur: Vec<char> = Vec::new();
    let mut i: usize = 0;
    while i < s.len()
        invariant
            i <= s@.len(),
            done@.len() + 1 == split_on(s@.take(i as int), sep).len(),
            forall|k: int| 0 <= k < done@.len() ==> #[trigger] done@[k]@ == split_on(s@.take(i as int), sep)[k],
            cur@ == split_on(s@.take(i as int), sep).last(),
        decreases s@.len() - i,
    {
        let c = s[i];
        proof {
            assert(s@.take(i + 1).drop_last() =~= s@.take(i as int));
        }
        if c == sep {
            done.push(cur);
            cur = Vec::new();
        } else {
            cur.push(c);
        }
        i += 1;
    }
    proof {
        assert(s@.take(s@.len() as int) =~= s@);
    }
    done.push(cur);
    done
}

/// The URL line of a notification (see `url_line`).
pub fn url_line_of(url: &Option<String>) -> (r: String)
    ensures
        r@ == url_line(*url),
{
    match url {
        None => "no url".to_owned(),
        Some(u) => {
            let parts = split_chars(&chars_of(u.as_str()), '/');
            if parts.len() < 8 {
                "too few url parts".to_owned()
            } else {
                let mut v: Vec<char> = Vec::new();
                let a = &parts[5];
                let b = &parts[7];
                let mut k: usize = 0;
                while k < a.len()
                    invariant
                        k <= a@.len(),
                        v@ == a@.take(k as int),
                    decreases a@.len() - k,
                {
                    v.push(a[k]);
                    proof {
                        assert(a@.take(k + 1) =~= a@.take(k as int).push(a@[k as int]));
                    }
                    k += 1;
                }
                v.push(' ');
                v.push('#');
                let ghost head = v@;
                k = 0;
                while k < b.len()
                    invariant
                        k <= b@.len(),
                        v@ == head + b@.take(k as int),
                    decreases b@.len() - k,
                {
                    v.push(b[k]);
                    proof {
                        assert(b@.take(k + 1) =~= b@.take(k as int).push(b@[k as int]));
                    }
                    k += 1;
                }
                proof {
                    assert(a@.take(a@.len() as int) =~= a@);
                    assert(b@.take(b@.len() as int) =~= b@);
                    assert(v@ =~= a@ + seq![' ', '#'] + b@);
                }
                string_from_chars(&v)
            }
        },
    }
}

pub fn is_relevant_entry(n: &Notification, strict: bool) -> (r: bool)
    ensures
        r == is_relevant(*n, strict),
{
    let state_change = "state_change".to_owned();
    (!strict || !(n.reason == state_change)) && n.unread
}

/// The lines of the alert for a batch of notifications (see `alert_lines_of`).
pub fn alert_lines(ns: &Vec<Notification>) -> (r: Option<Vec<String>>)
    ensures
        match alert_lines_of(ns@) {
            None => r is None,
            Some(ls) => r is Some && view_lines(r->0@) == ls,
        },
        r is Some ==> r->0@.len() <= MAX_LINES + 1,
{
    summary_lines(ns, true)
}

/// The summary lines of a batch of notifications (see `lines_of`).
pub fn summary_lines(ns: &Vec<Notification>, strict: bool) -> (r: Option<Vec<String>>)
    ensures
        match lines_of(ns@, strict) {
            None => r is None,
            Some(ls) => r is Some && view_lines(r->0@) == ls,
        },
        r is Some ==> r->0@.len() <= MAX_LINES + 1,
{
    let mut lines: Vec<String> = Vec::new();
    let mut i: usize = 0;
    let mut seen_relevant = false;
    proof {
        assert(ns@.skip(0) =~= ns@);
        assert(view_lines(lines@) =~= Seq::<Seq<char>>::empty());
    }
    let mut full = false;
    // list entries until the lines are full
    while i < ns.len() && !full
        invariant
            i <= ns@.len(),
            full ==> i < ns@.len() && is_relevant(ns@[i as int], strict) && lines@.len() >= MAX_LINES,
            fill_lines(ns@, Seq::empty(), strict) == fill_lines(ns@.skip(i as int), view_lines(lines@), strict),
            !seen_relevant ==> count_relevant(ns@, strict) == count_relevant(ns@.skip(i as int), strict),
            seen_relevant ==> count_relevant(ns@, strict) > 0,
            lines@.len() <= MAX_LINES,
        decreases ns@.len() - i + if full { 0int } else { 1int },
    {
        let ghost rest = ns@.skip(i as int);
        proof {
            assert(rest.drop_first() =~= ns@.skip(i + 1));
        }
        if !is_relevant_entry(&ns[i], strict) {
            i += 1;
        } else if lines.len() >= MAX_LINES {
            full = true;
        } else {
            let ghost before = view_lines(lines@);
            let n = &ns[i];
            lines.push(url_line_of(&n.subject.url));
            let titled = match &n.subject.url {
                None => false,
                Some(u) => split_chars(&chars_of(u.as_str()), '/').len() >= 8,
            };
            if titled && lines.len() < MAX_LINES {
                lines.push(n.subject.title.clone());
            }
            proof {
                assert(view_lines(lines@) =~= add_entry(before, ns@[i as int]));
            }
            seen_relevant = true;
            i += 1;
        }
    }
    // count the relevant entries left over
    let ghost stop = i;
    let mut rest: u64 = 0;
    let mut j: usize = i;
    while j < ns.len()
        invariant
            stop <= j <= ns@.len(),
            rest <= j - stop,
            count_relevant(ns@.skip(stop as int), strict) == rest + count_relevant(ns@.skip(j as int), strict),
        decreases ns@.len() - j,
    {
        proof {
            assert(ns@.skip(j as int).drop_first() =~= ns@.skip(j + 1));
        }
        if is_relevant_entry(&ns[j], strict) {
            rest += 1;
        }
        j += 1;
    }
    proof {
        assert(ns@.skip(ns@.len() as int) =~= Seq::<Notification>::empty());
        if full {
            assert(ns@.skip(stop as int)[0] == ns@[stop as int]);
        }
        assert(fill_lines(ns@, Seq::empty(), strict) == (view_lines(lines@), rest as nat));
    }
    if !seen_relevant && rest == 0 {
        return None;
    }
    if rest != 0 {
        let mut v: Vec<char> = Vec::new();
        v.push('.');
        v.push('.');
        v.push('.');
        v.push(' ');
        let digits = decimal_chars(rest);
        let ghost head = v@;
        let mut k: usize = 0;
        while k < digits.len()
            invariant
                k <= digits@.len(),
                v@ == head + digits@.take(k as int),
            decreases digits@.len() - k,
        {
            v.push(digits[k]);
            proof {
                assert(digits@.take(k + 1) =~= digits@.take(k as int).push(digits@[k as int]));
            }
            k += 1;
        }
        v.push(' ');
        v.push('m');
        v.push('o');
        v.push('r');
        v.push('e');
        proof {
            assert(digits@.take(digits@.len() as int) =~= digits@);
            assert(v@ =~= more_line(rest as nat));
        }
        let ghost before = view_lines(lines@);
        lines.push(string_from_chars(&v));
        proof {
            assert(view_lines(lines@) =~= before.push(more_line(rest as nat)));
        }
    }
    Some(lines)
}

} // verus!

verus! {

/// Frames of the colour-wash reveal before the text pages start.
pub const REVEAL_FRAMES: u32 = 70;

/// Frames after which the alert stops reporting the screen as changed.
pub const ALERT_PAINT_FRAMES: u32 = 120;

/// Frames after which the alert has expired.
pub const ALERT_FRAMES: u32 = 140;

/// Characters that fit on one line of the alert.
pub const LINE_WIDTH: usize = 16;

/// Tries at finding a lit pixel of the icon for one reveal frame.
pub const REVEAL_TRIES: u32 = 4096;

/// `s` from position `start` on, cut to at most `LINE_WIDTH` characters.
pub open spec fn window(s: Seq<char>, start: int) -> Seq<char> {
    let tail = s.subrange(start, s.len() as int);
    if tail.len() > LINE_WIDTH { tail.take(LINE_WIDTH as int) } else { tail }
}

/// What line `row` of the alert shows at frame `calls` (70 or later): long lines scroll
/// through fifteen spaces of lead-in; in the final frame odd rows are indented by one.
pub open spec fn shown_line(line: Seq<char>, row: int, calls: int) -> Seq<char> {
    if calls >= 119 {
        if row % 2 == 0 { window(line, 0) } else { window(seq![' '] + line, 0) }
    } else if line.len() > LINE_WIDTH {
        let padded = Seq::new(15, |i: int| ' ') + line + seq![' '];
        window(padded, (calls - 70) % (padded.len() as int))
    } else {
        window(line, 0)
    }
}

/// The operations of a text frame of the alert.
pub open spec fn is_text_page(ops: Seq<crate::frame::DrawOp>, lines: Seq<Seq<char>>, calls: int) -> bool {
    &&& ops.len() == lines.len() + 1
    &&& ops[0] == crate::frame::DrawOp::Clear(crate::frame::Color565 { r: 0, g: 0, b: 0 })
    &&& forall|i: int|
        0 <= i < lines.len() ==> crate::frame::is_text(
            #[trigger] ops[i + 1],
            shown_line(lines[i], i, calls),
            0,
            12 + 14 * i,
            crate::frame::Font::Small,
            crate::frame::Color565 { r: 31, g: 63, b: 31 },
        )
}

/// The characters of `s` from `start` on, at most `LINE_WIDTH` of them.
pub fn window_chars(s: &Vec<char>, start: usize) -> (r: Vec<char>)
    requires
        start <= s@.len(),
    ensures
        r@ == window(s@, start as int),
{
    let mut out: Vec<char> = Vec::new();
    let mut k: usize = start;
    while k < s.len() && out.len() < LINE_WIDTH
        invariant
            start <= k <= s@.len(),
            out@.len() == k - start,
            out@ == s@.subrange(start as int, k as int),
            out@.len() <= LINE_WIDTH,
        decreases s@.len() - k,
    {
        out.push(s[k]);
        proof {
            assert(s@.subrange(start as int, k + 1) =~= s@.subrange(start as int, k as int).push(s@[k as int]));
        }
        k += 1;
    }
    proof {
        assert(window(s@, start as int) =~= out@);
    }
    out
}

/// What line `row` shows at frame `calls` (see `shown_line`).
pub fn shown_line_of(line: &String, row: usize, calls: u32) -> (r: String)
    requires
        calls >= REVEAL_FRAMES,
        row < 1000,
    ensures
        r@ == shown_line(line@, row as int, calls as int),
{
    let chars = chars_of(line.as_str());
    if calls >= 119 {
        if row % 2 == 0 {
            string_from_chars(&window_chars(&chars, 0))
        } else {
            let mut v: Vec<char> = vec![' '];
            let mut k: usize = 0;
            while k < chars.len()
                invariant
                    k <= chars@.len(),
                    v@ == seq![' '] + chars@.take(k as int),
                decreases chars@.len() - k,
            {
                v.push(chars[k]);
                proof {
                    assert(chars@.take(k + 1) =~= chars@.take(k as int).push(chars@[k as int]));
                }
                k += 1;
            }
            proof {
                assert(chars@.take(chars@.len() as int) =~= chars@);
            }
            string_from_chars(&window_chars(&v, 0))
        }
    } else if chars.len() > LINE_WIDTH {
        let mut v: Vec<char> = Vec::new();
        let mut k: usize = 0;
        while k < 15
            invariant
                k <= 15,
                v@ == Seq::new(k as nat, |i: int| ' '),
            decreases 15 - k,
        {
            v.push(' ');
            proof {
                assert(v@ =~= Seq::new((k + 1) as nat, |i: int| ' '));
            }
            k += 1;
        }
        let ghost lead = v@;
        k = 0;
        while k < chars.len()
            invariant
                k <= chars@.len(),
                lead.len() == 15,
                v@ == lead + chars@.take(k as int),
            decreases chars@.len() - k,
        {
            v.push(chars[k]);
            proof {
                assert(chars@.take(k + 1) =~= chars@.take(k as int).push(chars@[k as int]));
            }
            k += 1;
        }
        v.push(' ');
        proof {
            assert(chars@.take(chars@.len() as int) =~= chars@);
            assert(v@ =~= Seq::new(15, |i: int| ' ') + chars@ + seq![' ']);
        }
        let start = ((calls - REVEAL_FRAMES) as usize) % v.len();
        string_from_chars(&window_chars(&v, start))
    } else {
        string_from_chars(&window_chars(&chars, 0))
    }
}

} // verus!

verus! {

/// The multi-phase alert for new notifications: the icon washed white, then revealed
/// pixel by pixel in random hues, then the list of lines, scrolling where too long.
#[derive(Debug)]
pub struct NotificationAlert {
    pub calls: u32,
    pub lines: Vec<String>,
    pub image: crate::screensaver::SimpleScreensaver,
    /// The rings spreading from revealed pixels.
    pub circles: Vec<Circle>,
}

/// A ring of the reveal: it grows by one pixel of radius per frame from its centre,
/// spreading only over lit pixels of the icon.
#[derive(Debug)]
pub struct Circle {
    pub ox: u32,
    pub oy: u32,
    pub radius: u32,
    pub hue: u32,
    /// The pixels of its outermost ring.
    pub points: Vec<(u32, u32)>,
}

/// Radius at which a ring stops growing.
pub const RING_LIMIT: u32 = 20;

/// Radius from which a ring is dropped.
pub const RING_DROP: u32 = 10;

pub open spec fn on_screen(p: (u32, u32)) -> bool {
    p.0 < 128 && p.1 < 128
}

impl Circle {
    pub open spec fn wf(&self) -> bool {
        self.ox < 128 && self.oy < 128 && self.radius < RING_DROP && forall|i: int|
            0 <= i < self.points@.len() ==> on_screen(#[trigger] self.points@[i])
    }
}

/// Whether lit pixel (x, y) lies on the ring of radius `r` around (ox, oy).
pub open spec fn on_ring(x: int, y: int, ox: int, oy: int, r: int) -> bool {
    let dx = x - ox;
    let dy = y - oy;
    (r - 1) * (r - 1) < dx * dx + dy * dy && dx * dx + dy * dy <= r * r
}

/// Whether `p` is a lit (white) pixel of the bitmap on the ring of radius `r` around (ox, oy).
pub open spec fn is_ring_pixel(data: Seq<u8>, p: (u32, u32), ox: u32, oy: u32, r: u32) -> bool {
    &&& on_screen(p)
    &&& on_ring(p.0 as int, p.1 as int, ox as int, oy as int, r as int)
    &&& crate::screensaver::pixel_of(data, p.1 * 128 + p.0) == (crate::frame::Color565 { r: 31, g: 63, b: 31 })
}

/// Grows a ring by one pixel of radius: from its last ring, spreads step by step over
/// lit pixels not yet visited, keeping those at the new distance. Returns the new ring.
fn grow_ring(image: &crate::screensaver::SimpleScreensaver, c: &Circle, r: u32) -> (next: Vec<(u32, u32)>)
    requires
        image.wf(),
        c.ox < 128,
        c.oy < 128,
        forall|i: int| 0 <= i < c.points@.len() ==> on_screen(#[trigger] c.points@[i]),
        1 <= r <= RING_LIMIT,
    ensures
        forall|i: int|
            0 <= i < next@.len() ==> is_ring_pixel(image.data@, #[trigger] next@[i], c.ox, c.oy, r),
{
    let white = crate::frame::Color565::white();
    let mut seen: Vec<bool> = vec![false; crate::screensaver::PIXELS];
    let mut seen_count: usize = 0;
    let mut points: Vec<(u32, u32)> = Vec::new();
    let mut k: usize = 0;
    while k < c.points.len()
        invariant
            k <= c.points@.len(),
            forall|i: int| 0 <= i < c.points@.len() ==> on_screen(#[trigger] c.points@[i]),
            forall|i: int| 0 <= i < points@.len() ==> on_screen(#[trigger] points@[i]),
        decreases c.points@.len() - k,
    {
        points.push(c.points[k]);
        k += 1;
    }
    let mut next: Vec<(u32, u32)> = Vec::new();
    let mut growing = true;
    while growing
        invariant
            image.wf(),
            c.ox < 128,
            c.oy < 128,
            1 <= r <= RING_LIMIT,
            seen@.len() == crate::screensaver::PIXELS,
            seen_count <= crate::screensaver::PIXELS,
            white == (crate::frame::Color565 { r: 31, g: 63, b: 31 }),
            forall|i: int| 0 <= i < points@.len() ==> on_screen(#[trigger] points@[i]),
            forall|i: int|
                0 <= i < next@.len() ==> is_ring_pixel(image.data@, #[trigger] next@[i], c.ox, c.oy, r),
        decreases crate::screensaver::PIXELS - seen_count, if growing { 1int } else { 0int },
    {
        let ghost count_before = seen_count;
        let mut fresh: Vec<(u32, u32)> = Vec::new();
        let mut p: usize = 0;
        while p < points.len()
            invariant
                image.wf(),
                c.ox < 128,
            c.oy < 128,
                1 <= r <= RING_LIMIT,
                p <= points@.len(),
                seen@.len() == crate::screensaver::PIXELS,
                count_before <= seen_count <= crate::screensaver::PIXELS,
                fresh@.len() > 0 ==> seen_count > count_before,
                white == (crate::frame::Color565 { r: 31, g: 63, b: 31 }),
                forall|i: int| 0 <= i < points@.len() ==> on_screen(#[trigger] points@[i]),
                forall|i: int|
                    0 <= i < fresh@.len() ==> is_ring_pixel(image.data@, #[trigger] fresh@[i], c.ox, c.oy, r),
            decreases points@.len() - p,
        {
            let (x, y) = points[p];
            let mut d: usize = 0;
            while d < 4
                invariant
                    image.wf(),
                    c.ox < 128,
            c.oy < 128,
                    1 <= r <= RING_LIMIT,
                    x < 128,
                    y < 128,
                    seen@.len() == crate::screensaver::PIXELS,
                    count_before <= seen_count <= crate::screensaver::PIXELS,
                    fresh@.len() > 0 ==> seen_count > count_before,
                    white == (crate::frame::Color565 { r: 31, g: 63, b: 31 }),
                    forall|i: int|
                        0 <= i < fresh@.len() ==> is_ring_pixel(image.data@, #[trigger] fresh@[i], c.ox, c.oy, r),
                decreases 4 - d,
            {
                // left, up, right, down
                let ok = match d {
                    0 => x > 0,
                    1 => y > 0,
                    2 => x < 127,
                    _ => y < 127,
                };
                if ok {
                    let nx = match d {
                        0 => x - 1,
                        2 => x + 1,
                        _ => x,
                    };
                    let ny = match d {
                        1 => y - 1,
                        3 => y + 1,
                        _ => y,
                    };
                    let idx = (ny as usize) * 128 + nx as usize;
                    if !seen[idx] && image.get_pixel(nx, ny) == white && seen_count < crate::screensaver::PIXELS {
                        seen.set(idx, true);
                        seen_count += 1;
                        let dx = if nx >= c.ox { nx - c.ox } else { c.ox - nx };
                        let dy = if ny >= c.oy { ny - c.oy } else { c.oy - ny };
                        assert(dx * dx <= 16129 && dy * dy <= 16129) by (nonlinear_arith)
                            requires
                                dx <= 127,
                                dy <= 127,
                        ;
                        let dist2 = dx * dx + dy * dy;
                        assert((r - 1) * (r - 1) <= 400 && r * r <= 400) by (nonlinear_arith)
                            requires
                                1 <= r <= 20,
                        ;
                        if (r - 1) * (r - 1) < dist2 && dist2 <= r * r {
                            proof {
                                let ix = nx as int - c.ox as int;
                                let iy = ny as int - c.oy as int;
                                assert(dx * dx == ix * ix) by (nonlinear_arith)
                                    requires
                                        dx as int == ix || dx as int == -ix,
                                ;
                                assert(dy * dy == iy * iy) by (nonlinear_arith)
                                    requires
                                        dy as int == iy || dy as int == -iy,
                                ;
                            }
                            fresh.push((nx, ny));
                        }
                    }
                }
                d += 1;
            }
            p += 1;
        }
        if fresh.len() == 0 {
            growing = false;
        } else {
            let mut q: usize = 0;
            while q < fresh.len()
                invariant
                    q <= fresh@.len(),
                    forall|i: int|
                        0 <= i < fresh@.len() ==> is_ring_pixel(image.data@, #[trigger] fresh@[i], c.ox, c.oy, r),
                    forall|i: int|
                        0 <= i < next@.len() ==> is_ring_pixel(image.data@, #[trigger] next@[i], c.ox, c.oy, r),
                decreases fresh@.len() - q,
            {
                next.push(fresh[q]);
                q += 1;
            }
            points = fresh;
        }
    }
    next
}

impl NotificationAlert {
    pub open spec fn wf(&self) -> bool {
        &&& self.image.wf()
        &&& self.lines@.len() < 1000
        &&& forall|i: int| 0 <= i < self.circles@.len() ==> (#[trigger] self.circles@[i]).wf()
    }

    pub open spec fn spec_expired(&self) -> bool {
        self.calls > ALERT_FRAMES
    }

    /// Grows every ring by one, painting its new pixels in its hue, drops the rings that
    /// reached radius 10, and starts a ring at (x, y) in `hue`.
    fn spread(&mut self, x: u32, y: u32, hue: u32, ops: &mut Vec<crate::frame::DrawOp>)
        requires
            old(self).wf(),
            x < 128,
            y < 128,
        ensures
            final(self).wf(),
            final(self).calls == old(self).calls,
            final(self).lines == old(self).lines,
            final(self).image == old(self).image,
            final(ops)@.len() >= old(ops)@.len(),
            final(ops)@.take(old(ops)@.len() as int) == old(ops)@,
            forall|j: int| old(ops)@.len() <= j < final(ops)@.len() ==> #[trigger] final(ops)@[j] is HuePixel,
    {
        let mut old_circles: Vec<Circle> = Vec::new();
        std::mem::swap(&mut old_circles, &mut self.circles);
        let mut kept: Vec<Circle> = Vec::new();
        let ghost start = ops@;
        while old_circles.len() > 0
            invariant
                self.image.wf(),
                self.circles@.len() == 0,
                forall|i: int| 0 <= i < old_circles@.len() ==> (#[trigger] old_circles@[i]).wf(),
                forall|i: int| 0 <= i < kept@.len() ==> (#[trigger] kept@[i]).wf(),
                ops@.len() >= start.len(),
                ops@.take(start.len() as int) == start,
                forall|j: int| start.len() <= j < ops@.len() ==> #[trigger] ops@[j] is HuePixel,
            decreases old_circles@.len(),
        {
            let mut c = old_circles.remove(0);
            c.radius = c.radius + 1;
            if c.radius < RING_LIMIT {
                let next = grow_ring(&self.image, &c, c.radius);
                let mut q: usize = 0;
                while q < next.len()
                    invariant
                        q <= next@.len(),
                        ops@.len() >= start.len(),
                        ops@.take(start.len() as int) == start,
                        forall|j: int| start.len() <= j < ops@.len() ==> #[trigger] ops@[j] is HuePixel,
                forall|j: int| start.len() <= j < ops@.len() ==> #[trigger] ops@[j] is HuePixel,
                    decreases next@.len() - q,
                {
                    let (px, py) = next[q];
                    ops.push(crate::frame::DrawOp::HuePixel { x: px as i32, y: py as i32, hue: c.hue });
                    assert(ops@.take(start.len() as int) =~= start);
                    q += 1;
                }
                c.points = next;
            }
            if c.radius < RING_DROP {
                kept.push(c);
            }
        }
        let mut first: Vec<(u32, u32)> = Vec::new();
        first.push((x, y));
        kept.push(Circle { ox: x, oy: y, radius: 0, hue, points: first });
        self.circles = kept;
    }

    pub fn new(lines: Vec<String>, image: crate::screensaver::SimpleScreensaver) -> (r: Self)
        requires
            image.wf(),
            lines@.len() < 1000,
        ensures
            r.wf(),
            r.calls == 0,
            r.lines == lines,
            r.image == image,
    {
        NotificationAlert { calls: 0, lines, image, circles: Vec::new() }
    }

    pub fn expired(&self) -> (r: bool)
        ensures
            r == self.spec_expired(),
    {
        self.calls > ALERT_FRAMES
    }

    /// Draws one frame of the alert and counts it; reports the screen as changed for the
    /// first 120 frames.
    pub fn draw(
        &mut self,
        rng: &mut rand_xoshiro::Xoroshiro128StarStar,
        ops: &mut Vec<crate::frame::DrawOp>,
    ) -> (r: bool)
        requires
            old(self).wf(),
        ensures
            final(self).wf(),
            final(self).lines == old(self).lines,
            final(self).image == old(self).image,
            final(self).calls == if old(self).calls < u32::MAX { old(self).calls + 1 } else { old(self).calls as int },
            r == (old(self).calls < ALERT_PAINT_FRAMES),
            old(self).calls == 0 ==> final(ops)@.len() > old(ops)@.len() && final(ops)@[old(ops)@.len() as int] is Image
                && final(ops)@[old(ops)@.len() as int]->Image_0@ == crate::screensaver::wash_of(
                old(self).image.data@,
                crate::frame::Color565 { r: 31, g: 63, b: 31 },
            ),
            old(self).calls < REVEAL_FRAMES ==> final(ops)@.take(old(ops)@.len() as int) == old(ops)@ && forall|j: int|
                old(ops)@.len() + (if old(self).calls == 0 { 1int } else { 0int }) <= j < final(ops)@.len()
                    ==> #[trigger] final(ops)@[j] is HuePixel,
            old(self).calls >= REVEAL_FRAMES ==> exists|added: Seq<crate::frame::DrawOp>|
                final(ops)@ == old(ops)@ + added && is_text_page(added, view_lines(old(self).lines@), old(self).calls as int),
    {
        let calls = self.calls;
        let ghost start = ops@;
        if calls == 0 {
            let wash = self.image.draw_all_colored(crate::frame::Color565::white());
            ops.push(crate::frame::DrawOp::Image(wash));
        }
        if calls < REVEAL_FRAMES {
            let hue = crate::rng::next_u32(rng) % 360;
            let mut tries: u32 = 0;
            let white = crate::frame::Color565::white();
            while tries < REVEAL_TRIES
                invariant
                    self.wf(),
                    self.lines == old(self).lines,
                    self.image == old(self).image,
                    self.calls == old(self).calls,
                    calls == self.calls,
                    calls < REVEAL_FRAMES,
                    ops@.len() >= start.len(),
                    start == old(ops)@,
                    ops@.take(start.len() as int) == start,
                    calls == 0 ==> ops@.len() > start.len() && ops@[start.len() as int] is Image
                        && ops@[start.len() as int]->Image_0@ == crate::screensaver::wash_of(
                        self.image.data@,
                        crate::frame::Color565 { r: 31, g: 63, b: 31 },
                    ),
                    forall|j: int|
                        start.len() + (if calls == 0 { 1int } else { 0int }) <= j < ops@.len() ==> #[trigger] ops@[j] is HuePixel,
                    white == (crate::frame::Color565 { r: 31, g: 63, b: 31 }),
                decreases REVEAL_TRIES - tries,
            {
                let x = crate::rng::next_u32(rng) % 128;
                let y = crate::rng::next_u32(rng) % 128;
                if self.image.get_pixel(x, y) == white {
                    let ghost prev = ops@;
                    ops.push(crate::frame::DrawOp::HuePixel { x: x as i32, y: y as i32, hue });
                    let ghost before = ops@;
                    self.spread(x, y, hue, ops);
                    proof {
                        assert(ops@.take(before.len() as int)[start.len() as int] == ops@[start.len() as int]);
                        assert forall|j: int| 0 <= j < before.len() implies ops@[j] == before[j] by {
                            assert(ops@.take(before.len() as int)[j] == ops@[j]);
                        }
                        assert forall|j: int| 0 <= j < prev.len() implies before[j] == prev[j] by {}
                        assert(ops@.take(start.len() as int) =~= start);
                        assert forall|j: int|
                            start.len() + (if calls == 0 { 1int } else { 0int }) <= j < ops@.len() implies #[trigger] ops@[j] is HuePixel by {
                            if j < before.len() {
                                assert(ops@[j] == before[j]);
                                if j < prev.len() {
                                    assert(before[j] == prev[j]);
                                }
                            }
                        }
                    }
                    tries = REVEAL_TRIES;
                } else {
                    tries += 1;
                }
            }
        } else {
            ops.push(crate::frame::DrawOp::Clear(crate::frame::Color565::black()));
            let mut row: usize = 0;
            while row < self.lines.len()
                invariant
                    self.wf(),
                    calls >= REVEAL_FRAMES,
                    row <= self.lines@.len(),
                    ops@.len() == start.len() + 1 + row,
                    ops@.subrange(0, start.len() as int) == start,
                    ops@[start.len() as int] == crate::frame::DrawOp::Clear(crate::frame::Color565 { r: 0, g: 0, b: 0 }),
                    forall|i: int|
                        0 <= i < row ==> crate::frame::is_text(
                            #[trigger] ops@[start.len() + 1 + i],
                            shown_line(self.lines@[i]@, i, calls as int),
                            0,
                            12 + 14 * i,
                            crate::frame::Font::Small,
                            crate::frame::Color565 { r: 31, g: 63, b: 31 },
                        ),
                decreases self.lines@.len() - row,
            {
                let text = shown_line_of(&self.lines[row], row, calls);
                ops.push(crate::frame::DrawOp::Text {
                    text,
                    x: 0,
                    y: 12 + 14 * row as i32,
                    font: crate::frame::Font::Small,
                    color: crate::frame::Color565::white(),
                });
                proof {
                    assert(ops@.subrange(0, start.len() as int) =~= start);
                }
                row += 1;
            }
            proof {
                let added = ops@.subrange(start.len() as int, ops@.len() as int);
                assert(ops@ =~= start + added);
                let ls = view_lines(self.lines@);
                assert forall|i: int| 0 <= i < ls.len() implies crate::frame::is_text(
                    #[trigger] added[i + 1],
                    shown_line(ls[i], i, calls as int),
                    0,
                    12 + 14 * i,
                    crate::frame::Font::Small,
                    crate::frame::Color565 { r: 31, g: 63, b: 31 },
                ) by {
                    assert(added[i + 1] == ops@[start.len() + 1 + i]);
                }
                assert(is_text_page(added, ls, calls as int));
            }
        }
        if self.calls < u32::MAX {
            self.calls = self.calls + 1;
        }
        calls < ALERT_PAINT_FRAMES
    }
}

} // verus!
