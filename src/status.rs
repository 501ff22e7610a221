use vstd::prelude::*;
use crate::frame::{Color565, DrawOp};
use crate::text::{chars_of, push_all, string_from_chars};

verus! {

/// Seconds within which the latest sensor reading counts as recent.
pub const RECENT_SECS: i64 = 720;

/// Bytes per hour of one megabit per second.
pub const MBIT_HOUR_BYTES: u64 = 450_000_000;

/// The health of one watched service, as shown by a coloured square.
#[derive(Clone, Copy, Debug, PartialEq, Eq, Structural)]
pub enum Status {
    Unknown,
    Down,
    Bad,
    Good,
}

pub open spec fn status_color(s: Status) -> Color565 {
    match s {
        Status::Unknown => Color565 { r: 12, g: 25, b: 12 },
        Status::Down => Color565 { r: 31, g: 63, b: 0 },
        Status::Bad => Color565 { r: 31, g: 0, b: 0 },
        Status::Good => Color565 { r: 0, g: 42, b: 0 },
    }
}

impl Status {
    /// Grey, yellow, red or green.
    pub fn color(&self) -> (c: Color565)
        ensures
            c == status_color(*self),
    {
        match self {
            Status::Unknown => Color565 { r: 12, g: 25, b: 12 },
            Status::Down => Color565 { r: 31, g: 63, b: 0 },
            Status::Bad => Color565 { r: 31, g: 0, b: 0 },
            Status::Good => Color565 { r: 0, g: 42, b: 0 },
        }
    }
}

/// Whether a sensor reading taken at `last` is recent at `now` (seconds since the epoch).
pub fn reading_recent(now: i64, last: i64) -> (r: bool)
    ensures
        r == (now - last <= RECENT_SECS),
{
    (now as i128) - (last as i128) <= RECENT_SECS as i128
}

/// Whether the router sent enough in the last hour: more than five megabits per second
/// on average.
pub fn traffic_good(tx_bytes: u64) -> (r: bool)
    ensures
        r == (tx_bytes / MBIT_HOUR_BYTES > 5),
{
    tx_bytes / MBIT_HOUR_BYTES > 5
}

/// Whether a sync service answered without error.
pub fn sync_good(http_status: u16) -> (r: bool)
    ensures
        r == (http_status < 400),
{
    http_status < 400
}

/// The three squares from five checks: recent reading; router up, and busy; sync host
/// up, and serving. Without checks all three are unknown.
pub open spec fn statuses_of(flags: Option<Seq<bool>>) -> Seq<Status> {
    match flags {
        Some(f) => if f.len() >= 5 {
            seq![
                if f[0] { Status::Good } else { Status::Bad },
                if f[1] && f[2] { Status::Good } else if f[1] { Status::Down } else { Status::Bad },
                if f[3] && f[4] { Status::Good } else if f[3] { Status::Down } else { Status::Bad },
            ]
        } else {
            seq![Status::Unknown, Status::Unknown, Status::Unknown]
        },
        None => seq![Status::Unknown, Status::Unknown, Status::Unknown],
    }
}

fn pair(up: bool, good: bool) -> (s: Status)
    ensures
        s == if up && good { Status::Good } else if up { Status::Down } else { Status::Bad },
{
    if up && good {
        Status::Good
    } else if up {
        Status::Down
    } else {
        Status::Bad
    }
}

/// The three squares (see `statuses_of`).
pub fn statuses(flags: Option<Vec<bool>>) -> (r: Vec<Status>)
    ensures
        r@ == statuses_of(match flags { Some(f) => Some(f@), None => None }),
{
    let mut v: Vec<Status> = Vec::new();
    match flags {
        Some(f) => {
            if f.len() >= 5 {
                v.push(if f[0] { Status::Good } else { Status::Bad });
                v.push(pair(f[1], f[2]));
                v.push(pair(f[3], f[4]));
            } else {
                v.push(Status::Unknown);
                v.push(Status::Unknown);
                v.push(Status::Unknown);
            }
        },
        None => {
            v.push(Status::Unknown);
            v.push(Status::Unknown);
            v.push(Status::Unknown);
        },
    }
    assert(v@ =~= statuses_of(match flags { Some(f) => Some(f@), None => None }));
    v
}

/// The squares in the bottom right corner, the first status leftmost.
pub fn status_squares(st: &Vec<Status>, ops: &mut Vec<DrawOp>)
    requires
        st@.len() == 3,
    ensures
        final(ops)@ == old(ops)@ + seq![
            DrawOp::Rect { x: 125, y: 125, w: 3, h: 3, color: status_color(st@[2]) },
            DrawOp::Rect { x: 121, y: 125, w: 3, h: 3, color: status_color(st@[1]) },
            DrawOp::Rect { x: 117, y: 125, w: 3, h: 3, color: status_color(st@[0]) },
        ],
{
    ops.push(DrawOp::Rect { x: 125, y: 125, w: 3, h: 3, color: st[2].color() });
    ops.push(DrawOp::Rect { x: 121, y: 125, w: 3, h: 3, color: st[1].color() });
    ops.push(DrawOp::Rect { x: 117, y: 125, w: 3, h: 3, color: st[0].color() });
    assert(ops@ =~= old(ops)@ + seq![
        DrawOp::Rect { x: 125, y: 125, w: 3, h: 3, color: status_color(st@[2]) },
        DrawOp::Rect { x: 121, y: 125, w: 3, h: 3, color: status_color(st@[1]) },
        DrawOp::Rect { x: 117, y: 125, w: 3, h: 3, color: status_color(st@[0]) },
    ]);
}

pub open spec fn bool_text(b: bool) -> Seq<char> {
    if b { "true"@ } else { "false"@ }
}

/// The checks as the status file holds them: words "true" or "false", one space apart.
pub open spec fn status_text(f: Seq<bool>) -> Seq<char>
    decreases f.len(),
{
    if f.len() == 0 {
        Seq::empty()
    } else if f.len() == 1 {
        bool_text(f[0])
    } else {
        status_text(f.drop_last()) + seq![' '] + bool_text(f.last())
    }
}

/// The status file's text for some checks (see `status_text`).
pub fn status_string(f: &Vec<bool>) -> (r: String)
    ensures
        r@ == status_text(f@),
{
    let mut v: Vec<char> = Vec::new();
    let mut i: usize = 0;
    while i < f.len()
        invariant
            i <= f@.len(),
            v@ == status_text(f@.take(i as int)),
        decreases f@.len() - i,
    {
        if i > 0 {
            v.push(' ');
        }
        let word = if f[i] { chars_of("true") } else { chars_of("false") };
        push_all(&mut v, &word);
        proof {
            assert(f@.take(i + 1).drop_last() =~= f@.take(i as int));
            if i == 0 {
                assert(v@ =~= bool_text(f@[0]));
            }
        }
        i += 1;
    }
    proof {
        assert(f@.take(f@.len() as int) =~= f@);
    }
    string_from_chars(&v)
}

/// Whether `w` (a word of the status file) reads "true"; `None` when it reads neither.
pub fn parse_bool(w: &Vec<char>) -> (r: Option<bool>)
    ensures
        r == if w@ == "true"@ { Some(true) } else if w@ == "false"@ { Some(false) } else { None },
{
    let t = chars_of("true");
    let f = chars_of("false");
    if chars_eq(w, &t) {
        Some(true)
    } else if chars_eq(w, &f) {
        Some(false)
    } else {
        None
    }
}

fn chars_eq(a: &Vec<char>, b: &Vec<char>) -> (r: bool)
    ensures
        r == (a@ == b@),
{
    if a.len() != b.len() {
        return false;
    }
    let mut i: usize = 0;
    while i < a.len()
        invariant
            a@.len() == b@.len(),
            i <= a@.len(),
            forall|k: int| 0 <= k < i ==> a@[k] == b@[k],
        decreases a@.len() - i,
    {
        if a[i] != b[i] {
            return false;
        }
        i += 1;
    }
    assert(a@ =~= b@);
    true
}

/// Reads the status file's text back into checks, one per space-separated word; `None`
/// when a word is neither "true" nor "false".
pub fn parse_status(text: &str) -> (r: Option<Vec<bool>>)
    ensures
        ({
            let words = crate::notify::split_on(text@, ' ');
            &&& r is None <==> exists|k: int| 0 <= k < words.len() && words[k] != "true"@ && words[k] != "false"@
            &&& r is Some ==> r->0@.len() == words.len() && forall|k: int|
                0 <= k < words.len() ==> bool_text(#[trigger] r->0@[k]) == words[k]
        }),
{
    let chars = chars_of(text);
    let parts = crate::notify::split_chars(&chars, ' ');
    let ghost words = crate::notify::split_on(text@, ' ');
    let mut out: Vec<bool> = Vec::new();
    let mut i: usize = 0;
    while i < parts.len()
        invariant
            chars@ == text@,
            words == crate::notify::split_on(text@, ' '),
            parts@.len() == words.len(),
            forall|k: int| 0 <= k < parts@.len() ==> #[trigger] parts@[k]@ == words[k],
            i <= parts@.len(),
            out@.len() == i,
            forall|k: int| 0 <= k < i ==> bool_text(#[trigger] out@[k]) == words[k],
            forall|k: int| 0 <= k < i ==> words[k] == "true"@ || words[k] == "false"@,
        decreases parts@.len() - i,
    {
        match parse_bool(&parts[i]) {
            Some(b) => {
                out.push(b);
            },
            None => {
                assert(words[i as int] != "true"@ && words[i as int] != "false"@);
                return None;
            },
        }
        i += 1;
    }
    Some(out)
}

} // verus!
