use vstd::prelude::*;
use crate::frame::{Color565, DrawOp, Font, is_text};
use crate::text::{chars_of, decimal, decimal_chars, string_from_chars, two_digits};
use crate::ui::{picker_name, Ui};

verus! {

/// Milliseconds after which the player is asked for its state again.
pub const REFRESH_MS: u64 = 11000;

/// Milliseconds per scrolling step of long titles.
pub const SCROLL_MS: u64 = 200;

/// What the media player reports about the track it plays.
#[derive(Debug)]
pub struct TrackInfo {
    pub artist: Option<String>,
    pub title: Option<String>,
    pub art_url: Option<String>,
    /// Length in microseconds.
    pub length_us: Option<u64>,
}

/// A cover thumbnail, decoded by the caller: its pixels row by row, `width` to a row.
#[derive(Debug)]
pub struct Thumbnail {
    pub width: u32,
    pub pixels: Vec<Color565>,
}

pub open spec fn same_opt(a: Option<String>, b: Option<String>) -> bool {
    match (a, b) {
        (None, None) => true,
        (Some(x), Some(y)) => x@ == y@,
        _ => false,
    }
}

pub open spec fn same_track(a: Option<TrackInfo>, b: Option<TrackInfo>) -> bool {
    match (a, b) {
        (None, None) => true,
        (Some(x), Some(y)) => same_opt(x.artist, y.artist) && same_opt(x.title, y.title) && same_opt(x.art_url, y.art_url)
            && x.length_us == y.length_us,
        _ => false,
    }
}

fn opt_eq(a: &Option<String>, b: &Option<String>) -> (r: bool)
    ensures
        r == same_opt(*a, *b),
{
    match (a, b) {
        (None, None) => true,
        (Some(x), Some(y)) => *x == *y,
        _ => false,
    }
}

fn track_eq(a: &Option<TrackInfo>, b: &Option<TrackInfo>) -> (r: bool)
    ensures
        r == same_track(*a, *b),
{
    match (a, b) {
        (None, None) => true,
        (Some(x), Some(y)) => opt_eq(&x.artist, &y.artist) && opt_eq(&x.title, &y.title) && opt_eq(&x.art_url, &y.art_url)
            && x.length_us == y.length_us,
        _ => false,
    }
}

/// A duration in microseconds as "<minutes>:<seconds, two digits>".
pub open spec fn clock_text(us: u64) -> Seq<char> {
    let secs = us / 1_000_000;
    decimal((secs / 60) as nat) + seq![':'] + two_digits((secs % 60) as nat)
}

pub fn clock_string(us: u64) -> (r: Vec<char>)
    ensures
        r@ == clock_text(us),
{
    let secs = us / 1_000_000;
    let mut v = decimal_chars(secs / 60);
    v.push(':');
    v.push(crate::text::digit((secs % 60) / 10 % 10));
    v.push(crate::text::digit(secs % 60 % 10));
    proof {
        assert(v@ =~= clock_text(us));
    }
    v
}

/// The status screen of the media player: cover, artist and title (scrolling when long),
/// position and length.
#[derive(Debug)]
pub struct MpvStatus {
    /// The cover shown last, by URL.
    pub prev_art: Option<String>,
    /// When the player was last asked, in milliseconds of the caller's clock.
    pub fetched_ms: Option<u64>,
    pub track: Option<TrackInfo>,
    /// Position in microseconds.
    pub position_us: Option<u64>,
    pub start_ms: u64,
    pub metadata_changed: bool,
    pub position_changed: bool,
}

impl MpvStatus {
    pub fn new(now_ms: u64) -> (r: Self)
        ensures
            r.fetched_ms is None,
            r.track is None,
            r.prev_art is None,
            r.start_ms == now_ms,
    {
        MpvStatus {
            prev_art: None,
            fetched_ms: None,
            track: None,
            position_us: None,
            start_ms: now_ms,
            metadata_changed: false,
            position_changed: false,
        }
    }

    /// Asks for the player's state at the next frame.
    pub fn re_request(&mut self)
        ensures
            final(self).fetched_ms is None,
            final(self).track == old(self).track,
    {
        self.fetched_ms = None;
    }

    /// Whether a track is playing.
    pub fn active(&self) -> (r: bool)
        ensures
            r == self.track is Some,
    {
        self.track.is_some()
    }

    /// Whether the player should be asked for its state at `now_ms`: never asked yet, or
    /// more than ten seconds ago.
    pub fn refresh_due(&self, now_ms: u64) -> (r: bool)
        ensures
            r == match self.fetched_ms {
                None => true,
                Some(t) => now_ms >= t && now_ms - t >= REFRESH_MS,
            },
    {
        match self.fetched_ms {
            None => true,
            Some(t) => now_ms >= t && now_ms - t >= REFRESH_MS,
        }
    }

    /// Records what the player reported at `now_ms` (`None`: nothing playing or no answer).
    pub fn update(&mut self, now_ms: u64, track: Option<TrackInfo>, position_us: Option<u64>)
        ensures
            final(self).fetched_ms == Some(now_ms),
            final(self).metadata_changed == !same_track(old(self).track, track),
            final(self).position_changed == (old(self).position_us != position_us),
            final(self).track == track,
            final(self).position_us == position_us,
            final(self).prev_art == old(self).prev_art,
            final(self).start_ms == old(self).start_ms,
    {
        self.fetched_ms = Some(now_ms);
        self.metadata_changed = !track_eq(&self.track, &track);
        self.position_changed = self.position_us != position_us;
        self.track = track;
        self.position_us = position_us;
    }

    /// The cover URL to decode for the next frame, if the cover changed.
    pub fn art_to_load(&self) -> (r: Option<String>)
        ensures
            match self.track {
                Some(t) => match t.art_url {
                    Some(u) => if same_opt(self.prev_art, Some(u)) { r is None } else { r is Some && r->0@ == u@ },
                    None => r is None,
                },
                None => r is None,
            },
    {
        match &self.track {
            Some(t) => match &t.art_url {
                Some(u) => {
                    if opt_eq(&self.prev_art, &t.art_url) {
                        None
                    } else {
                        Some(u.clone())
                    }
                },
                None => None,
            },
            None => None,
        }
    }

    /// Draws the status of the playing track, if any; `thumb` is the decoded cover when
    /// `art_to_load` asked for one. Returns whether the display changed.
    pub fn draw(&mut self, now_ms: u64, thumb: Option<Thumbnail>, ops: &mut Vec<DrawOp>) -> (r: bool)
        ensures
            final(self).track == old(self).track,
            final(self).position_us == old(self).position_us,
            old(self).track is None ==> !r && final(ops)@ == old(ops)@ && final(self).prev_art == old(self).prev_art,
            old(self).track is Some ==> match old(self).track->0.art_url {
                Some(u) => final(self).prev_art is Some && final(self).prev_art->0@ == u@,
                None => final(self).prev_art is None,
            },
            final(ops)@.len() >= old(ops)@.len(),
    {
        let track = match &self.track {
            None => {
                return false;
            },
            Some(t) => t,
        };
        let black = Color565::black();
        let mut dirty = false;
        match &track.art_url {
            Some(u) => {
                if !opt_eq(&self.prev_art, &track.art_url) {
                    self.prev_art = Some(u.clone());
                    if let Some(t) = thumb {
                        if t.width > 0 && t.width <= 128 && t.pixels.len() <= 16384 && t.pixels.len() % (t.width as usize) == 0 {
                            let h = (t.pixels.len() / (t.width as usize)) as u32;
                            if h <= 128 {
                                ops.push(DrawOp::Block { x: 4, y: ((128 - h) / 2) as i32, w: t.width, pixels: t.pixels });
                                dirty = true;
                            }
                        }
                    }
                } else {
                    proof {
                        assert(self.prev_art is Some && self.prev_art->0@ == u@);
                    }
                }
            },
            None => {
                if self.prev_art.is_some() {
                    self.prev_art = None;
                    ops.push(DrawOp::Rect { x: 4, y: 64, w: 64, h: 64, color: black });
                    dirty = true;
                }
            },
        }
        ops.push(DrawOp::Rect { x: 4, y: 5, w: 124, h: 20, color: black });
        ops.push(DrawOp::Rect { x: 4, y: 101, w: 124, h: 20, color: black });
        let iters: u32 = if now_ms >= self.start_ms {
            let steps = (now_ms - self.start_ms) / SCROLL_MS;
            if steps > 0xffff_ffff { 0xffff_ffff } else { steps as u32 }
        } else {
            0
        };
        let changed = self.metadata_changed;
        match (&track.artist, &track.title) {
            (Some(a), title) => {
                dirty = scroll_line(a, 20, iters, changed, ops) || dirty;
                if let Some(t) = title {
                    dirty = scroll_line(t, 116, iters, changed, ops) || dirty;
                }
            },
            (None, Some(t)) => {
                let chars = chars_of(t.as_str());
                let mut k: usize = 0;
                let mut found = false;
                while chars.len() >= 3 && k <= chars.len() - 3 && !found
                    invariant
                        k <= chars@.len(),
                        found ==> k + 3 <= chars@.len(),
                    decreases chars@.len() - k + if found { 0int } else { 1int },
                {
                    if chars[k] == ' ' && chars[k + 1] == '-' && chars[k + 2] == ' ' {
                        found = true;
                    } else {
                        k += 1;
                    }
                }
                if found {
                    let artist = string_from_chars(&crate::text::sub_chars(&chars, 0, k));
                    let song = string_from_chars(&crate::text::sub_chars(&chars, k + 3, chars.len()));
                    dirty = scroll_line(&artist, 20, iters, changed, ops) || dirty;
                    dirty = scroll_line(&song, 116, iters, changed, ops) || dirty;
                } else {
                    dirty = scroll_line(t, 116, iters, changed, ops) || dirty;
                }
            },
            (None, None) => {},
        }
        if let Some(p) = self.position_us {
            ops.push(DrawOp::Rect { x: 68, y: 29, w: 60, h: 20, color: black });
            let text = clock_string(p);
            if text.len() < 100 {
                let width: i32 = 10 * (text.len() as i32);
                ops.push(DrawOp::Text { text: string_from_chars(&text), x: 124 - width, y: 44, font: Font::Large, color: Color565::white() });
            }
            dirty = dirty || self.position_changed || changed;
        }
        if let Some(len) = track.length_us {
            ops.push(DrawOp::Rect { x: 68, y: 49, w: 60, h: 20, color: black });
            let text = clock_string(len);
            if text.len() < 100 {
                let width: i32 = 10 * (text.len() as i32);
                ops.push(DrawOp::Text { text: string_from_chars(&text), x: 124 - width, y: 64, font: Font::Large, color: Color565::white() });
            }
        }
        dirty
    }
}

/// Whether `op` draws the line `s` of the status screen at height `y` after `iters`
/// scrolling steps: centred when it fits, else a scrolling window.
pub open spec fn is_status_line(op: DrawOp, s: Seq<char>, y: int, iters: int) -> bool {
    if s.len() <= 12 {
        is_text(op, s, 4 + (120 - 10 * s.len()) / 2, y, Font::Large, Color565 { r: 31, g: 63, b: 31 })
    } else {
        is_text(op, picker_name(s, iters), 4, y, Font::Large, Color565 { r: 31, g: 63, b: 31 })
    }
}

/// Draws one line of the status screen; returns whether it changed the display: a long
/// line always does (it scrolls), a short one when the track changed.
fn scroll_line(s: &String, y: i32, iters: u32, changed: bool, ops: &mut Vec<DrawOp>) -> (r: bool)
    ensures
        final(ops)@.len() == old(ops)@.len() + 1,
        final(ops)@.drop_last() == old(ops)@,
        is_status_line(final(ops)@.last(), s@, y as int, iters as int),
        r == (s@.len() > 12 || changed),
{
    let chars = chars_of(s.as_str());
    let white = Color565::white();
    if chars.len() <= 12 {
        let pad = (120 - 10 * chars.len()) / 2;
        ops.push(DrawOp::Text { text: string_from_chars(&chars), x: 4 + pad as i32, y, font: Font::Large, color: white });
        changed
    } else {
        ops.push(DrawOp::Text { text: Ui::picker_name_of(s, iters), x: 4, y, font: Font::Large, color: white });
        true
    }
}

} // verus!
