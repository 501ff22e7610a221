use vstd::prelude::*;
use crate::clock::WallClock;
use crate::frame::{Color565, DrawOp, Font, is_text};
use crate::screensaver::SimpleScreensaver;
use crate::text::{two_digit_string, two_digits};

verus! {

/// The colour of the clock face during the given hour.
pub open spec fn hour_color(hour: int) -> Color565 {
    if hour == 0 {
        Color565 { r: 15, g: 0, b: 0 }
    } else if hour == 1 {
        Color565 { r: 15, g: 31, b: 0 }
    } else if hour == 2 {
        Color565 { r: 0, g: 31, b: 0 }
    } else if hour == 3 {
        Color565 { r: 0, g: 31, b: 15 }
    } else if hour == 4 {
        Color565 { r: 0, g: 0, b: 15 }
    } else if hour == 5 {
        Color565 { r: 15, g: 0, b: 15 }
    } else if hour == 6 {
        Color565 { r: 7, g: 15, b: 15 }
    } else if hour == 7 {
        Color565 { r: 15, g: 15, b: 7 }
    } else if hour == 8 {
        Color565 { r: 7, g: 31, b: 7 }
    } else {
        Color565 { r: 15, g: 31, b: 15 }
    }
}

/// Horizontal shift of the clock face: one of three columns by hour.
pub open spec fn clock_dx(hour: int) -> int {
    (hour % 3 - 1) * 40 - 2
}

/// Vertical shift of the clock face: it creeps down as the hour passes.
pub open spec fn clock_dy(minute: int) -> int {
    (minute * 5 / 3) % 100
}

/// The four operations that draw the clock face for `now`.
pub open spec fn is_clock_face(ops: Seq<DrawOp>, now: WallClock) -> bool {
    let color = hour_color(now.hour as int);
    let dx = clock_dx(now.hour as int);
    let dy = clock_dy(now.minute as int);
    &&& ops.len() == 4
    &&& ops[0] == DrawOp::Clear(Color565 { r: 0, g: 0, b: 0 })
    &&& is_text(ops[1], two_digits(now.hour as nat), 44 + dx, 20 + dy, Font::Large, color)
    &&& is_text(ops[2], seq![':'], 61 + dx, 18 + dy, Font::Large, color)
    &&& is_text(ops[3], two_digits(now.minute as nat), 69 + dx, 20 + dy, Font::Large, color)
}

/// `ops` is `old` followed by `added`.
pub open spec fn appended(old: Seq<DrawOp>, ops: Seq<DrawOp>, added: Seq<DrawOp>) -> bool {
    ops == old + added
}

pub fn hour_color_of(hour: u8) -> (c: Color565)
    ensures
        c == hour_color(hour as int),
{
    match hour {
        0 => Color565 { r: 15, g: 0, b: 0 },
        1 => Color565 { r: 15, g: 31, b: 0 },
        2 => Color565 { r: 0, g: 31, b: 0 },
        3 => Color565 { r: 0, g: 31, b: 15 },
        4 => Color565 { r: 0, g: 0, b: 15 },
        5 => Color565 { r: 15, g: 0, b: 15 },
        6 => Color565 { r: 7, g: 15, b: 15 },
        7 => Color565 { r: 15, g: 15, b: 7 },
        8 => Color565 { r: 7, g: 31, b: 7 },
        _ => Color565 { r: 15, g: 31, b: 15 },
    }
}

/// The root clock: redraws itself once per minute.
#[derive(Debug)]
pub struct TimeDisplay {
    pub last_min: u8,
}

impl TimeDisplay {
    /// A clock that has not drawn any minute yet, so its first draw always repaints.
    pub fn new() -> (r: Self)
        ensures
            r.last_min == 60,
    {
        TimeDisplay { last_min: 60 }
    }

    /// Repaints the clock face iff the minute of `now` differs from the one last drawn.
    pub fn draw(&mut self, now: &WallClock, ops: &mut Vec<DrawOp>) -> (r: bool)
        requires
            now.wf(),
        ensures
            r == (now.minute != old(self).last_min),
            final(self).last_min == now.minute,
            r ==> exists|added: Seq<DrawOp>| appended(old(ops)@, final(ops)@, added) && is_clock_face(added, *now),
            !r ==> final(ops)@ == old(ops)@,
    {
        if now.minute == self.last_min {
            return false;
        }
        self.last_min = now.minute;
        let ghost start = ops@;
        let color = hour_color_of(now.hour);
        let dy: i32 = ((now.minute as i32 * 5) / 3) % 100;
        let dx: i32 = ((now.hour % 3) as i32 - 1) * 40 - 2;
        ops.push(DrawOp::Clear(Color565::black()));
        ops.push(DrawOp::Text { text: two_digit_string(now.hour as u64), x: 44 + dx, y: 20 + dy, font: Font::Large, color });
        let colon = vec![':'];
        ops.push(DrawOp::Text { text: crate::text::string_from_chars(&colon), x: 61 + dx, y: 18 + dy, font: Font::Large, color });
        ops.push(DrawOp::Text { text: two_digit_string(now.minute as u64), x: 69 + dx, y: 20 + dy, font: Font::Large, color });
        proof {
            let added = ops@.subrange(start.len() as int, ops@.len() as int);
            assert(colon@ =~= seq![':']);
            assert(ops@ =~= start + added);
            assert(is_clock_face(added, *now));
        }
        true
    }
}

/// Frames after which the reminder animation stops repainting.
pub const BEAR_PAINT_FRAMES: u32 = 73;

/// Frames after which the reminder animation has expired.
pub const BEAR_FRAMES: u32 = 110;

/// A blinking full-screen reminder: the bitmap, inverted every four frames.
#[derive(Debug)]
pub struct BearDraw {
    pub calls: u32,
    pub image: SimpleScreensaver,
}

impl BearDraw {
    pub open spec fn wf(&self) -> bool {
        self.image.wf()
    }

    pub open spec fn spec_expired(&self) -> bool {
        self.calls > BEAR_FRAMES
    }

    pub fn new(image: SimpleScreensaver) -> (r: Self)
        requires
            image.wf(),
        ensures
            r.wf(),
            r.calls == 0,
            r.image == image,
    {
        BearDraw { calls: 0, image }
    }

    pub fn expired(&self) -> (r: bool)
        ensures
            r == self.spec_expired(),
    {
        self.calls > BEAR_FRAMES
    }

    /// Counts the frame and, for the first 73 frames, paints the bitmap (inverted when the
    /// frame number mod 8 is 4 or more).
    pub fn draw(&mut self, ops: &mut Vec<DrawOp>) -> (r: bool)
        requires
            old(self).wf(),
        ensures
            final(self).wf(),
            final(self).image == old(self).image,
            final(self).calls == if old(self).calls < u32::MAX { old(self).calls + 1 } else { old(self).calls as int },
            r == (final(self).calls <= BEAR_PAINT_FRAMES),
            r ==> final(ops)@.len() == old(ops)@.len() + 1,
            !r ==> final(ops)@ == old(ops)@,
    {
        if self.calls < u32::MAX {
            self.calls = self.calls + 1;
        }
        if self.calls > BEAR_PAINT_FRAMES {
            return false;
        }
        let img = self.image.draw_all(self.calls % 8 >= 4);
        ops.push(DrawOp::Image(img));
        true
    }
}

} // verus!

verus! {

/// Frames after which a dashboard has expired.
pub const DASHBOARD_FRAMES: u32 = 1000;

/// What the dashboard shows below its header.
#[derive(Clone, Copy, Debug, PartialEq, Eq, Structural)]
pub enum MeasurementsMode {
    Default,
    Temps,
    Events,
}

/// The latest sensor reading, in tenths of a percent and tenths of a degree Celsius.
#[derive(Clone, Copy, Debug, PartialEq, Eq, Structural)]
pub struct Reading {
    pub humidity: u16,
    pub celsius: u16,
}

/// The sensor dashboard: paints once, then only counts frames.
#[derive(Debug)]
pub struct Measurements {
    pub mode: MeasurementsMode,
    pub drawn: bool,
    pub frames: u32,
}

/// The operations that open every dashboard frame: a cleared screen and the time.
pub open spec fn is_dashboard_header(ops: Seq<DrawOp>, now: WallClock) -> bool {
    let white = Color565 { r: 31, g: 63, b: 31 };
    &&& ops.len() >= 5
    &&& ops[0] == DrawOp::Clear(Color565 { r: 0, g: 0, b: 0 })
    &&& is_text(ops[1], two_digits(now.hour as nat), 62, 26, Font::Digits, white)
    &&& is_text(ops[2], two_digits(now.minute as nat), 98, 26, Font::Digits, white)
    &&& ops[3] == DrawOp::Rect { x: 93, y: 14, w: 4, h: 4, color: white }
    &&& ops[4] == DrawOp::Rect { x: 93, y: 22, w: 4, h: 4, color: white }
}

impl Measurements {
    pub open spec fn spec_expired(&self) -> bool {
        self.frames > DASHBOARD_FRAMES
    }

    pub fn default() -> (r: Self)
        ensures
            r.mode == MeasurementsMode::Default,
            !r.drawn,
            r.frames == 0,
    {
        Measurements { mode: MeasurementsMode::Default, drawn: false, frames: 0 }
    }

    pub fn temps() -> (r: Self)
        ensures
            r.mode == MeasurementsMode::Temps,
            !r.drawn,
            r.frames == 0,
    {
        Measurements { mode: MeasurementsMode::Temps, drawn: false, frames: 0 }
    }

    pub fn events() -> (r: Self)
        ensures
            r.mode == MeasurementsMode::Events,
            !r.drawn,
            r.frames == 0,
    {
        Measurements { mode: MeasurementsMode::Events, drawn: false, frames: 0 }
    }

    pub fn expired(&self) -> (r: bool)
        ensures
            r == self.spec_expired(),
    {
        self.frames > DASHBOARD_FRAMES
    }

    /// Counts the frame; paints the dashboard on the first frame only.
    pub fn draw(&mut self, now: &WallClock, sensors: &crate::dashboard::DashboardData, ops: &mut Vec<DrawOp>) -> (r: bool)
        requires
            now.wf(),
        ensures
            r == !old(self).drawn,
            final(self).drawn,
            final(self).mode == old(self).mode,
            final(self).frames == if old(self).frames < u32::MAX { old(self).frames + 1 } else { old(self).frames as int },
            r ==> exists|added: Seq<DrawOp>| appended(old(ops)@, final(ops)@, added) && is_dashboard_header(added, *now),
            !r ==> final(ops)@ == old(ops)@,
    {
        if self.frames < u32::MAX {
            self.frames = self.frames + 1;
        }
        if self.drawn {
            return false;
        }
        let ghost start = ops@;
        let white = Color565::white();
        ops.push(DrawOp::Clear(Color565::black()));
        ops.push(DrawOp::Text { text: two_digit_string(now.hour as u64), x: 62, y: 26, font: Font::Digits, color: white });
        ops.push(DrawOp::Text { text: two_digit_string(now.minute as u64), x: 98, y: 26, font: Font::Digits, color: white });
        ops.push(DrawOp::Rect { x: 93, y: 14, w: 4, h: 4, color: white });
        ops.push(DrawOp::Rect { x: 93, y: 22, w: 4, h: 4, color: white });
        if let Some(rd) = sensors.reading {
            let percent = vec!['%'];
            ops.push(DrawOp::Text { text: two_digit_string((rd.humidity / 10) as u64), x: 67, y: 60, font: Font::Medium, color: white });
            ops.push(DrawOp::Text { text: crate::text::string_from_chars(&percent), x: 85, y: 60, font: Font::Tiny, color: white });
            ops.push(DrawOp::Text { text: two_digit_string((rd.celsius / 10) as u64), x: 99, y: 60, font: Font::Medium, color: white });
            ops.push(DrawOp::Rect { x: 117, y: 60, w: 1, h: 1, color: white });
            ops.push(DrawOp::Text { text: crate::text::decimal_string((rd.celsius % 10) as u64), x: 119, y: 60, font: Font::Tiny, color: white });
        }
        let ghost head = ops@;
        crate::dashboard::dashboard_body(self.mode, now, sensors, ops);
        self.drawn = true;
        proof {
            assert forall|i: int| 0 <= i < head.len() implies #[trigger] ops@[i] == head[i] by {
                assert(ops@.take(head.len() as int)[i] == ops@[i]);
            }
            let added = ops@.subrange(start.len() as int, ops@.len() as int);
            assert forall|i: int| 0 <= i < start.len() implies #[trigger] ops@[i] == start[i] by {
                assert(ops@[i] == head[i]);
            }
            assert(ops@ =~= start + added);
            assert forall|i: int| 0 <= i < 5 implies added[i] == head[start.len() + i] by {
                assert(added[i] == ops@[start.len() + i]);
            }
            assert(is_dashboard_header(added, *now));
        }
        true
    }
}

} // verus!

verus! {

/// The calendar that the dashboard lists: one-off events and weekly ones.
#[derive(Debug)]
pub struct Events {
    pub events: Vec<Event>,
    pub weekly: Vec<Weekly>,
}

/// A one-off event; times are local, written `YYYY-MM-DDTHH:MM:SS`.
#[derive(Debug)]
pub struct Event {
    pub name: String,
    pub start_time: String,
    pub end_time: Option<String>,
}

/// An event that recurs every week on `day` (0 = Monday), lasting `duration` minutes.
#[derive(Debug)]
pub struct Weekly {
    pub name: String,
    pub day: i32,
    pub hour: i32,
    pub minute: i32,
    pub duration: i32,
}

} // verus!
