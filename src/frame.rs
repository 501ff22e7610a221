use vstd::prelude::*;

verus! {

/// An RGB565 colour: five bits of red, six of green, five of blue.
#[derive(Clone, Copy, Debug, PartialEq, Eq, Structural)]
pub struct Color565 {
    pub r: u8,
    pub g: u8,
    pub b: u8,
}

impl Color565 {
    pub open spec fn wf(&self) -> bool {
        self.r < 32 && self.g < 64 && self.b < 32
    }

    pub fn new(r: u8, g: u8, b: u8) -> (c: Self)
        requires
            r < 32,
            g < 64,
            b < 32,
        ensures
            c == (Color565 { r, g, b }),
            c.wf(),
    {
        Color565 { r, g, b }
    }

    pub fn black() -> (c: Self)
        ensures
            c == (Color565 { r: 0, g: 0, b: 0 }),
    {
        Color565 { r: 0, g: 0, b: 0 }
    }

    pub fn white() -> (c: Self)
        ensures
            c == (Color565 { r: 31, g: 63, b: 31 }),
    {
        Color565 { r: 31, g: 63, b: 31 }
    }

    pub fn is_black(&self) -> (r: bool)
        ensures
            r == (self.r == 0 && self.g == 0 && self.b == 0),
    {
        self.r == 0 && self.g == 0 && self.b == 0
    }
}

/// The fonts that text can be drawn in.
#[derive(Clone, Copy, Debug, PartialEq, Eq, Structural)]
pub enum Font {
    /// 10 by 20 pixels.
    Large,
    /// 9 by 15 pixels.
    Medium,
    /// 8 by 13 pixels.
    Small,
    /// 6 by 9 pixels.
    Tiny,
    /// 5 by 8 pixels.
    Mini,
    /// 4 by 6 pixels.
    Micro,
    /// The 15 by 30 pixel clock digits.
    Digits,
}

/// One drawing primitive handed to the display sink.
#[derive(Debug)]
pub enum DrawOp {
    /// Fill the whole screen with one colour.
    Clear(Color565),
    /// Set one pixel; coordinates outside the screen are ignored by the sink.
    Pixel { x: i32, y: i32, color: Color565 },
    /// Set one pixel to the fully saturated, full-value colour of the given hue (degrees).
    HuePixel { x: i32, y: i32, hue: u32 },
    /// Fill the whole 128 by 128 screen, row by row.
    Image(Vec<Color565>),
    /// Fill the `w`-pixel-wide block at (`x`, `y`) with `pixels`, row by row.
    Block { x: i32, y: i32, w: u32, pixels: Vec<Color565> },
    /// Fill a rectangle with one colour.
    Rect { x: i32, y: i32, w: u32, h: u32, color: Color565 },
    /// Draw a line of text with its baseline-left corner at the given point.
    Text { text: String, x: i32, y: i32, font: Font, color: Color565 },
}

/// Whether `op` draws exactly `text` at (`x`, `y`) in `font` and `color`.
pub open spec fn is_text(op: DrawOp, text: Seq<char>, x: int, y: int, font: Font, color: Color565) -> bool {
    match op {
        DrawOp::Text { text: t, x: ox, y: oy, font: f, color: c } => t@ == text && ox == x && oy == y && f == font
            && c == color,
        _ => false,
    }
}

} // verus!
