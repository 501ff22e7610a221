use vstd::prelude::*;
use rand_xoshiro::Xoroshiro128StarStar;
use crate::frame::{Color565, DrawOp};
use crate::rng::next_u32;

verus! {

/// Width and height of the screen and of every bitmap, in pixels.
pub const SIDE: usize = 128;

/// Number of bytes in a 128 by 128 RGB888 bitmap.
pub const BITMAP_LEN: usize = 49152;

/// Number of pixels on the screen.
pub const PIXELS: usize = 16384;

/// Frames after which a sparkle animation has run its course.
pub const SPARKLE_FRAMES: u32 = 1000;

/// The RGB565 colour of pixel `idx` of an RGB888 bitmap.
pub open spec fn pixel_of(data: Seq<u8>, idx: int) -> Color565 {
    Color565 { r: data[3 * idx] >> 3, g: data[3 * idx + 1] >> 2, b: data[3 * idx + 2] >> 3 }
}

/// The same, with each 8-bit channel inverted first.
pub open spec fn inverted_pixel_of(data: Seq<u8>, idx: int) -> Color565 {
    Color565 {
        r: ((255 - data[3 * idx]) as u8) >> 3,
        g: ((255 - data[3 * idx + 1]) as u8) >> 2,
        b: ((255 - data[3 * idx + 2]) as u8) >> 3,
    }
}

/// Whether the RGB565 colour of pixel `idx` is not black.
pub open spec fn lit(data: Seq<u8>, idx: int) -> bool {
    let c = pixel_of(data, idx);
    !(c.r == 0 && c.g == 0 && c.b == 0)
}

/// The bitmap washed in one colour: lit pixels in `color`, the others black.
pub open spec fn wash_of(data: Seq<u8>, color: Color565) -> Seq<Color565> {
    Seq::new(PIXELS as nat, |i: int| if lit(data, i) { color } else { Color565 { r: 0, g: 0, b: 0 } })
}

pub open spec fn min_int(a: int, b: int) -> int {
    if a < b { a } else { b }
}

/// The pixel that one sparkle step draws from five random words, if any: the bitmap pixel
/// at (`wx` mod 128, `wy` mod 128), if any of its bytes is non-zero, moved by
/// (`wdx` mod 8 - 4, `wdy` mod 8 - 4), with two bits of `wc` added to each channel.
pub open spec fn sparkle_of(data: Seq<u8>, wx: u32, wy: u32, wdx: u32, wdy: u32, wc: u32) -> Option<(i32, i32, Color565)> {
    let x = (wx % 128) as int;
    let y = (wy % 128) as int;
    let idx = y * 128 + x;
    let (red, green, blue) = (data[3 * idx], data[3 * idx + 1], data[3 * idx + 2]);
    if red == 0 && green == 0 && blue == 0 {
        None
    } else {
        Some((
            (x + (wdx % 8) as int - 4) as i32,
            (y + (wdy % 8) as int - 4) as i32,
            Color565 {
                r: min_int((red >> 3) as int + (wc % 4) as int, 31) as u8,
                g: min_int((green >> 2) as int + ((wc / 4) % 4) as int, 63) as u8,
                b: min_int((blue >> 3) as int + ((wc / 16) % 4) as int, 31) as u8,
            },
        ))
    }
}

/// The pixels that sparkle steps draw from their random words, in order: one per step
/// whose source pixel is lit (see `sparkle_of`).
pub open spec fn sparkles(data: Seq<u8>, w: Seq<(u32, u32, u32, u32, u32)>) -> Seq<DrawOp>
    decreases w.len(),
{
    if w.len() == 0 {
        Seq::empty()
    } else {
        let prev = sparkles(data, w.drop_last());
        let (a, b, c, d, e) = w.last();
        match sparkle_of(data, a, b, c, d, e) {
            None => prev,
            Some((x, y, color)) => prev.push(DrawOp::Pixel { x, y, color }),
        }
    }
}

/// A screensaver drawn from a 128 by 128 RGB888 bitmap by scattering jittered copies of its
/// pixels; it counts the frames it has drawn.
#[derive(Debug)]
pub struct SimpleScreensaver {
    pub id: String,
    pub data: Vec<u8>,
    pub iters: u32,
}

impl SimpleScreensaver {
    pub open spec fn wf(&self) -> bool {
        self.data@.len() == BITMAP_LEN
    }

    pub open spec fn spec_expired(&self) -> bool {
        self.iters > SPARKLE_FRAMES
    }

    /// A screensaver with the given id and bitmap, which has drawn no frame yet.
    pub fn new(id: &str, data: Vec<u8>) -> (r: Self)
        requires
            data@.len() == BITMAP_LEN,
        ensures
            r.wf(),
            r.id@ == id@,
            r.data@ == data@,
            r.iters == 0,
    {
        SimpleScreensaver { id: id.to_owned(), data, iters: 0 }
    }

    /// A copy of this screensaver with its frame count reset.
    pub fn fresh(&self) -> (r: Self)
        requires
            self.wf(),
        ensures
            r.wf(),
            r.id@ == self.id@,
            r.data@ == self.data@,
            r.iters == 0,
    {
        let data = self.data.clone();
        assert(data@ =~= self.data@);
        SimpleScreensaver { id: self.id.clone(), data, iters: 0 }
    }

    pub fn expired(&self) -> (r: bool)
        ensures
            r == self.spec_expired(),
    {
        self.iters > SPARKLE_FRAMES
    }

    /// The RGB565 colour of the bitmap at (x, y).
    pub fn get_pixel(&self, x: u32, y: u32) -> (c: Color565)
        requires
            self.wf(),
            x < 128,
            y < 128,
        ensures
            c == pixel_of(self.data@, y * 128 + x),
            c.wf(),
    {
        let idx = y as usize * SIDE + x as usize;
        let (red, green, blue) = (self.data[3 * idx], self.data[3 * idx + 1], self.data[3 * idx + 2]);
        assert(red >> 3 < 32 && green >> 2 < 64 && blue >> 3 < 32) by (bit_vector);
        Color565 { r: red >> 3, g: green >> 2, b: blue >> 3 }
    }

    /// The whole bitmap, every lit pixel in `color` and every other one black.
    pub fn draw_all_colored(&self, color: Color565) -> (r: Vec<Color565>)
        requires
            self.wf(),
        ensures
            r@ == wash_of(self.data@, color),
    {
        let mut out: Vec<Color565> = Vec::with_capacity(PIXELS);
        let mut idx: usize = 0;
        while idx < PIXELS
            invariant
                self.wf(),
                idx <= PIXELS,
                out@.len() == idx,
                forall|i: int|
                    0 <= i < idx ==> #[trigger] out@[i] == if lit(self.data@, i) {
                        color
                    } else {
                        Color565 { r: 0, g: 0, b: 0 }
                    },
            decreases PIXELS - idx,
        {
            let (red, green, blue) = (self.data[3 * idx], self.data[3 * idx + 1], self.data[3 * idx + 2]);
            let c = Color565 { r: red >> 3, g: green >> 2, b: blue >> 3 };
            if !c.is_black() {
                out.push(color);
            } else {
                out.push(Color565::black());
            }
            idx += 1;
        }
        assert(out@ =~= wash_of(self.data@, color));
        out
    }

    /// The whole bitmap, with every channel inverted when `flipped` holds.
    pub fn draw_all(&self, flipped: bool) -> (r: Vec<Color565>)
        requires
            self.wf(),
        ensures
            r@.len() == PIXELS,
            forall|i: int|
                0 <= i < PIXELS ==> #[trigger] r@[i] == if flipped {
                    inverted_pixel_of(self.data@, i)
                } else {
                    pixel_of(self.data@, i)
                },
    {
        let mut out: Vec<Color565> = Vec::with_capacity(PIXELS);
        let mut idx: usize = 0;
        while idx < PIXELS
            invariant
                self.wf(),
                idx <= PIXELS,
                out@.len() == idx,
                forall|i: int|
                    0 <= i < idx ==> #[trigger] out@[i] == if flipped {
                        inverted_pixel_of(self.data@, i)
                    } else {
                        pixel_of(self.data@, i)
                    },
            decreases PIXELS - idx,
        {
            let (mut red, mut green, mut blue) = (self.data[3 * idx], self.data[3 * idx + 1], self.data[3 * idx + 2]);
            if flipped {
                red = 255 - red;
                green = 255 - green;
                blue = 255 - blue;
            }
            out.push(Color565 { r: red >> 3, g: green >> 2, b: blue >> 3 });
            idx += 1;
        }
        out
    }

    /// One sparkle step from five random words (see `sparkle_of`).
    pub fn sparkle(&self, wx: u32, wy: u32, wdx: u32, wdy: u32, wc: u32) -> (r: Option<DrawOp>)
        requires
            self.wf(),
        ensures
            match sparkle_of(self.data@, wx, wy, wdx, wdy, wc) {
                None => r is None,
                Some((x, y, color)) => r == Some(DrawOp::Pixel { x, y, color }),
            },
    {
        let x = (wx % 128) as usize;
        let y = (wy % 128) as usize;
        let dx = (wdx % 8) as i32 - 4;
        let dy = (wdy % 8) as i32 - 4;
        let idx = y * SIDE + x;
        let red = self.data[3 * idx];
        let green = self.data[3 * idx + 1];
        let blue = self.data[3 * idx + 2];
        if red == 0 && green == 0 && blue == 0 {
            return None;
        }
        assert(red >> 3 < 32 && green >> 2 < 64 && blue >> 3 < 32) by (bit_vector);
        let r0 = (red >> 3) + (wc % 4) as u8;
        let g0 = (green >> 2) + ((wc / 4) % 4) as u8;
        let b0 = (blue >> 3) + ((wc / 16) % 4) as u8;
        let r = if r0 < 31 { r0 } else { 31 };
        let g = if g0 < 63 { g0 } else { 63 };
        let b = if b0 < 31 { b0 } else { 31 };
        Some(DrawOp::Pixel { x: x as i32 + dx, y: y as i32 + dy, color: Color565 { r, g, b } })
    }

    /// Draws one frame: `speed` sparkle steps, each from five words of `rng` (the colour
    /// word only for a lit pixel). Counts the frame; always reports the screen as changed.
    pub fn draw(&mut self, rng: &mut Xoroshiro128StarStar, speed: u64, ops: &mut Vec<DrawOp>) -> (r: bool)
        requires
            old(self).wf(),
        ensures
            r,
            final(self).wf(),
            final(self).id == old(self).id,
            final(self).data == old(self).data,
            final(self).iters == if old(self).iters < u32::MAX { old(self).iters + 1 } else { old(self).iters as int },
            exists|w: Seq<(u32, u32, u32, u32, u32)>|
                w.len() == speed && #[trigger] final(ops)@ == old(ops)@ + sparkles(old(self).data@, w),
    {
        let ghost start = ops@;
        let ghost mut w: Seq<(u32, u32, u32, u32, u32)> = Seq::empty();
        let mut n: u64 = 0;
        while n < speed
            invariant
                self.wf(),
                self.data == old(self).data,
                n <= speed,
                w.len() == n,
                ops@ == start + sparkles(self.data@, w),
            decreases speed - n,
        {
            let wx = next_u32(rng);
            let wy = next_u32(rng);
            let wdx = next_u32(rng);
            let wdy = next_u32(rng);
            let x = (wx % 128) as usize;
            let y = (wy % 128) as usize;
            let idx = y * SIDE + x;
            let wc = if self.data[3 * idx] != 0 || self.data[3 * idx + 1] != 0 || self.data[3 * idx + 2] != 0 {
                next_u32(rng)
            } else {
                0
            };
            let ghost w2 = w.push((wx, wy, wdx, wdy, wc));
            proof {
                assert(w2.drop_last() =~= w);
            }
            if let Some(op) = self.sparkle(wx, wy, wdx, wdy, wc) {
                ops.push(op);
                assert(ops@ =~= start + sparkles(self.data@, w2));
            } else {
                assert(ops@ =~= start + sparkles(self.data@, w2));
            }
            proof {
                w = w2;
            }
            n += 1;
        }
        if self.iters < u32::MAX {
            self.iters = self.iters + 1;
        }
        assert(ops@ == old(ops)@ + sparkles(old(self).data@, w));
        true
    }

    /// Draws the sparkle steps of the given random words (see `sparkles`); a step whose
    /// source pixel is dark ignores its colour word.
    pub fn sparkle_frame(&self, words: &Vec<(u32, u32, u32, u32, u32)>, ops: &mut Vec<DrawOp>)
        requires
            self.wf(),
        ensures
            final(ops)@ == old(ops)@ + sparkles(self.data@, words@),
    {
        let ghost start = ops@;
        let mut k: usize = 0;
        while k < words.len()
            invariant
                self.wf(),
                k <= words@.len(),
                ops@ == start + sparkles(self.data@, words@.take(k as int)),
            decreases words@.len() - k,
        {
            let (a, b, c, d, e) = words[k];
            proof {
                assert(words@.take(k + 1).drop_last() =~= words@.take(k as int));
            }
            if let Some(op) = self.sparkle(a, b, c, d, e) {
                ops.push(op);
            }
            assert(ops@ =~= start + sparkles(self.data@, words@.take(k + 1)));
            k += 1;
        }
        assert(words@.take(words@.len() as int) =~= words@);
    }
}

} // verus!
