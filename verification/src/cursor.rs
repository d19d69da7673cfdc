//! The pitch cursor: one horizontal screen position.
//!
//! The position is stored unclamped, exactly as pointer events deliver it;
//! out-of-viewport values pass through and simply yield out-of-range
//! pitches, matching the free movement of the pointer.

use vstd::prelude::*;

verus! {

use crate::geom::{Frac, frac_is, ScreenSize};

/// The cursor's horizontal position in pixels, signed and unclamped.
#[derive(Clone, Copy, PartialEq, Eq, Structural, Debug)]
pub struct Cursor {
    pub pos: i32,
}

/// The translucent vertical band marking the cursor: half-width `w / 240`,
/// spanning the full screen height.
#[derive(Clone, Copy, PartialEq, Eq, Structural, Debug)]
pub struct BandRect {
    pub x0: Frac,
    pub y0: Frac,
    pub x1: Frac,
    pub y1: Frac,
}

/// The band is centered at `pos` with half-width `w / 240` and covers the
/// vertical extent `0` to `h`.
pub open spec fn cursor_band_ok(r: BandRect, pos: int, w: int, h: int) -> bool {
    &&& frac_is(r.x0, 240 * pos - w, 240)
    &&& frac_is(r.x1, 240 * pos + w, 240)
    &&& frac_is(r.y0, 0, 1)
    &&& frac_is(r.y1, h, 1)
}

impl Cursor {
    /// Overwrites the stored position unconditionally: no validation and
    /// no clamping.
    pub fn set_position(&mut self, pos: i32)
        ensures
            final(self).pos == pos,
    {
        self.pos = pos
    }

    /// The pitch index under the cursor: `12 * pos / w`, mapping the full
    /// screen width to a 12-unit octave.  The fraction is returned exactly
    /// as built; it denotes a pitch only when `w > 0`.
    pub fn pitch(&self, screen_w: u32) -> (r: Frac)
        ensures
            r.num == 12 * self.pos,
            r.den == screen_w,
    {
        Frac { num: 12 * (self.pos as i64), den: screen_w as i64 }
    }

    /// Computes the cursor's draw primitive.
    pub fn draw(&self, screen: ScreenSize) -> (r: BandRect)
        ensures
            cursor_band_ok(r, self.pos as int, screen.w as int, screen.h as int),
    {
        let center: i64 = 240 * (self.pos as i64);
        BandRect {
            x0: Frac { num: center - (screen.w as i64), den: 240 },
            y0: Frac { num: 0, den: 1 },
            x1: Frac { num: center + (screen.w as i64), den: 240 },
            y1: Frac { num: screen.h as i64, den: 1 },
        }
    }
}

} // verus!
