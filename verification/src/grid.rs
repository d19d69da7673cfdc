//! Equal-division-of-octave reference grids.
//!
//! The grid holds an ordered list of division counts.  With more than one
//! count, a header band of height `h / 24` sits at the top and the rest of
//! the screen is split into one equal band per count; with at most one
//! count the single band spans the full height.  Within a band, tick `i`
//! of `bars` is a 2-pixel-wide rectangle centered at `w * i / bars`
//! (equal divisions are linear in log-frequency, so linear index spacing
//! is the correct logarithmic placement), colored by the count's position
//! in the list modulo the 3-color palette.

use vstd::prelude::*;

verus! {

use crate::geom::{Frac, frac_is, ScreenSize, lemma_mul_le};

/// Largest division count a grid band will lay out.
pub const MAX_DIVISIONS: usize = 1_000_000;

/// Largest number of division counts a grid will lay out.
pub const MAX_BANDS: usize = 1000;

/// An axis-aligned rectangle with exact rational corners and a palette
/// color index.
#[derive(Clone, Copy, PartialEq, Eq, Structural, Debug)]
pub struct GridRect {
    pub x0: Frac,
    pub y0: Frac,
    pub x1: Frac,
    pub y1: Frac,
    pub color: usize,
}

/// The ordered division counts; order decides band stacking and colors.
pub struct Grid {
    pub edos: Vec<usize>,
}

/// Number of header bands: one when several counts share the screen.
pub open spec fn hdr_bands(m: int) -> int {
    if m > 1 {
        1
    } else {
        0
    }
}

/// Numerator of the top edge of band `e` among `m` bands on a screen of
/// height `h`, over the common denominator `24 * m`: the bands start below
/// the `h / 24` header when there is one and split the rest evenly.
pub open spec fn band_y_num(m: int, h: int, e: int) -> int {
    if m > 1 {
        h * (m + 23 * e)
    } else {
        24 * h * e
    }
}

/// The tick's horizontal extent: centered at `i * w / bars`, one pixel to
/// each side.
pub open spec fn tick_x_matches(g: GridRect, i: int, bars: int, w: int) -> bool {
    &&& frac_is(g.x0, i * w - bars, bars)
    &&& frac_is(g.x1, i * w + bars, bars)
}

/// One full tick: horizontal extent for index `i`, vertical extent
/// `yn0 / yd` to `yn1 / yd`, and the given color.
pub open spec fn tick_matches(
    g: GridRect,
    i: int,
    bars: int,
    w: int,
    yn0: int,
    yn1: int,
    yd: int,
    color: int,
) -> bool {
    &&& tick_x_matches(g, i, bars, w)
    &&& frac_is(g.y0, yn0, yd)
    &&& frac_is(g.y1, yn1, yd)
    &&& g.color == color
}

/// A row of `bars` evenly spaced ticks spanning one vertical band.
pub open spec fn row_matches(
    row: Seq<GridRect>,
    bars: int,
    w: int,
    yn0: int,
    yn1: int,
    yd: int,
    color: int,
) -> bool {
    &&& row.len() == bars
    &&& forall|i: int|
        0 <= i < bars ==> tick_matches(#[trigger] row[i], i, bars, w, yn0, yn1, yd, color)
}

/// The complete grid layout for counts `edos` on a `w` by `h` screen: an
/// optional header row of the first count's ticks, then one row per count,
/// stacked top to bottom in list order.
pub open spec fn grid_output_ok(out: Seq<Vec<GridRect>>, edos: Seq<usize>, w: int, h: int) -> bool {
    let m = edos.len() as int;
    &&& out.len() == hdr_bands(m) + m
    &&& (m > 1 ==> row_matches(out[0]@, edos[0] as int, w, 0, h, 24, 0))
    &&& forall|e: int|
        0 <= e < m ==> row_matches(
            #[trigger] out[hdr_bands(m) + e]@,
            edos[e] as int,
            w,
            band_y_num(m, h, e),
            band_y_num(m, h, e + 1),
            24 * m,
            e % 3,
        )
}

/// One row of ticks between the given vertical edges.
#[verifier::loop_isolation(false)]
fn tick_row(bars: usize, w: u32, y0: Frac, y1: Frac, color: usize) -> (row: Vec<GridRect>)
    requires
        1 <= bars <= MAX_DIVISIONS,
    ensures
        row@.len() == bars,
        forall|i: int|
            0 <= i < bars ==> tick_x_matches(#[trigger] row@[i], i, bars as int, w as int)
                && row@[i].y0 == y0 && row@[i].y1 == y1 && row@[i].color == color,
{
    let mut row: Vec<GridRect> = Vec::new();
    let mut i: usize = 0;
    while i < bars
        invariant
            i <= bars,
            row@.len() == i,
            forall|t: int|
                0 <= t < i ==> tick_x_matches(#[trigger] row@[t], t, bars as int, w as int)
                    && row@[t].y0 == y0 && row@[t].y1 == y1 && row@[t].color == color,
        decreases bars - i,
    {
        proof {
            lemma_mul_le(i as int, w as int, MAX_DIVISIONS as int, u32::MAX as int);
        }
        let xnum: i64 = (i as i64) * (w as i64);
        let x0 = Frac { num: xnum - (bars as i64), den: bars as i64 };
        let x1 = Frac { num: xnum + (bars as i64), den: bars as i64 };
        row.push(GridRect { x0, y0, x1, y1, color });
        i += 1;
    }
    row
}

impl Grid {
    /// Every count is positive and within the layout limits.
    pub open spec fn edos_ok(&self) -> bool {
        &&& self.edos@.len() <= MAX_BANDS
        &&& forall|e: int|
            0 <= e < self.edos@.len() ==> 1 <= #[trigger] self.edos@[e] <= MAX_DIVISIONS
    }

    /// Computes the draw primitives for the whole grid.
    #[verifier::loop_isolation(false)]
    pub fn draw(&self, screen: ScreenSize) -> (r: Vec<Vec<GridRect>>)
        requires
            self.edos_ok(),
        ensures
            grid_output_ok(r@, self.edos@, screen.w as int, screen.h as int),
    {
        let m = self.edos.len();
        let mut out: Vec<Vec<GridRect>> = Vec::new();
        if m > 1 {
            let y0 = Frac { num: 0, den: 24 };
            let y1 = Frac { num: screen.h as i64, den: 24 };
            let row = tick_row(self.edos[0], screen.w, y0, y1, 0);
            out.push(row);
        }
        let yd: i64 = 24 * (m as i64);
        let mut e: usize = 0;
        while e < m
            invariant
                e <= m,
                out@.len() == hdr_bands(m as int) + e,
                m > 1 ==> row_matches(
                    out@[0]@,
                    self.edos@[0] as int,
                    screen.w as int,
                    0,
                    screen.h as int,
                    24,
                    0,
                ),
                forall|ee: int|
                    0 <= ee < e ==> row_matches(
                        #[trigger] out@[hdr_bands(m as int) + ee]@,
                        self.edos@[ee] as int,
                        screen.w as int,
                        band_y_num(m as int, screen.h as int, ee),
                        band_y_num(m as int, screen.h as int, ee + 1),
                        24 * m as int,
                        ee % 3,
                    ),
            decreases m - e,
        {
            proof {
                if m > 1 {
                    lemma_mul_le(screen.h as int, m + 23 * e, u32::MAX as int, 24 * MAX_BANDS as int);
                    lemma_mul_le(screen.h as int, m + 23 * e + 23, u32::MAX as int, 24 * MAX_BANDS as int);
                } else {
                    lemma_mul_le(24 * (screen.h as int), e as int, 24 * (u32::MAX as int), 0);
                    lemma_mul_le(24 * (screen.h as int), e + 1, 24 * (u32::MAX as int), 1);
                }
            }
            let h64: i64 = screen.h as i64;
            let yn0: i64 = if m > 1 {
                h64 * ((m as i64) + 23 * (e as i64))
            } else {
                24 * h64 * (e as i64)
            };
            let yn1: i64 = if m > 1 {
                h64 * ((m as i64) + 23 * ((e as i64) + 1))
            } else {
                24 * h64 * ((e as i64) + 1)
            };
            let y0 = Frac { num: yn0, den: yd };
            let y1 = Frac { num: yn1, den: yd };
            let row = tick_row(self.edos[e], screen.w, y0, y1, e % 3);
            out.push(row);
            e += 1;
        }
        out
    }
}

} // verus!
