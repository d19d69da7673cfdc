use xenvox::cursor::Cursor;
use xenvox::geom::{Frac, ScreenSize};
use xenvox::grid::Grid;
use xenvox::model::{draw_model, Model};
use xenvox::tree::SbTree;

const SCREEN: ScreenSize = ScreenSize { w: 960, h: 600 };

/// The fraction equals `n / d` exactly, by cross-multiplication.
fn frac_eq(f: Frac, n: i64, d: i64) -> bool {
    assert!(f.den > 0 && d > 0);
    f.num as i128 * d as i128 == n as i128 * f.den as i128
}

#[test]
fn grid_header_and_three_bands() {
    let g = Grid { edos: vec![12, 31, 53] };
    let r = g.draw(SCREEN);
    assert_eq!(r.len(), 4);

    // header band: ticks of the first count, spanning y = 0 .. 600/24 = 25
    assert_eq!(r[0].len(), 12);
    for (i, t) in r[0].iter().enumerate() {
        assert!(frac_eq(t.y0, 0, 1));
        assert!(frac_eq(t.y1, 25, 1));
        // tick i centered at 960 * i / 12 = 80 i, one pixel to each side
        assert!(frac_eq(t.x0, 80 * i as i64 - 1, 1));
        assert!(frac_eq(t.x1, 80 * i as i64 + 1, 1));
        assert_eq!(t.color, 0);
    }

    // three equal bands below the header, each (600 - 25) / 3 high
    for (e, bars) in [(0usize, 12usize), (1, 31), (2, 53)] {
        let row = &r[e + 1];
        assert_eq!(row.len(), bars);
        let t = row[0];
        // top edge: 25 + e * 575 / 3
        assert!(frac_eq(t.y0, 75 + 575 * e as i64, 3));
        assert!(frac_eq(t.y1, 75 + 575 * (e as i64 + 1), 3));
        assert_eq!(t.color, e % 3);
    }

    // ticks inside a band: 31 divisions put tick i at 960 * i / 31
    let t = r[2][1];
    assert!(frac_eq(t.x0, 960 - 31, 31));
    assert!(frac_eq(t.x1, 960 + 31, 31));
}

#[test]
fn frame_combines_grid_tree_and_cursor() {
    let m = Model::new();
    let f = draw_model(&m);
    assert_eq!(f.grid.len(), 4);
    assert_eq!(f.tree.len(), 9);
    // cursor at 0: band from -4 to 4, full height
    assert!(frac_eq(f.cursor.x0, -4, 1));
    assert!(frac_eq(f.cursor.x1, 4, 1));
    assert!(frac_eq(f.cursor.y1, 600, 1));
}

#[test]
fn grid_single_band_spans_full_height() {
    let g = Grid { edos: vec![12] };
    let r = g.draw(SCREEN);
    assert_eq!(r.len(), 1);
    assert_eq!(r[0].len(), 12);
    for t in r[0].iter() {
        // no header: the sole band covers y = 0 .. 600
        assert!(frac_eq(t.y0, 0, 1));
        assert!(frac_eq(t.y1, 600, 1));
        assert_eq!(t.color, 0);
    }
}

#[test]
fn grid_without_counts_draws_nothing() {
    let g = Grid { edos: vec![] };
    let r = g.draw(SCREEN);
    assert_eq!(r.len(), 0);
}

#[test]
fn pitch_maps_screen_width_to_one_octave() {
    let p = Cursor { pos: 480 }.pitch(960);
    assert_eq!((p.num, p.den), (5760, 960));
    assert_eq!(p.num as f32 / p.den as f32, 6.0);
    let p = Cursor { pos: 0 }.pitch(960);
    assert_eq!(p.num as f32 / p.den as f32, 0.0);
    let p = Cursor { pos: 960 }.pitch(960);
    assert_eq!(p.num as f32 / p.den as f32, 12.0);
}

#[test]
fn pitch_is_unclamped() {
    let p = Cursor { pos: -480 }.pitch(960);
    assert_eq!(p.num as f32 / p.den as f32, -6.0);
    let p = Cursor { pos: 1920 }.pitch(960);
    assert_eq!(p.num as f32 / p.den as f32, 24.0);
}

#[test]
fn set_position_overwrites() {
    let mut c = Cursor { pos: 7 };
    c.set_position(-3);
    assert_eq!(c.pos, -3);
    c.set_position(4000);
    assert_eq!(c.pos, 4000);
}

#[test]
fn cursor_band_is_centered_with_fixed_half_width() {
    let b = Cursor { pos: 100 }.draw(SCREEN);
    // half-width 960 / 240 = 4 pixels
    assert!(frac_eq(b.x0, 96, 1));
    assert!(frac_eq(b.x1, 104, 1));
    assert!(frac_eq(b.y0, 0, 1));
    assert!(frac_eq(b.y1, 600, 1));
}

#[test]
fn tree_glyphs_follow_layer_heights_and_parity() {
    let mut t = SbTree::new();
    t.set_layers_number(1);
    let r = t.draw(SCREEN);
    assert_eq!(r.len(), 2);
    assert_eq!(r[0].len(), 1);
    assert_eq!(r[1].len(), 2);
    // y = 600 * 0.90 * (0.05 + k / 1): layer 0 at 27, layer 1 at 567
    assert!(frac_eq(r[0][0].y, 27, 1));
    assert!(frac_eq(r[1][0].y, 567, 1));
    assert!(frac_eq(r[1][1].y, 567, 1));
    // glyphs carry the nodes' ratios, colored by index parity
    assert_eq!(r[0][0].ratio, t.leaf_at(0, 0).ratio);
    assert_eq!(r[1][0].ratio, t.leaf_at(1, 0).ratio);
    assert_eq!(r[1][1].ratio, t.leaf_at(1, 1).ratio);
    assert_eq!(r[0][0].color, 0);
    assert_eq!(r[1][0].color, 0);
    assert_eq!(r[1][1].color, 1);
}
