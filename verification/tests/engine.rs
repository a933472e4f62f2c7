use termray::bounce::BounceState;
use termray::frame::update_fps;
use termray::frame::FrameCollector;
use termray::frame::Row;
use termray::glyph::glyph_for_level;
use termray::glyph::palette;
use termray::reduce::nearest_hit;

#[test]
fn palette_bytes_darkest_to_brightest() {
    assert_eq!(palette(), b" .:;!/|({%@$&".to_vec());
}

#[test]
fn glyph_for_level_exact_values() {
    assert_eq!(glyph_for_level(0), b' ');
    assert_eq!(glyph_for_level(1), b'.');
    assert_eq!(glyph_for_level(4), b'!');
    assert_eq!(glyph_for_level(12), b'&');
}

#[test]
fn glyph_for_level_clamps_bright_levels() {
    assert_eq!(glyph_for_level(13), b'&');
    assert_eq!(glyph_for_level(100), b'&');
    assert_eq!(glyph_for_level(usize::MAX), b'&');
}

// Positive finite doubles order as their bit patterns do, so a hit distance
// is admitted as its bits, exactly as the renderer encodes candidates.
fn key_of(distance: f64) -> Option<u64> {
    if distance > 0.0 && distance < 99999.0 {
        Some(distance.to_bits())
    } else {
        None
    }
}

#[test]
fn nearest_hit_picks_strictly_smaller_distance() {
    // Two overlapping objects along one ray: the nearer surface wins.
    let candidates = vec![key_of(6.0), key_of(4.0)];
    assert_eq!(nearest_hit(&candidates), Some(1));
}

#[test]
fn nearest_hit_ignores_misses_and_rejected_distances() {
    let candidates = vec![key_of(-1.0), key_of(9.0), key_of(2.5), key_of(5.0), None];
    assert_eq!(nearest_hit(&candidates), Some(2));
}

#[test]
fn nearest_hit_of_all_misses_is_none() {
    assert_eq!(nearest_hit(&vec![None, key_of(-3.0), key_of(100000.0)]), None);
    assert_eq!(nearest_hit(&vec![]), None);
}

#[test]
fn nearest_hit_tie_keeps_scene_order() {
    let candidates = vec![None, key_of(4.0), key_of(4.0)];
    assert_eq!(nearest_hit(&candidates), Some(1));
}

#[test]
fn bounce_loop_stops_after_five_segments() {
    let mut state = BounceState::start();
    let mut traced = 0;
    // A ray that never escapes: every segment reports a hit.
    while state.advance(true) {
        traced += 1;
        assert!(traced <= 5);
    }
    assert_eq!(traced, 5);
    assert!(!state.advance(true));
}

#[test]
fn bounce_loop_stops_on_first_miss() {
    let mut state = BounceState::start();
    assert!(!state.advance(false));
    assert_eq!(state.segments, 0);
}

#[test]
fn row_blank_is_all_spaces() {
    let row = Row::blank(7, 4);
    assert_eq!(row.index, 7);
    assert_eq!(row.glyphs, vec![b' '; 4]);
}

#[test]
fn row_set_glyph_writes_one_column() {
    let mut row = Row::blank(0, 3);
    row.set_glyph(1, b'@');
    assert_eq!(row.glyphs, vec![b' ', b'@', b' ']);
    assert_eq!(row.width(), 3);
}

#[test]
fn collector_orders_rows_by_index_regardless_of_delivery_order() {
    let mut collector = FrameCollector::new(3);
    let mut r2 = Row::blank(2, 2);
    r2.set_glyph(0, b'c');
    let mut r0 = Row::blank(0, 2);
    r0.set_glyph(0, b'a');
    let mut r1 = Row::blank(1, 2);
    r1.set_glyph(0, b'b');
    collector.deliver(r2);
    collector.deliver(r0);
    collector.deliver(r1);
    assert!(collector.is_complete());
    let rows = collector.into_rows();
    assert_eq!(rows.len(), 3);
    for (i, row) in rows.iter().enumerate() {
        assert_eq!(row.index, i);
    }
    assert_eq!(rows[0].glyphs[0], b'a');
    assert_eq!(rows[1].glyphs[0], b'b');
    assert_eq!(rows[2].glyphs[0], b'c');
}

#[test]
fn collector_incomplete_until_every_row_delivered() {
    let mut collector = FrameCollector::new(2);
    assert!(!collector.is_complete());
    collector.deliver(Row::blank(1, 1));
    assert!(!collector.is_complete());
    collector.deliver(Row::blank(0, 1));
    assert!(collector.is_complete());
}

#[test]
fn collector_redelivery_overwrites() {
    let mut collector = FrameCollector::new(1);
    let mut first = Row::blank(0, 1);
    first.set_glyph(0, b'x');
    collector.deliver(first);
    let mut second = Row::blank(0, 1);
    second.set_glyph(0, b'y');
    collector.deliver(second);
    let rows = collector.into_rows();
    assert_eq!(rows[0].glyphs, vec![b'y']);
}

#[test]
fn update_fps_averages_with_instantaneous_rate() {
    assert_eq!(update_fps(0, 1_000_000), 0);
    assert_eq!(update_fps(10, 500_000), 6);
    assert_eq!(update_fps(60, 20_000), 55);
    assert_eq!(update_fps(1_000_000, 1), 1_000_000);
}
