use imagine::fixed::UNIT;
use imagine::path::PathBuilder;
use imagine::text::{Font, Glyph, Text};
use imagine::world::{Bounds, World};

fn square_glyph() -> Glyph {
    // A square outline spanning one unit, with a slightly wider advance.
    let mut b = PathBuilder::new();
    b.move_to(0, 0);
    b.line_to(UNIT, 0);
    b.line_to(UNIT, UNIT);
    b.line_to(0, UNIT);
    b.close();
    Glyph {
        points: b.temp_points,
        segments: b.temp_segments,
        bounds: Bounds { min_x: 0, min_y: 0, max_x: UNIT, max_y: UNIT },
        advance: UNIT + UNIT / 4,
    }
}

#[test]
fn font_lookup_finds_registered_glyphs() {
    let mut font = Font::new();
    font.add_glyph('a', square_glyph());
    font.add_glyph('b', square_glyph());
    assert_eq!(font.lookup('a'), Some(0));
    assert_eq!(font.lookup('b'), Some(1));
    assert_eq!(font.lookup('c'), None);
}

#[test]
fn text_layout_builds_one_path() {
    let mut world = World::new();
    let mut font = Font::new();
    font.add_glyph('a', square_glyph());
    let content: Vec<char> = vec!['a', ' ', 'a', '\n', 'a'];
    let text = Text::new(&mut world, &content, 2 * UNIT, &font);
    assert_eq!(text.path.id, 0);
    assert_eq!(world.paths.len(), 1);
    // Three glyphs of four line records each.
    assert_eq!(text.placed, vec![0, 0, 0]);
    assert_eq!(world.paths[0].path_segments, 12);
    assert_eq!(world.controls.len(), 12);
}

#[test]
fn text_skips_uncovered_characters() {
    let mut world = World::new();
    let mut font = Font::new();
    font.add_glyph('a', square_glyph());
    let content: Vec<char> = vec!['x', 'a', 'y'];
    Text::new(&mut world, &content, 2 * UNIT, &font);
    // Only the covered character contributed records.
    assert_eq!(world.paths[0].path_segments, 4);
}

#[test]
fn fit_height_scales_uniformly() {
    let mut b = PathBuilder::new();
    b.move_to(0, 0);
    b.line_to(4 * UNIT, 2 * UNIT);
    b.fit_height(UNIT);
    // The box was two units tall; fitting to one unit halves everything.
    assert_eq!(&b.temp_points[..], &[0, 0, 2 * UNIT, UNIT]);
    let bounds = b.temp_bounds.unwrap();
    assert_eq!(bounds, Bounds { min_x: 0, min_y: 0, max_x: 2 * UNIT, max_y: UNIT });
}

#[test]
fn builder_append_concatenates_records() {
    let mut a = PathBuilder::new();
    a.move_to(0, 0);
    a.line_to(UNIT, 0);
    let mut b = PathBuilder::new();
    b.move_to(0, UNIT);
    b.line_to(UNIT, UNIT);
    a.append(&b);
    assert_eq!(a.temp_segments.len(), 2);
    assert_eq!(a.temp_points.len(), 8);
    assert_eq!(&a.temp_points[4..], &[0, UNIT, UNIT, UNIT]);
}
