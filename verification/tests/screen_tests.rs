use tui_core::geometry::{Rect, VecI2};
use tui_core::screen::{char_display_width, Screen};
use tui_core::style::{Attribute, Color, Style};

fn chars(s: &str) -> Vec<char> {
    s.chars().collect()
}

fn full_clip() -> Rect {
    Rect { x: 0, y: 0, width: u16::MAX, height: u16::MAX }
}

fn style_x() -> Style {
    Style::new().forground(Color::Red)
}

fn style_y() -> Style {
    Style::new().background(Color::Blue)
}

#[test]
fn char_widths_come_from_the_tables() {
    // A wrapper that handed back a constant or its argument would fail here.
    assert_eq!(char_display_width('A'), 1);
    assert_eq!(char_display_width(' '), 1);
    // Combining acute accent: zero columns.
    assert_eq!(char_display_width('\u{0301}'), 0);
    // A full-width CJK character: two columns.
    assert_eq!(char_display_width('\u{3042}'), 2);
    // A control character reports no width.
    assert_eq!(char_display_width('\u{0007}'), 0);
}

#[test]
fn resize_leaves_an_empty_buffer() {
    let mut screen = Screen::new();
    screen.resize(VecI2::new(10, 3));
    assert_eq!(screen.iter().len(), 0);
    screen.push_text(&chars("A"), style_x(), VecI2::new(0, 0), 1, full_clip());
    assert_eq!(screen.iter().len(), 1);
    screen.resize(VecI2::new(10, 3));
    assert_eq!(screen.iter().len(), 0);
}

#[test]
fn equal_layer_overwrites() {
    // A 10x3 screen; "AB" then "CD" at (0,0) on the same layer: the later
    // run wins both cells.
    let mut screen = Screen::new();
    screen.resize(VecI2::new(10, 3));
    screen.push_text(&chars("AB"), style_x(), VecI2::new(0, 0), 1, full_clip());
    screen.push_text(&chars("CD"), style_y(), VecI2::new(0, 0), 1, full_clip());
    let cells = screen.iter();
    assert_eq!(cells.len(), 2);
    assert_eq!(cells[0].0, chars("C"));
    assert_eq!(cells[0].1, style_y());
    assert_eq!(cells[0].2, VecI2::new(0, 0));
    assert_eq!(cells[1].0, chars("D"));
    assert_eq!(cells[1].1, style_y());
    assert_eq!(cells[1].2, VecI2::new(1, 0));
}

#[test]
fn lower_layer_is_rejected() {
    // As above, but the second run sits on a lower layer: the first stays.
    let mut screen = Screen::new();
    screen.resize(VecI2::new(10, 3));
    screen.push_text(&chars("AB"), style_x(), VecI2::new(0, 0), 2, full_clip());
    screen.push_text(&chars("CD"), style_y(), VecI2::new(0, 0), 1, full_clip());
    let cells = screen.iter();
    assert_eq!(cells.len(), 2);
    assert_eq!(cells[0].0, chars("A"));
    assert_eq!(cells[0].1, style_x());
    assert_eq!(cells[0].2, VecI2::new(0, 0));
    assert_eq!(cells[1].0, chars("B"));
    assert_eq!(cells[1].1, style_x());
    assert_eq!(cells[1].2, VecI2::new(1, 0));
}

#[test]
fn strictly_increasing_layers_leave_the_last_write() {
    let mut screen = Screen::new();
    screen.resize(VecI2::new(4, 1));
    screen.push_text(&chars("a"), style_x(), VecI2::new(2, 0), 1, full_clip());
    screen.push_text(&chars("b"), style_x(), VecI2::new(2, 0), 2, full_clip());
    screen.push_text(&chars("c"), style_y(), VecI2::new(2, 0), 3, full_clip());
    let cells = screen.iter();
    assert_eq!(cells.len(), 1);
    assert_eq!(cells[0].0, chars("c"));
    assert_eq!(cells[0].1, style_y());
    assert_eq!(cells[0].2, VecI2::new(2, 0));
}

#[test]
fn round_trip_drain_repeats_identically() {
    // Write a run, drain, write the identical run, drain again: both drains
    // yield the same (text, style, position) triples.
    let mut screen = Screen::new();
    screen.resize(VecI2::new(8, 2));
    let style = style_x().set_attribute(Attribute::Bold);
    screen.push_text(&chars("hi!"), style, VecI2::new(1, 1), 3, full_clip());
    let first = screen.drain();
    assert_eq!(screen.iter().len(), 0);
    screen.push_text(&chars("hi!"), style, VecI2::new(1, 1), 3, full_clip());
    let second = screen.drain();
    assert_eq!(first, second);
    assert_eq!(first.len(), 3);
    assert_eq!(first[0].2, VecI2::new(1, 1));
    assert_eq!(first[2].2, VecI2::new(3, 1));
}

#[test]
fn clipping_is_per_character() {
    // Characters outside the clip are consumed (the cursor advances) but not
    // written.
    let mut screen = Screen::new();
    screen.resize(VecI2::new(10, 1));
    let clip = Rect { x: 2, y: 0, width: 2, height: 1 };
    screen.push_text(&chars("abcdef"), style_x(), VecI2::new(0, 0), 1, clip);
    let cells = screen.iter();
    assert_eq!(cells.len(), 2);
    assert_eq!(cells[0].0, chars("c"));
    assert_eq!(cells[0].2, VecI2::new(2, 0));
    assert_eq!(cells[1].0, chars("d"));
    assert_eq!(cells[1].2, VecI2::new(3, 0));
}

#[test]
fn zero_width_characters_join_the_next_cell() {
    let mut screen = Screen::new();
    screen.resize(VecI2::new(5, 1));
    let mut text = vec!['e'];
    text.push('\u{0301}');
    text.push('x');
    screen.push_text(&text, style_x(), VecI2::new(0, 0), 1, full_clip());
    let cells = screen.iter();
    assert_eq!(cells.len(), 2);
    assert_eq!(cells[0].0, chars("e"));
    // The combining mark travels with the following base character.
    assert_eq!(cells[1].0, vec!['\u{0301}', 'x']);
    assert_eq!(cells[1].2, VecI2::new(1, 0));
}

#[test]
fn wide_glyphs_occupy_and_erase_atomically() {
    let mut screen = Screen::new();
    screen.resize(VecI2::new(6, 1));
    // A two-column glyph at column 0.
    screen.push_text(&chars("\u{3042}"), style_x(), VecI2::new(0, 0), 1, full_clip());
    assert_eq!(screen.iter().len(), 1);
    // Overwriting its continuation column erases the whole run.
    screen.push_text(&chars("z"), style_y(), VecI2::new(1, 0), 2, full_clip());
    let cells = screen.iter();
    assert_eq!(cells.len(), 1);
    assert_eq!(cells[0].0, chars("z"));
    assert_eq!(cells[0].2, VecI2::new(1, 0));
}

#[test]
fn style_pool_deduplicates_adjacent_styles() {
    let mut screen = Screen::new();
    screen.resize(VecI2::new(10, 1));
    screen.push_text(&chars("a"), style_x(), VecI2::new(0, 0), 1, full_clip());
    screen.push_text(&chars("b"), style_x(), VecI2::new(1, 0), 1, full_clip());
    assert_eq!(screen.num_styles(), 1);
    screen.push_text(&chars("c"), style_y(), VecI2::new(2, 0), 1, full_clip());
    assert_eq!(screen.num_styles(), 2);
    // A run that draws nothing appends no style entry.
    screen.push_text(&chars("x"), style_x(), VecI2::new(50, 0), 1, full_clip());
    assert_eq!(screen.num_styles(), 2);
}

#[test]
fn repeated_glyphs_reuse_the_text_pool() {
    let mut screen = Screen::new();
    screen.resize(VecI2::new(10, 1));
    screen.push_text(&chars("--"), style_x(), VecI2::new(0, 0), 1, full_clip());
    // Both dashes merge into one pool entry.
    assert_eq!(screen.text_len(), 1);
}
