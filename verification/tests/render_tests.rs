use tui_core::geometry::VecI2;
use tui_core::render::{render_frame, Cursor, TermCommand};
use tui_core::style::{Color, Style};

fn chars(s: &str) -> Vec<char> {
    s.chars().collect()
}

fn cell(s: &str, style: Style, x: u16, y: u16) -> (Vec<char>, Style, VecI2) {
    (chars(s), style, VecI2::new(x, y))
}

#[test]
fn identical_frames_emit_nothing() {
    let style = Style::new().forground(Color::Green);
    let cells = vec![cell("a", style, 0, 0), cell("b", style, 1, 0), cell("c", style, 4, 2)];
    let cmds = render_frame(&cells, &cells, false, None, None);
    assert_eq!(cmds, Vec::<TermCommand>::new());
}

#[test]
fn identical_frames_with_a_cursor_only_place_the_cursor() {
    let style = Style::new();
    let cells = vec![cell("a", style, 0, 0)];
    let cursor = Some(Cursor { x: 3, y: 1 });
    let cmds = render_frame(&cells, &cells, false, cursor, cursor);
    assert_eq!(cmds, vec![TermCommand::MoveTo(3, 1)]);
}

#[test]
fn a_new_cell_is_drawn_and_a_stale_cell_erased() {
    let style = Style::new().background(Color::Blue);
    let current = vec![cell("x", style, 2, 1)];
    let previous = vec![cell("y", style, 5, 1)];
    let cmds = render_frame(&current, &previous, false, None, None);
    // Draw the new cell (move, attributes, colours, print), then erase the
    // stale one with a blank in the default style.
    let prints: Vec<&TermCommand> = cmds
        .iter()
        .filter(|c| matches!(c, TermCommand::Print(_)))
        .collect();
    assert_eq!(prints.len(), 2);
    assert_eq!(*prints[0], TermCommand::Print(chars("x")));
    assert_eq!(*prints[1], TermCommand::Print(chars(" ")));
    assert!(cmds.contains(&TermCommand::MoveTo(2, 1)));
    // The erase happens at the stale cell's column, on the same row.
    assert!(cmds.contains(&TermCommand::MoveToColumn(5)));
}

#[test]
fn contiguous_prints_need_no_move_between_them() {
    let style = Style::new();
    let current = vec![cell("a", style, 0, 0), cell("b", style, 1, 0)];
    let previous = Vec::new();
    let cmds = render_frame(&current, &previous, false, None, None);
    let moves = cmds
        .iter()
        .filter(|c| {
            matches!(
                c,
                TermCommand::MoveTo(..) | TermCommand::MoveToRow(_) | TermCommand::MoveToColumn(_)
            )
        })
        .count();
    assert_eq!(moves, 1);
    let styles = cmds
        .iter()
        .filter(|c| {
            matches!(
                c,
                TermCommand::SetAttributes(_)
                    | TermCommand::SetForeground(_)
                    | TermCommand::SetBackground(_)
            )
        })
        .count();
    // One attribute set, one foreground, one background: nothing repeated.
    assert_eq!(styles, 3);
}

#[test]
fn a_resize_clears_the_whole_screen_first() {
    let current = Vec::new();
    let previous = Vec::new();
    let cmds = render_frame(&current, &previous, true, None, None);
    assert_eq!(cmds, vec![TermCommand::ClearAll]);
}

#[test]
fn cursor_visibility_follows_the_request() {
    let cells: Vec<(Vec<char>, Style, VecI2)> = Vec::new();
    // The cursor appears: show it, then move to it.
    let cmds = render_frame(&cells, &cells, false, Some(Cursor { x: 1, y: 2 }), None);
    assert_eq!(cmds, vec![TermCommand::ShowCursor, TermCommand::MoveTo(1, 2)]);
    // The cursor disappears: hide it.
    let cmds = render_frame(&cells, &cells, false, None, Some(Cursor { x: 1, y: 2 }));
    assert_eq!(cmds, vec![TermCommand::HideCursor]);
}

#[test]
fn changed_content_at_one_position_is_redrawn_once() {
    let style = Style::new();
    let current = vec![cell("n", style, 3, 3)];
    let previous = vec![cell("o", style, 3, 3)];
    let cmds = render_frame(&current, &previous, false, None, None);
    let prints: Vec<&TermCommand> = cmds
        .iter()
        .filter(|c| matches!(c, TermCommand::Print(_)))
        .collect();
    assert_eq!(prints.len(), 1);
    assert_eq!(*prints[0], TermCommand::Print(chars("n")));
}
