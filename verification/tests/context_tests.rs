use tui_core::context::{u64_to_chars, Context};
use tui_core::focus::{Focus, NavDirection};
use tui_core::geometry::{Rect, VecI2};
use tui_core::id::Id;
use tui_core::input::{
    Event, KeyCode, KeyEvent, KeyEventKind, KeyModifiers, MoreInput, MouseButton,
    MouseButtonState, MouseEvent, MouseEventKind, MouseState,
};

fn chars(s: &str) -> Vec<char> {
    s.chars().collect()
}

#[test]
fn directional_focus_moves_down_then_stays() {
    // Rectangles at (0,0,5,1) and (0,3,5,1); pressing "down" moves focus to
    // the second; pressing "down" again (no candidate in front) leaves it.
    let id1 = Id::new("first");
    let id2 = Id::new("second");
    let r1 = Rect { x: 0, y: 0, width: 5, height: 1 };
    let r2 = Rect { x: 0, y: 3, width: 5, height: 1 };

    let mut focus = Focus::new();
    focus.push_id(id1, r1);
    focus.push_id(id2, r2);
    // Nothing focused yet: any request focuses the first registration.
    focus.resolve(NavDirection::Down);
    assert_eq!(focus.focused_id(), Some(id1));

    focus.push_id(id1, r1);
    focus.push_id(id2, r2);
    focus.resolve(NavDirection::Down);
    assert_eq!(focus.focused_id(), Some(id2));

    focus.push_id(id1, r1);
    focus.push_id(id2, r2);
    focus.resolve(NavDirection::Down);
    assert_eq!(focus.focused_id(), Some(id2));
}

#[test]
fn sequential_focus_wraps() {
    let id1 = Id::new("a");
    let id2 = Id::new("b");
    let id3 = Id::new("c");
    let r = Rect { x: 0, y: 0, width: 1, height: 1 };
    let mut focus = Focus::new();
    focus.push_id(id1, r);
    focus.push_id(id2, r);
    focus.push_id(id3, r);
    focus.resolve(NavDirection::Forward);
    assert_eq!(focus.focused_id(), Some(id1));
    for _ in 0..3 {
        focus.push_id(id1, r);
        focus.push_id(id2, r);
        focus.push_id(id3, r);
        focus.resolve(NavDirection::Forward);
    }
    // Three forward steps from the first entry wrap back to it.
    assert_eq!(focus.focused_id(), Some(id1));
    focus.push_id(id1, r);
    focus.push_id(id2, r);
    focus.push_id(id3, r);
    focus.resolve(NavDirection::Backward);
    assert_eq!(focus.focused_id(), Some(id3));
}

#[test]
fn a_disappeared_widget_loses_focus() {
    let id1 = Id::new("a");
    let id2 = Id::new("b");
    let r = Rect { x: 0, y: 0, width: 1, height: 1 };
    let mut focus = Focus::new();
    focus.push_id(id1, r);
    focus.resolve(NavDirection::Forward);
    assert_eq!(focus.focused_id(), Some(id1));
    // The next frame only registers the other widget.
    focus.push_id(id2, r);
    focus.resolve(NavDirection::Idle);
    assert_eq!(focus.focused_id(), None);
}

#[test]
fn redraw_request_selects_the_min_tick() {
    // Tick bounds 10 ms / 500 ms: a frame that requested a redraw polls with
    // the 10 ms timeout, an idle one with 500 ms.
    let mut ctx = Context::new(VecI2::new(10, 3));
    ctx.set_min_tick(10);
    ctx.set_max_tick(500);
    assert_eq!(ctx.tick_timeout(), 500);
    ctx.request_redraw();
    assert_eq!(ctx.tick_timeout(), 10);
    assert!(ctx.take_redraw_request());
    assert_eq!(ctx.tick_timeout(), 500);
}

#[test]
fn a_frame_swaps_buffers_and_reports_diagnostics() {
    let mut ctx = Context::new(VecI2::new(10, 3));
    ctx.start_frame();
    ctx.draw(
        &chars("hey"),
        tui_core::style::Style::new(),
        VecI2::new(0, 0),
        1,
        Rect { x: 0, y: 0, width: u16::MAX, height: u16::MAX },
    );
    let finished = ctx.get_finished_frame();
    assert_eq!(finished.current_frame.len(), 3);
    assert_eq!(finished.last_frame.len(), 0);
    assert!(!finished.resized);
    let more = ctx.finish_frame(42);
    assert_eq!(more, MoreInput::Yes);
    let report = ctx.previous_frame_report();
    assert_eq!(report.bytes_written, 42);
    assert_eq!(report.total_text_len, 3);
    assert_eq!(report.total_styles, 1);
    assert_eq!(ctx.get_frame(), 1);
    // The next frame diffs against the three cells just drawn.
    let finished = ctx.get_finished_frame();
    assert_eq!(finished.last_frame.len(), 3);
}

#[test]
fn a_resize_event_clears_the_buffers_next_frame() {
    let mut ctx = Context::new(VecI2::new(10, 3));
    assert_eq!(ctx.handle_event(&Event::Resize(20, 5)), MoreInput::Yes);
    ctx.start_frame();
    assert_eq!(ctx.screen_rect(), Rect { x: 0, y: 0, width: 20, height: 5 });
    let finished = ctx.get_finished_frame();
    assert!(finished.resized);
}

#[test]
fn interact_reports_hover_and_clicks() {
    let mut ctx = Context::new(VecI2::new(20, 10));
    let area = Rect { x: 2, y: 2, width: 4, height: 2 };
    // Move the mouse into the area and press the left button there.
    ctx.handle_event(&Event::Mouse(MouseEvent {
        kind: MouseEventKind::Down(MouseButton::Left),
        column: 3,
        row: 3,
    }));
    let response = ctx.interact(Id::new("button"), area);
    assert!(response.hovered());
    assert!(response.clicked());
    assert!(response.pressed());
    assert!(!response.released());
    assert_eq!(response.mouse_pos, Some(VecI2::new(3, 3)));
}

#[test]
fn enter_clicks_the_focused_widget() {
    let mut ctx = Context::new(VecI2::new(20, 10));
    let area = Rect { x: 0, y: 0, width: 4, height: 1 };
    let id = Id::new("ok");
    // Frame 1: the widget registers; Tab arrives with the frame's input.
    ctx.interact(id, area);
    ctx.handle_event(&Event::Key(KeyEvent {
        code: KeyCode::Tab,
        modifiers: KeyModifiers::none(),
        kind: KeyEventKind::Press,
    }));
    // Frame 2 begins: the Tab press focuses the widget; it re-registers and
    // already reads as hovered.
    ctx.start_frame();
    let response = ctx.interact(id, area);
    assert!(response.hovered());
    ctx.finish_frame(0);
    // Enter arrives; frame 3 keeps the focus (the widget re-registered), and
    // the focused widget reads Enter as a click.
    ctx.handle_event(&Event::Key(KeyEvent {
        code: KeyCode::Enter,
        modifiers: KeyModifiers::none(),
        kind: KeyEventKind::Press,
    }));
    ctx.start_frame();
    let response = ctx.interact(id, area);
    assert!(response.clicked());
    assert!(response.hovered());
    assert!(ctx.should_redraw());
}

#[test]
fn mouse_buttons_step_through_their_states() {
    let mut state = MouseState::new();
    let pos = VecI2::new(1, 1);
    state.handle_event(MouseEvent {
        kind: MouseEventKind::Down(MouseButton::Left),
        column: 1,
        row: 1,
    });
    assert_eq!(state.buttons.primary, MouseButtonState::Down(pos));
    assert!(state.buttons.primary.is_down());
    // Frame end: the press becomes held, and asks for an immediate render.
    assert_eq!(state.next_state(), MoreInput::No);
    assert_eq!(state.buttons.primary, MouseButtonState::Held(pos));
    state.handle_event(MouseEvent {
        kind: MouseEventKind::Drag(MouseButton::Left),
        column: 4,
        row: 1,
    });
    assert_eq!(
        state.buttons.primary,
        MouseButtonState::Drag { start: pos, current: VecI2::new(4, 1) }
    );
    state.handle_event(MouseEvent {
        kind: MouseEventKind::Up(MouseButton::Left),
        column: 5,
        row: 1,
    });
    assert_eq!(
        state.buttons.primary,
        MouseButtonState::DragReleased { start: pos, released: VecI2::new(5, 1) }
    );
    assert!(state.buttons.primary.is_up());
    assert_eq!(state.next_state(), MoreInput::No);
    assert_eq!(state.buttons.primary, MouseButtonState::UnPressed);
    assert_eq!(state.next_state(), MoreInput::Yes);
}

#[test]
fn scrolls_coalesce_and_reset_each_frame() {
    let mut state = MouseState::new();
    for _ in 0..3 {
        assert_eq!(
            state.handle_event(MouseEvent {
                kind: MouseEventKind::ScrollUp,
                column: 0,
                row: 0,
            }),
            MoreInput::Yes
        );
    }
    assert_eq!(state.delta_scroll, 3);
    state.handle_event(MouseEvent { kind: MouseEventKind::ScrollDown, column: 0, row: 0 });
    assert_eq!(state.delta_scroll, 2);
    state.next_state();
    assert_eq!(state.delta_scroll, 0);
}

#[test]
fn keyboard_gathers_typed_text() {
    let mut ctx = Context::new(VecI2::new(4, 4));
    for (code, kind) in [
        (KeyCode::Char('h'), KeyEventKind::Press),
        (KeyCode::Char('i'), KeyEventKind::Press),
        (KeyCode::Enter, KeyEventKind::Press),
        (KeyCode::Char('z'), KeyEventKind::Release),
    ] {
        ctx.handle_event(&Event::Key(KeyEvent {
            code,
            modifiers: KeyModifiers::none(),
            kind,
        }));
    }
    ctx.handle_event(&Event::Paste(chars("ok")));
    assert_eq!(*ctx.input().keyboard.get_input(), chars("hi\nok"));
}

#[test]
fn decimal_rendering_is_exact() {
    assert_eq!(u64_to_chars(0), vec!['0']);
    assert_eq!(u64_to_chars(7), vec!['7']);
    assert_eq!(u64_to_chars(907), vec!['9', '0', '7']);
    assert_eq!(u64_to_chars(18446744073709551615), chars("18446744073709551615"));
}

#[test]
fn an_identity_clash_paints_visible_markers() {
    let mut ctx = Context::new(VecI2::new(40, 5));
    let id = Id::new("clash");
    let r1 = Rect { x: 0, y: 0, width: 3, height: 1 };
    let r2 = Rect { x: 0, y: 2, width: 3, height: 1 };
    // A first registration draws nothing.
    ctx.check_for_id_clash(id, r1);
    assert_eq!(ctx.get_finished_frame().current_frame.len(), 0);
    // A second, different rectangle under the same identity paints a marker
    // at each of the two rectangles.
    ctx.check_for_id_clash(id, r2);
    let cells = ctx.get_finished_frame().current_frame;
    assert!(!cells.is_empty());
    let first: String = cells
        .iter()
        .filter(|c| c.2.y == 0)
        .flat_map(|c| c.0.iter())
        .collect();
    let second: String = cells
        .iter()
        .filter(|c| c.2.y == 2)
        .flat_map(|c| c.0.iter())
        .collect();
    let digits: String = u64_to_chars(id.value() % 1000).iter().collect();
    assert_eq!(first, format!("First use of {}", digits));
    assert_eq!(second, format!("Second use of {}", digits));
}

#[test]
fn reusing_one_rectangle_marks_a_double_use() {
    let mut ctx = Context::new(VecI2::new(40, 5));
    let id = Id::new("again");
    let r = Rect { x: 0, y: 1, width: 3, height: 1 };
    ctx.check_for_id_clash(id, r);
    ctx.check_for_id_clash(id, r);
    let cells = ctx.get_finished_frame().current_frame;
    let row: String = cells
        .iter()
        .filter(|c| c.2.y == 1)
        .flat_map(|c| c.0.iter())
        .collect();
    let digits: String = u64_to_chars(id.value() % 1000).iter().collect();
    assert_eq!(row, format!("Double use of {}", digits));
}
