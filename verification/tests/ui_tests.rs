use tui_core::geometry::{Rect, VecI2};
use tui_core::id::Id;
use tui_core::style::{Style, StyledText};
use tui_core::ui::{Layout, Ui};

fn chars(s: &str) -> Vec<char> {
    s.chars().collect()
}

fn all_layouts() -> Vec<Layout> {
    vec![
        Layout::TopLeftVertical,
        Layout::TopLeftHorizontal,
        Layout::TopRightVertical,
        Layout::TopRightHorizontal,
        Layout::BottomLeftVertical,
        Layout::BottomLeftHorizontal,
        Layout::BottomRightVertical,
        Layout::BottomRightHorizontal,
    ]
}

#[test]
fn zero_allocation_moves_nothing_in_all_eight_layouts() {
    let clip = Rect { x: 2, y: 3, width: 10, height: 6 };
    for layout in all_layouts() {
        let mut ui = Ui::new(layout, Id::new("t"), clip, 1);
        let before = ui.get_cursor();
        let r = ui.allocate_size(VecI2::new(0, 0));
        assert_eq!(r.width, 0);
        assert_eq!(r.height, 0);
        assert_eq!(ui.get_cursor(), before);
    }
}

#[test]
fn allocations_stack_along_the_primary_axis_only() {
    let clip = Rect { x: 0, y: 0, width: 10, height: 10 };
    let mut ui = Ui::new(Layout::TopLeftVertical, Id::new("t"), clip, 1);
    let first = ui.allocate_size(VecI2::new(4, 2));
    assert_eq!(first, Rect { x: 0, y: 0, width: 4, height: 2 });
    // The cross-axis (x) position is restored after the allocation.
    assert_eq!(ui.get_cursor(), VecI2::new(0, 2));
    let second = ui.allocate_size(VecI2::new(3, 1));
    assert_eq!(second, Rect { x: 0, y: 2, width: 3, height: 1 });
    assert_eq!(ui.get_cursor(), VecI2::new(0, 3));
}

#[test]
fn right_anchored_allocation_sweeps_leftward() {
    let clip = Rect { x: 0, y: 0, width: 10, height: 10 };
    let mut ui = Ui::new(Layout::TopRightHorizontal, Id::new("t"), clip, 1);
    assert_eq!(ui.get_cursor(), VecI2::new(10, 0));
    let r = ui.allocate_size(VecI2::new(4, 2));
    assert_eq!(r, Rect { x: 6, y: 0, width: 4, height: 2 });
    assert_eq!(ui.get_cursor(), VecI2::new(6, 0));
}

#[test]
fn out_of_bounds_requests_clamp() {
    let clip = Rect { x: 0, y: 0, width: 5, height: 5 };
    let mut ui = Ui::new(Layout::TopLeftVertical, Id::new("t"), clip, 1);
    let r = ui.allocate_size(VecI2::new(3, 100));
    // Layout never fails: the allocation clamps to the available space.
    assert_eq!(r, Rect { x: 0, y: 0, width: 3, height: 5 });
    assert_eq!(ui.get_cursor(), VecI2::new(0, 5));
}

#[test]
fn layout_direction_helpers() {
    assert!(Layout::TopLeftVertical.is_primary_vertical());
    assert!(Layout::BottomRightHorizontal.is_primary_horizontal());
    assert_eq!(Layout::TopRightHorizontal.to_vertical(), Layout::TopRightVertical);
    assert_eq!(Layout::BottomLeftVertical.to_horizontal(), Layout::BottomLeftHorizontal);
    assert_eq!(
        Layout::TopLeftVertical.opposite_primary_direction(),
        Layout::TopLeftHorizontal
    );
    assert_eq!(
        Layout::BottomRightHorizontal.opposite_primary_direction(),
        Layout::BottomRightVertical
    );
}

#[test]
fn child_scopes_fold_back_into_the_parent() {
    let clip = Rect { x: 0, y: 0, width: 10, height: 10 };
    let mut parent = Ui::new(Layout::TopLeftVertical, Id::new("t"), clip, 1);
    let mut child = parent.child_ui(parent.get_max(), Layout::TopLeftHorizontal);
    child.allocate_size(VecI2::new(3, 1));
    child.allocate_size(VecI2::new(2, 1));
    // The child stacked horizontally; folding its accumulated rectangle back
    // advances the parent's vertical cursor past it.
    parent.allocate_area(child.get_current());
    assert_eq!(parent.get_cursor(), VecI2::new(0, 1));
}

#[test]
fn gallery_splits_lines_and_sizes_them() {
    let ui = Ui::new(
        Layout::TopLeftVertical,
        Id::new("t"),
        Rect { x: 0, y: 0, width: 20, height: 5 },
        1,
    );
    let text = StyledText { text: chars("AB\nC"), style: Style::new() };
    let g = ui.create_gallery_at(VecI2::new(1, 1), &text);
    assert_eq!(g.bound, Rect { x: 1, y: 1, width: 2, height: 2 });
    assert_eq!(g.items.len(), 3);
    // The leading whole-text item is zero-sized (its clip draws nothing).
    assert_eq!(g.items[0].0, Rect { x: 1, y: 1, width: 0, height: 0 });
    assert_eq!(g.items[1].0, Rect { x: 1, y: 1, width: 2, height: 1 });
    assert_eq!(g.items[1].1.text, chars("AB"));
    assert_eq!(g.items[2].0, Rect { x: 1, y: 2, width: 1, height: 1 });
    assert_eq!(g.items[2].1.text, chars("C"));
}

#[test]
fn bottom_right_gallery_shifts_towards_its_anchor() {
    let ui = Ui::new(
        Layout::BottomRightVertical,
        Id::new("t"),
        Rect { x: 0, y: 0, width: 20, height: 5 },
        1,
    );
    let text = StyledText { text: chars("AB\nC"), style: Style::new() };
    let g = ui.create_gallery_at(VecI2::new(10, 4), &text);
    assert_eq!(g.bound, Rect { x: 8, y: 2, width: 2, height: 2 });
    assert_eq!(g.items[1].0, Rect { x: 8, y: 2, width: 2, height: 1 });
    assert_eq!(g.items[2].0, Rect { x: 8, y: 3, width: 1, height: 1 });
}

#[test]
fn minimum_size_grows_towards_the_anchor() {
    let clip = Rect { x: 0, y: 0, width: 10, height: 10 };
    let mut ui = Ui::new(Layout::TopLeftVertical, Id::new("t"), clip, 1);
    ui.allocate_size(VecI2::new(2, 1));
    ui.set_minimum_size(VecI2::new(6, 4));
    assert_eq!(ui.get_current().width, 6);
    assert_eq!(ui.get_current().height, 4);
    // Clamped to what the remaining region offers (the first allocation
    // already consumed one row of it).
    ui.set_minimum_size(VecI2::new(100, 100));
    assert_eq!(ui.get_current().width, 10);
    assert_eq!(ui.get_current().height, 9);
}
