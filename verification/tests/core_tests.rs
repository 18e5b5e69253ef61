use tui_core::geometry::{Rect, VecI2};
use tui_core::id::{hash, Id, StoredKind, TypeId};
use tui_core::memory::{Memory, StoredValue};

#[test]
pub fn test() {
    let mut test = Memory::new();
    test.insert(Id::new("Bruh"), StoredValue::I32(12));
    test.insert(Id::new("Nice"), StoredValue::Vec2(VecI2::new(420, 69)));

    let _ = test.get_or(Id::new("NOOOO"), StoredValue::I32(666));

    println!("{:#?}", test.get(Id::new("Bruh"), StoredKind::I32));
    println!("{:#?}", test.get(Id::new("Nice"), StoredKind::Vec2));
    println!("{:#?}", test.get(Id::new("NOOOO"), StoredKind::I32));
}

#[test]
fn memory_returns_what_was_stored() {
    let mut mem = Memory::new();
    let id = Id::new("counter");
    assert_eq!(mem.get(id, StoredKind::USize), None);
    assert_eq!(mem.get_or(id, StoredValue::USize(7)), StoredValue::USize(7));
    assert_eq!(mem.get(id, StoredKind::USize), Some(StoredValue::USize(7)));
    mem.insert(id, StoredValue::USize(9));
    assert_eq!(mem.get_or(id, StoredValue::USize(7)), StoredValue::USize(9));
    // A different shape under the same identity has its own slot.
    assert_eq!(mem.get(id, StoredKind::Bool), None);
    mem.insert(id, StoredValue::Bool(true));
    assert_eq!(mem.get(id, StoredKind::Bool), Some(StoredValue::Bool(true)));
    assert_eq!(mem.get(id, StoredKind::USize), Some(StoredValue::USize(9)));
}

#[test]
fn identities_are_stable() {
    assert_eq!(Id::new("button"), Id::new("button"));
    assert_ne!(Id::new("button").value(), Id::new("label").value());
    assert_eq!(Id::new("a").with("b"), Id::new("a").with("b"));
    assert_ne!(Id::new("a").with("b"), Id::new("a").with("c"));
    assert_eq!(Id::from_u64(42).value(), 42);
    let t = TypeId::of(StoredKind::Bool);
    let i = Id::from_u64(0x55);
    assert_eq!(hash(t, i), t.value() ^ 0x55);
}

#[test]
fn rect_arithmetic_saturates() {
    let mut r = Rect { x: 2, y: 3, width: 4, height: 5 };
    r.expand_evenly(1);
    assert_eq!(r, Rect { x: 1, y: 2, width: 6, height: 7 });
    r.shrink_evenly(1);
    assert_eq!(r, Rect { x: 2, y: 3, width: 4, height: 5 });
    r.shrink_evenly(10);
    assert_eq!(r, Rect { x: 12, y: 13, width: 0, height: 0 });

    let mut near_max = Rect { x: 65530, y: 0, width: 10, height: 1 };
    assert_eq!(near_max.top_right(), VecI2::new(65535, 0));
    near_max.expand_evenly(10);
    assert_eq!(near_max.x, 65520);
    assert_eq!(near_max.width, 30);
}

#[test]
fn rect_containment_and_overlap() {
    let r = Rect { x: 1, y: 1, width: 3, height: 2 };
    assert!(r.contains(VecI2::new(1, 1)));
    assert!(r.contains(VecI2::new(3, 2)));
    assert!(!r.contains(VecI2::new(4, 1)));
    assert!(!r.contains(VecI2::new(0, 1)));

    let other = Rect { x: 3, y: 2, width: 3, height: 3 };
    assert!(r.overlap(&other));
    let apart = Rect { x: 4, y: 1, width: 2, height: 2 };
    assert!(!r.overlap(&apart));
    let empty = Rect { x: 1, y: 1, width: 0, height: 5 };
    assert!(!r.overlap(&empty));
}

#[test]
fn rect_corner_moves() {
    let mut r = Rect { x: 2, y: 2, width: 4, height: 4 };
    r.move_top_left_to(VecI2::new(0, 0));
    assert_eq!(r, Rect { x: 0, y: 0, width: 6, height: 6 });
    r.move_bottom_right_to(VecI2::new(3, 3));
    assert_eq!(r, Rect { x: 0, y: 0, width: 3, height: 3 });
    let mut s = Rect { x: 5, y: 5, width: 2, height: 2 };
    s.move_bottom_right_to(VecI2::new(3, 3));
    assert_eq!(s, Rect { x: 3, y: 3, width: 0, height: 0 });
    let mut t = Rect { x: 1, y: 1, width: 2, height: 2 };
    t.expand_to_include(&Rect { x: 5, y: 0, width: 2, height: 1 });
    assert_eq!(t, Rect { x: 1, y: 0, width: 6, height: 3 });
}

#[test]
fn vec2_saturating_ops() {
    let a = VecI2::new(65535, 2);
    let b = VecI2::new(10, 3);
    assert_eq!(a.plus(b), VecI2::new(65535, 5));
    assert_eq!(b.minus(a), VecI2::new(0, 1));
}
