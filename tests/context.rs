use xilem::event::{mouse_move_targets, LifeCycle, ViewContext};
use xilem::flags::{ChangeFlags, LAYOUT, PAINT, UPDATE};
use xilem::geometry::{Point, Rect};
use xilem::id::Id;

fn sample() -> ViewContext {
    ViewContext {
        window_origin: Point::new(10, 10),
        clip: Rect::new(0, 0, 50, 50),
        mouse_position: Some(Point::new(20, 30)),
    }
}

#[test]
fn translate_moves_origin_clip_and_pointer() {
    let c = sample().translate_to(Point::new(5, 5));
    assert_eq!(c.window_origin, Point::new(15, 15));
    assert_eq!(c.clip, Rect::new(-5, -5, 45, 45));
    assert_eq!(c.mouse_position, Some(Point::new(15, 25)));
}

#[test]
fn translate_without_pointer() {
    let mut c = sample();
    c.mouse_position = None;
    let t = c.translate_to(Point::new(-3, 4));
    assert_eq!(t.window_origin, Point::new(7, 14));
    assert_eq!(t.clip, Rect::new(3, -4, 53, 46));
    assert_eq!(t.mouse_position, None);
}

#[test]
fn translate_twice_is_translate_by_sum() {
    let c = sample();
    let twice = c.translate_to(Point::new(5, -2)).translate_to(Point::new(7, 9));
    let once = c.translate_to(Point::new(12, 7));
    assert_eq!(twice, once);
}

#[test]
fn lifecycle_carries_context() {
    let n = LifeCycle::ViewContextChanged(sample());
    assert_eq!(n, LifeCycle::ViewContextChanged(sample()));
    assert_ne!(n, LifeCycle::TreeUpdate);
    assert_ne!(LifeCycle::HotChanged(true), LifeCycle::HotChanged(false));
}

#[test]
fn mouse_move_with_no_target_goes_nowhere() {
    let r = mouse_move_targets(None, &Vec::new());
    assert!(r.is_empty());
}

#[test]
fn mouse_move_prefers_active_widget() {
    let hot = vec![Id::from_raw(1), Id::from_raw(2)];
    assert_eq!(mouse_move_targets(Some(Id::from_raw(5)), &hot), vec![Id::from_raw(5)]);
    assert_eq!(mouse_move_targets(None, &hot), hot);
}

#[test]
fn flags_union_and_combine() {
    let a = ChangeFlags::from_bits(UPDATE);
    let b = ChangeFlags::from_bits(PAINT);
    let u = a.union(b);
    assert_eq!(u.bits, UPDATE | PAINT);
    assert!(u.contains(a));
    assert!(u.contains(b));
    assert!(!a.contains(b));
    let children = vec![ChangeFlags::from_bits(PAINT), ChangeFlags::empty(), ChangeFlags::from_bits(LAYOUT)];
    let c = ChangeFlags::combine(a, &children);
    assert_eq!(c.bits, UPDATE | PAINT | LAYOUT);
    for ch in &children {
        assert!(c.contains(*ch));
    }
    assert!(ChangeFlags::combine(ChangeFlags::empty(), &Vec::new()).is_empty());
    assert_eq!(ChangeFlags::all().bits, 31);
}
