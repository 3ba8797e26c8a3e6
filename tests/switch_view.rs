use xilem::flags::PAINT;
use xilem::id::{Cx, Id};
use xilem::lens::Slot;
use xilem::message::{MessageResult, Payload};
use xilem::view::switch::{switch, Switch};

#[test]
fn build_from_false_shows_off() {
    let mut state = vec![false];
    let view = switch(&mut state, Slot { index: 0 });
    let mut cx = Cx::new();
    let (id, (), element) = view.build(&mut cx);
    assert!(!element.is_on());
    assert_eq!(id, Id::from_raw(0));
    assert_eq!(element.id_path, vec![id]);
    assert!(cx.id_path().is_empty());
    assert_eq!(state, vec![false]);
}

#[test]
fn click_toggles_state_and_is_inert() {
    let mut state = vec![false, true];
    let view = Switch::new(&mut state, Slot { index: 0 });
    let mut cx = Cx::new();
    let (_, mut st, mut element) = view.build(&mut cx);
    let payload = element.click();
    assert_eq!(payload, Payload::SwitchToggled);
    assert!(element.is_on());
    let r: MessageResult<()> = view.message(&[], &mut st, payload, &mut state);
    assert_eq!(r, MessageResult::Nop);
    assert_eq!(state, vec![true, true]);
}

#[test]
fn rebuild_after_click_reports_nothing() {
    let mut state = vec![false];
    let view = switch(&mut state, Slot { index: 0 });
    let mut cx = Cx::new();
    let (mut id, mut st, mut element) = view.build(&mut cx);
    let payload = element.click();
    let _: MessageResult<()> = view.message(&[], &mut st, payload, &mut state);
    let next = switch(&mut state, Slot { index: 0 });
    assert!(next.is_on);
    let before = id;
    let flags = next.rebuild(&mut cx, &view, &mut id, &mut st, &mut element);
    assert!(flags.is_empty());
    assert!(element.is_on());
    assert_eq!(id, before);
}

#[test]
fn rebuild_with_new_value_asks_for_paint() {
    let mut state = vec![false];
    let view = switch(&mut state, Slot { index: 0 });
    let mut cx = Cx::new();
    let (mut id, mut st, mut element) = view.build(&mut cx);
    state[0] = true;
    let next = switch(&mut state, Slot { index: 0 });
    let flags = next.rebuild(&mut cx, &view, &mut id, &mut st, &mut element);
    assert_eq!(flags.bits, PAINT);
    assert!(element.is_on());
    assert_eq!(id, Id::from_raw(0));
    assert_eq!(cx.next, 1);
}

#[test]
fn rebuild_unchanged_is_noop() {
    let mut state = vec![true];
    let view = switch(&mut state, Slot { index: 0 });
    let mut cx = Cx::new();
    let (mut id, mut st, mut element) = view.build(&mut cx);
    let next = switch(&mut state, Slot { index: 0 });
    let flags = next.rebuild(&mut cx, &view, &mut id, &mut st, &mut element);
    assert_eq!(flags.bits, 0);
    assert!(element.is_on());
    assert_eq!(element.id_path, vec![id]);
}

#[test]
fn foreign_payload_leaves_state_alone() {
    let mut state = vec![false];
    let view = switch(&mut state, Slot { index: 0 });
    let r: MessageResult<()> = view.message(&[], &mut (), Payload::Other(7), &mut state);
    assert_eq!(r, MessageResult::Nop);
    assert!(r.is_inert());
    assert_eq!(state, vec![false]);
}

#[test]
fn path_below_leaf_is_stale() {
    let mut state = vec![false];
    let view = switch(&mut state, Slot { index: 0 });
    let r: MessageResult<()> =
        view.message(&[Id::from_raw(3)], &mut (), Payload::SwitchToggled, &mut state);
    assert_eq!(r, MessageResult::Stale);
    assert_eq!(state, vec![false]);
}

#[test]
fn fresh_identities_differ() {
    let mut cx = Cx::new();
    let a = cx.enter();
    let b = cx.enter();
    assert_ne!(a, b);
    assert_eq!(cx.id_path(), &vec![a, b]);
    cx.leave();
    cx.leave();
    let c = cx.enter();
    assert_eq!(c.to_raw(), 2);
}
