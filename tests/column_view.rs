use xilem::flags::{ALL, PAINT};
use xilem::id::{Cx, Id};
use xilem::lens::Slot;
use xilem::message::{MessageResult, Payload};
use xilem::view::column::Column;
use xilem::view::switch::switch;

fn column_over(state: &mut Vec<bool>) -> Column<Slot> {
    let mut children = Vec::new();
    for i in 0..state.len() {
        children.push(switch(state, Slot { index: i }));
    }
    Column::new(children)
}

#[test]
fn column_build_mints_identities_in_order() {
    let mut state = vec![false, true, false];
    let view = column_over(&mut state);
    let mut cx = Cx::new();
    let (id, ids, element) = view.build(&mut cx);
    assert_eq!(id, Id::from_raw(0));
    assert_eq!(ids, vec![Id::from_raw(1), Id::from_raw(2), Id::from_raw(3)]);
    assert_eq!(element.children.len(), 3);
    assert!(element.children[1].is_on());
    assert_eq!(element.children[2].id_path, vec![id, ids[2]]);
    assert_eq!(cx.next, 4);
}

#[test]
fn column_rebuild_keeps_identities() {
    let mut state = vec![false, true];
    let view = column_over(&mut state);
    let mut cx = Cx::new();
    let (mut id, mut ids, mut element) = view.build(&mut cx);
    let (before_id, before_ids) = (id, ids.clone());
    let next = column_over(&mut state);
    let flags = next.rebuild(&mut cx, &view, &mut id, &mut ids, &mut element);
    assert!(flags.is_empty());
    assert_eq!(id, before_id);
    assert_eq!(ids, before_ids);
}

#[test]
fn column_rebuild_ors_children_flags() {
    let mut state = vec![false, true];
    let view = column_over(&mut state);
    let mut cx = Cx::new();
    let (mut id, mut ids, mut element) = view.build(&mut cx);
    state[0] = true;
    let next = column_over(&mut state);
    let flags = next.rebuild(&mut cx, &view, &mut id, &mut ids, &mut element);
    assert_eq!(flags.bits, PAINT);
    assert!(element.children[0].is_on());
}

#[test]
fn column_rebuild_with_new_shape_builds_afresh() {
    let mut state = vec![false, true];
    let view = column_over(&mut state);
    let mut cx = Cx::new();
    let (mut id, mut ids, mut element) = view.build(&mut cx);
    let mut bigger = vec![false, true, true];
    let next = column_over(&mut bigger);
    let flags = next.rebuild(&mut cx, &view, &mut id, &mut ids, &mut element);
    assert_eq!(flags.bits, ALL);
    assert_eq!(id, Id::from_raw(3));
    assert_eq!(ids.len(), 3);
    assert!(element.children[2].is_on());
}

#[test]
fn column_routes_click_to_child() {
    let mut state = vec![false, false];
    let view = column_over(&mut state);
    let mut cx = Cx::new();
    let (_, ids, _) = view.build(&mut cx);
    let r: MessageResult<()> = view.message(&[ids[1]], &ids, Payload::SwitchToggled, &mut state);
    assert_eq!(r, MessageResult::Nop);
    assert_eq!(state, vec![false, true]);
}

#[test]
fn column_unknown_child_is_stale() {
    let mut state = vec![false, false];
    let view = column_over(&mut state);
    let mut cx = Cx::new();
    let (_, ids, _) = view.build(&mut cx);
    let r: MessageResult<()> =
        view.message(&[Id::from_raw(99)], &ids, Payload::SwitchToggled, &mut state);
    assert_eq!(r, MessageResult::Stale);
    assert_eq!(state, vec![false, false]);
}

#[test]
fn column_ignores_foreign_payload() {
    let mut state = vec![true, false];
    let view = column_over(&mut state);
    let mut cx = Cx::new();
    let (_, ids, _) = view.build(&mut cx);
    let r: MessageResult<()> = view.message(&[ids[0]], &ids, Payload::Other(1), &mut state);
    assert!(r.is_inert());
    assert_eq!(state, vec![true, false]);
    let r: MessageResult<()> = view.message(&[], &ids, Payload::SwitchToggled, &mut state);
    assert_eq!(r, MessageResult::Nop);
    assert_eq!(state, vec![true, false]);
}
