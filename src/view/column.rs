use vstd::prelude::*;
use crate::flags::{bits_of, or_all, ChangeFlags};
use crate::id::{Cx, Id};
use crate::lens::BoolLens;
use crate::message::{MessageResult, Payload};
use crate::view::switch::{switch_flags, Switch};
use crate::widget::SwitchElement;

verus! {

/// A view node that lays out a sequence of switches.
pub struct Column<L> {
    pub children: Vec<Switch<L>>,
}

/// The retained element of a column: where it sits, and the elements of
/// its children in order.
pub struct ColumnElement {
    pub id_path: Vec<Id>,
    pub children: Vec<SwitchElement>,
}

/// The flags that the children of `cur` report, in order, when rebuilt
/// over elements that show `shown`.
pub open spec fn children_flags<L>(shown: Seq<SwitchElement>, cur: &Column<L>) -> Seq<u8> {
    Seq::new(cur.children@.len(), |i: int| switch_flags(shown[i].is_on, cur.children@[i].is_on))
}

/// `a` and `b` sit at the same path and show the same state.
pub open spec fn same_element(a: SwitchElement, b: SwitchElement) -> bool {
    a.id_path@ == b.id_path@ && a.is_on == b.is_on
}

/// Every child's lens reaches a field of `app_state`.
pub open spec fn all_reach<T, L: BoolLens<T>>(c: &Column<L>, app_state: &T) -> bool {
    forall|i: int| 0 <= i < c.children@.len() ==> (#[trigger] c.children@[i]).lens.reaches(app_state)
}

/// `j` is the position of the first of `ids` equal to `id`.
pub open spec fn is_first_match(ids: Seq<Id>, id: Id, j: int) -> bool {
    &&& 0 <= j < ids.len()
    &&& ids[j] == id
    &&& forall|k: int| 0 <= k < j ==> ids[k] != id
}

/// The position of the first of `ids` equal to `id`, if any.
pub open spec fn first_match(ids: Seq<Id>, id: Id) -> Option<int> {
    if exists|j: int| is_first_match(ids, id, j) {
        Some(choose|j: int| is_first_match(ids, id, j))
    } else {
        None
    }
}

proof fn lemma_or_all_zero(s: Seq<u8>)
    requires
        forall|i: int| 0 <= i < s.len() ==> s[i] == 0,
    ensures
        or_all(s) == 0,
    decreases s.len(),
{
    if s.len() > 0 {
        lemma_or_all_zero(s.drop_last());
        assert(0u8 | 0u8 == 0u8) by (bit_vector);
    }
}

/// Rebuilding a column whose children declare what they declared in the
/// previous pass, over the elements that pass left, reports the empty set
/// of flags.
pub proof fn lemma_unchanged_column_reports_nothing<L>(
    prev: &Column<L>,
    cur: &Column<L>,
    shown: Seq<SwitchElement>,
)
    requires
        prev.children@.len() == cur.children@.len(),
        shown.len() == prev.children@.len(),
        forall|i: int|
            0 <= i < cur.children@.len() ==> (#[trigger] prev.children@[i]).is_on
                == cur.children@[i].is_on,
        forall|i: int| 0 <= i < shown.len() ==> (#[trigger] shown[i]).is_on == prev.children@[i].is_on,
    ensures
        or_all(children_flags(shown, cur)) == 0,
{
    let s = children_flags(shown, cur);
    assert forall|i: int| 0 <= i < s.len() implies s[i] == 0 by {
        assert(prev.children@[i].is_on == cur.children@[i].is_on);
        assert(shown[i].is_on == prev.children@[i].is_on);
    }
    lemma_or_all_zero(s);
}

impl<L> Column<L> {
    /// A column of the given switches.
    pub fn new(children: Vec<Switch<L>>) -> (r: Column<L>)
        ensures
            r.children@ == children@,
    {
        Column { children }
    }

    /// Builds the element: a fresh identity for the column, then one for
    /// each child in order, each child's element at the path through the
    /// column. The state is the children's identities.
    pub fn build(&self, cx: &mut Cx) -> (r: (Id, Vec<Id>, ColumnElement))
        requires
            old(cx).wf(),
            old(cx).next + self.children@.len() < u64::MAX,
        ensures
            final(cx).wf(),
            final(cx).path@ == old(cx).path@,
            final(cx).next == old(cx).next + 1 + self.children@.len(),
            r.0.raw == old(cx).next,
            r.2.id_path@ == old(cx).path@.push(r.0),
            r.1@.len() == self.children@.len(),
            r.2.children@.len() == self.children@.len(),
            forall|i: int|
                0 <= i < self.children@.len() ==> (#[trigger] r.1@[i]).raw == old(cx).next + 1 + i,
            forall|i: int|
                0 <= i < self.children@.len() ==> (#[trigger] r.2.children@[i]).is_on
                    == self.children@[i].is_on && r.2.children@[i].id_path@ == old(
                    cx,
                ).path@.push(r.0).push(r.1@[i]),
    {
        let id = cx.enter();
        let id_path = cx.id_path().clone();
        let mut ids: Vec<Id> = Vec::new();
        let mut elements: Vec<SwitchElement> = Vec::new();
        let mut i: usize = 0;
        while i < self.children.len()
            invariant
                cx.wf(),
                cx.path@ == old(cx).path@.push(id),
                id_path@ == cx.path@,
                id.raw == old(cx).next,
                old(cx).next + self.children@.len() < u64::MAX,
                i <= self.children@.len(),
                cx.next == old(cx).next + 1 + i,
                ids@.len() == i,
                elements@.len() == i,
                forall|j: int| 0 <= j < i ==> (#[trigger] ids@[j]).raw == old(cx).next + 1 + j,
                forall|j: int|
                    0 <= j < i ==> (#[trigger] elements@[j]).is_on == self.children@[j].is_on
                        && elements@[j].id_path@ == old(cx).path@.push(id).push(ids@[j]),
            decreases self.children@.len() - i,
        {
            let (child_id, _, element) = self.children[i].build(cx);
            ids.push(child_id);
            elements.push(element);
            i = i + 1;
        }
        cx.leave();
        proof {
            assert(old(cx).path@.push(id).drop_last() =~= old(cx).path@);
        }
        (id, ids, ColumnElement { id_path, children: elements })
    }

    /// Brings `element` from what `prev` declared to what this node
    /// declares. With as many children as before, every identity stays as
    /// it was, each child is rebuilt over its own element, and the result
    /// is the or of what the children report. With another number of
    /// children the structure changed: the column is built afresh under new
    /// identities, and every flag is raised.
    pub fn rebuild(
        &self,
        cx: &mut Cx,
        prev: &Self,
        id: &mut Id,
        state: &mut Vec<Id>,
        element: &mut ColumnElement,
    ) -> (r: ChangeFlags)
        requires
            old(cx).wf(),
            old(cx).next + self.children@.len() < u64::MAX,
            old(state)@.len() == prev.children@.len(),
            old(element).children@.len() == prev.children@.len(),
        ensures
            final(state)@.len() == self.children@.len(),
            final(element).children@.len() == self.children@.len(),
            forall|i: int|
                0 <= i < self.children@.len() ==> (#[trigger] final(element).children@[i]).is_on
                    == self.children@[i].is_on,
            prev.children@.len() == self.children@.len() ==> {
                &&& *final(id) == *old(id)
                &&& final(state)@ == old(state)@
                &&& *final(cx) == *old(cx)
                &&& final(element).id_path == old(element).id_path
                &&& r.bits == or_all(children_flags(old(element).children@, self))
                &&& forall|i: int|
                    0 <= i < self.children@.len() ==> (#[trigger] final(element).children@[i]).id_path@
                        == old(element).children@[i].id_path@
                &&& forall|i: int|
                    0 <= i < self.children@.len() && old(element).children@[i].is_on
                        == self.children@[i].is_on ==> same_element(
                        #[trigger] final(element).children@[i],
                        old(element).children@[i],
                    )
            },
            prev.children@.len() != self.children@.len() ==> {
                &&& final(id).raw == old(cx).next
                &&& final(cx).wf()
                &&& final(cx).path@ == old(cx).path@
                &&& final(cx).next == old(cx).next + 1 + self.children@.len()
                &&& r.bits == crate::flags::ALL
            },
    {
        if prev.children.len() != self.children.len() {
            let (new_id, new_state, new_element) = self.build(cx);
            *id = new_id;
            *state = new_state;
            *element = new_element;
            return ChangeFlags::all();
        }
        let mut flags: Vec<ChangeFlags> = Vec::new();
        let mut elements: Vec<SwitchElement> = Vec::new();
        let mut i: usize = 0;
        while i < self.children.len()
            invariant
                prev.children@.len() == self.children@.len(),
                state@ == old(state)@,
                state@.len() == self.children@.len(),
                element.children@.len() == self.children@.len(),
                *element == *old(element),
                *cx == *old(cx),
                i <= self.children@.len(),
                flags@.len() == i,
                elements@.len() == i,
                forall|j: int|
                    0 <= j < i ==> (#[trigger] flags@[j]).bits == switch_flags(
                        element.children@[j].is_on,
                        self.children@[j].is_on,
                    ),
                forall|j: int|
                    0 <= j < i ==> (#[trigger] elements@[j]).is_on == self.children@[j].is_on
                        && elements@[j].id_path@ == element.children@[j].id_path@,
                forall|j: int|
                    0 <= j < i && element.children@[j].is_on == self.children@[j].is_on
                        ==> same_element(#[trigger] elements@[j], element.children@[j]),
            decreases self.children@.len() - i,
        {
            let current = &element.children[i];
            let mut child = SwitchElement { id_path: current.id_path.clone(), is_on: current.is_on };
            let mut child_id = state[i];
            let mut child_state = ();
            let f = self.children[i].rebuild(
                cx,
                &prev.children[i],
                &mut child_id,
                &mut child_state,
                &mut child,
            );
            flags.push(f);
            elements.push(child);
            i = i + 1;
        }
        element.children = elements;
        let r = ChangeFlags::combine(ChangeFlags::empty(), &flags);
        proof {
            assert(bits_of(flags@) =~= children_flags(old(element).children@, self));
            let o = or_all(children_flags(old(element).children@, self));
            assert(0u8 | o == o) by (bit_vector);
        }
        r
    }

    /// Routes `payload` along `id_path`, which starts below the column. The
    /// first child whose identity heads the path receives the rest of it.
    /// An empty path names the column itself, which recognises no payload;
    /// a path whose head is no child's identity is stale. Nothing but the
    /// child reached can change `app_state`.
    pub fn message<T, A>(
        &self,
        id_path: &[Id],
        state: &Vec<Id>,
        payload: Payload,
        app_state: &mut T,
    ) -> (r: MessageResult<A>) where L: BoolLens<T>
        requires
            state@.len() == self.children@.len(),
            all_reach(self, old(app_state)),
        ensures
            payload != Payload::SwitchToggled ==> !(r is Action) && *final(app_state)
                == *old(app_state),
            id_path@.len() == 0 ==> r is Nop && *final(app_state) == *old(app_state),
            id_path@.len() > 0 && first_match(state@, id_path@[0]) is None ==> r is Stale
                && *final(app_state) == *old(app_state),
            id_path@.len() > 0 && first_match(state@, id_path@[0]) is Some ==> {
                let j = first_match(state@, id_path@[0])->Some_0;
                let child = self.children@[j];
                let rest = id_path@.drop_first();
                &&& rest.len() > 0 ==> r is Stale && *final(app_state) == *old(app_state)
                &&& rest.len() == 0 && payload != Payload::SwitchToggled ==> r is Nop
                    && *final(app_state) == *old(app_state)
                &&& rest.len() == 0 && payload == Payload::SwitchToggled ==> r is Nop
                    && child.lens.reaches(final(app_state))
                    && child.lens.value(final(app_state)) == !child.lens.value(old(app_state))
                    && child.lens.elsewhere_same(old(app_state), final(app_state))
            },
    {
        if id_path.len() == 0 {
            return MessageResult::Nop;
        }
        let head = id_path[0];
        let mut j: usize = 0;
        while j < state.len()
            invariant
                j <= state@.len(),
                state@.len() == self.children@.len(),
                id_path@.len() > 0,
                head == id_path@[0],
                all_reach(self, old(app_state)),
                *app_state == *old(app_state),
                forall|k: int| 0 <= k < j ==> state@[k] != head,
            decreases state@.len() - j,
        {
            if state[j] == head {
                let (_, rest) = id_path.split_at(1);
                proof {
                    assert(rest@ =~= id_path@.drop_first());
                    assert(is_first_match(state@, head, j as int));
                    let c = choose|c: int| is_first_match(state@, head, c);
                    assert(c == j);
                    assert(first_match(state@, head) == Some(j as int));
                    assert(self.children@[j as int].lens.reaches(old(app_state)));
                }
                return self.children[j].message(rest, &mut (), payload, app_state);
            }
            j = j + 1;
        }
        proof {
            assert(!exists|c: int| is_first_match(state@, head, c));
        }
        MessageResult::Stale
    }
}

} // verus!
