use vstd::prelude::*;
use crate::flags::{ChangeFlags, PAINT};
use crate::id::{Cx, Id};
use crate::lens::BoolLens;
use crate::message::{MessageResult, Payload};
use crate::widget::SwitchElement;

verus! {

/// The flags that a switch's rebuild reports when the element shows
/// `shown` and the node declares `declared`.
pub open spec fn switch_flags(shown: bool, declared: bool) -> u8 {
    if shown == declared {
        0
    } else {
        PAINT
    }
}

/// A view node that shows an on/off switch and toggles the boolean of the
/// application state that its lens reaches.
pub struct Switch<L> {
    pub is_on: bool,
    pub lens: L,
}

/// A switch over the field of `data` that `clicked` reaches.
pub fn switch<T, L: BoolLens<T>>(data: &mut T, clicked: L) -> (r: Switch<L>)
    requires
        clicked.reaches(old(data)),
    ensures
        r.is_on == clicked.value(old(data)),
        r.lens == clicked,
        *final(data) == *old(data),
{
    Switch::new(data, clicked)
}

impl<L> Switch<L> {
    /// A switch whose declared state is the value that `clicked` reads in
    /// `data` now.
    pub fn new<T>(data: &mut T, clicked: L) -> (r: Switch<L>) where L: BoolLens<T>
        requires
            clicked.reaches(old(data)),
        ensures
            r.is_on == clicked.value(old(data)),
            r.lens == clicked,
            *final(data) == *old(data),
    {
        let is_on = clicked.get(data);
        Switch { is_on, lens: clicked }
    }

    /// Builds the element: mints a fresh identity from `cx` and makes an
    /// element at the path that ends in it, showing the declared state.
    pub fn build(&self, cx: &mut Cx) -> (r: (Id, (), SwitchElement))
        requires
            old(cx).wf(),
            old(cx).next < u64::MAX,
        ensures
            final(cx).wf(),
            r.0.raw == old(cx).next,
            final(cx).next == old(cx).next + 1,
            final(cx).path@ == old(cx).path@,
            r.2.id_path@ == old(cx).path@.push(r.0),
            r.2.is_on == self.is_on,
    {
        let id = cx.enter();
        let element = SwitchElement::new(cx.id_path(), self.is_on);
        cx.leave();
        proof {
            assert(old(cx).path@.push(id).drop_last() =~= old(cx).path@);
        }
        (id, (), element)
    }

    /// Brings `element` to the state that this node declares. The identity
    /// and the allocation context are left as they are. When the element
    /// already shows the declared state (as it does after a rebuild from a
    /// `prev` that declared the same), nothing changes and the empty set is
    /// returned; otherwise the element shows the new state and must be
    /// painted again.
    pub fn rebuild(
        &self,
        cx: &mut Cx,
        prev: &Self,
        id: &mut Id,
        state: &mut (),
        element: &mut SwitchElement,
    ) -> (r: ChangeFlags)
        ensures
            *final(id) == *old(id),
            *final(cx) == *old(cx),
            final(element).id_path == old(element).id_path,
            final(element).is_on == self.is_on,
            r.bits == switch_flags(old(element).is_on, self.is_on),
            old(element).is_on == self.is_on ==> *final(element) == *old(element),
            old(element).is_on == prev.is_on && prev.is_on == self.is_on ==> r.bits == 0,
    {
        if element.is_on != self.is_on {
            element.set_is_on(self.is_on)
        } else {
            ChangeFlags::empty()
        }
    }

    /// Delivers `payload` to this node; `id_path` is what remains of the
    /// path below it. A switch is a leaf: a path that goes on below it is
    /// stale, and is ignored. A payload of another widget kind is ignored
    /// too. A click toggles the field of `app_state` that the lens reaches,
    /// and touches nothing else. The result is inert in every case.
    pub fn message<T, A>(
        &self,
        id_path: &[Id],
        state: &mut (),
        payload: Payload,
        app_state: &mut T,
    ) -> (r: MessageResult<A>) where L: BoolLens<T>
        requires
            self.lens.reaches(old(app_state)),
        ensures
            payload != Payload::SwitchToggled ==> !(r is Action) && *final(app_state)
                == *old(app_state),
            id_path@.len() > 0 ==> r is Stale && *final(app_state) == *old(app_state),
            id_path@.len() == 0 && payload != Payload::SwitchToggled ==> r is Nop
                && *final(app_state) == *old(app_state),
            id_path@.len() == 0 && payload == Payload::SwitchToggled ==> r is Nop
                && self.lens.reaches(final(app_state))
                && self.lens.value(final(app_state)) == !self.lens.value(old(app_state))
                && self.lens.elsewhere_same(old(app_state), final(app_state)),
    {
        if id_path.len() > 0 {
            return MessageResult::Stale;
        }
        match payload {
            Payload::SwitchToggled => {
                let now = self.lens.get(app_state);
                self.lens.set(app_state, !now);
                MessageResult::Nop
            },
            Payload::Other(_) => MessageResult::Nop,
        }
    }
}

} // verus!
