use vstd::prelude::*;
use crate::flags::{ChangeFlags, PAINT};
use crate::id::Id;
use crate::message::Payload;

verus! {

/// The retained element of a switch: where it sits in the tree and whether
/// it shows "on".
pub struct SwitchElement {
    pub id_path: Vec<Id>,
    pub is_on: bool,
}

impl SwitchElement {
    /// An element at `id_path` showing `is_on`.
    pub fn new(id_path: &Vec<Id>, is_on: bool) -> (r: SwitchElement)
        ensures
            r.id_path@ == id_path@,
            r.is_on == is_on,
    {
        SwitchElement { id_path: id_path.clone(), is_on }
    }

    /// Whether the element shows "on".
    pub fn is_on(&self) -> (r: bool)
        ensures
            r == self.is_on,
    {
        self.is_on
    }

    /// A click: the element flips what it shows at once, and reports the
    /// click for its view node to toggle the application's field.
    pub fn click(&mut self) -> (r: Payload)
        ensures
            final(self).is_on == !old(self).is_on,
            final(self).id_path == old(self).id_path,
            r == Payload::SwitchToggled,
    {
        self.is_on = !self.is_on;
        Payload::SwitchToggled
    }

    /// Shows `is_on`; the element must then be painted again.
    pub fn set_is_on(&mut self, is_on: bool) -> (r: ChangeFlags)
        ensures
            final(self).is_on == is_on,
            final(self).id_path == old(self).id_path,
            r.bits == PAINT,
    {
        self.is_on = is_on;
        ChangeFlags { bits: PAINT }
    }
}

} // verus!
