use vstd::prelude::*;

verus! {

/// Reaches the one boolean of the application state that a view node
/// observes and toggles. Implemented by the application for its own state.
pub trait BoolLens<T> {
    /// The lens reaches a field of `state`.
    spec fn reaches(&self, state: &T) -> bool;

    /// The field's value in `state`.
    spec fn value(&self, state: &T) -> bool;

    /// `after` agrees with `before` everywhere but in the field.
    spec fn elsewhere_same(&self, before: &T, after: &T) -> bool;

    /// Reads the field.
    fn get(&self, state: &T) -> (r: bool)
        requires
            self.reaches(state),
        ensures
            r == self.value(state),
    ;

    /// Writes the field, and nothing else.
    fn set(&self, state: &mut T, v: bool)
        requires
            self.reaches(old(state)),
        ensures
            self.reaches(final(state)),
            self.value(final(state)) == v,
            self.elsewhere_same(old(state), final(state)),
    ;
}

/// The lens onto one slot of a store of flags.
#[derive(Clone, Copy, Debug, PartialEq, Eq, Structural)]
pub struct Slot {
    pub index: usize,
}

impl BoolLens<Vec<bool>> for Slot {
    open spec fn reaches(&self, state: &Vec<bool>) -> bool {
        self.index < state@.len()
    }

    open spec fn value(&self, state: &Vec<bool>) -> bool {
        state@[self.index as int]
    }

    open spec fn elsewhere_same(&self, before: &Vec<bool>, after: &Vec<bool>) -> bool {
        &&& after@.len() == before@.len()
        &&& forall|j: int|
            0 <= j < before@.len() && j != self.index ==> #[trigger] after@[j] == before@[j]
    }

    fn get(&self, state: &Vec<bool>) -> (r: bool) {
        state[self.index]
    }

    fn set(&self, state: &mut Vec<bool>, v: bool) {
        state.set(self.index, v);
    }
}

} // verus!
