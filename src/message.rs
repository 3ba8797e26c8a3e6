use vstd::prelude::*;

verus! {

/// What a widget reports back to the view node that produced it. Each kind
/// of widget has its own variant, so that a node can ignore payloads that it
/// does not own.
#[derive(Clone, Copy, Debug, PartialEq, Eq, Structural)]
pub enum Payload {
    /// A switch was clicked.
    SwitchToggled,
    /// A payload of some other widget kind, tagged by a number.
    Other(u64),
}

/// The outcome of delivering a payload to a view node.
#[derive(Debug, PartialEq, Eq, Structural)]
pub enum MessageResult<A> {
    /// Handled, or not recognised: nothing for the parent to do.
    Nop,
    /// An action for the parent to handle.
    Action(A),
    /// The identity path no longer matches the view tree: ignored.
    Stale,
}

impl<A> MessageResult<A> {
    /// Whether the result is inert: nothing for the parent to do.
    pub fn is_inert(&self) -> (r: bool)
        ensures
            r == !(self is Action),
    {
        !matches!(self, MessageResult::Action(_))
    }
}

} // verus!
