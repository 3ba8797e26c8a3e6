//! Reconciliation and event-routing core of a retained-mode GUI toolkit:
//! identities, change flags, the switch view, message results and the
//! view context used to localise events.

pub mod flags;
pub mod id;
pub mod message;
pub mod lens;
pub mod widget;
pub mod view;
pub mod geometry;
pub mod event;
