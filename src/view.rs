//! Views: the declarative nodes rebuilt on every pass.

pub mod column;
pub mod switch;
