//! Small helpers around input events.

pub mod events;
