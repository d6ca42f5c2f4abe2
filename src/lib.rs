//! Touchpad gesture recognition: a compass classifier for swipe motion and a
//! dispatch engine that turns gesture events into the reactions configured for
//! them.
pub mod bindings;
pub mod device;
pub mod direction;
pub mod engine;
