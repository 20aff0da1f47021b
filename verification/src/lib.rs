//! # nlhgui
//! The verified core of a small desktop GUI toolkit: the launch
//! configuration, the event model, cursor and focus tracking, text editing
//! for text fields, radio button selection, alignment flags and the
//! channels through which background tasks talk to the UI.

pub mod align;
pub mod concurrency;
pub mod cursor;
pub mod events;
pub mod frame;
pub mod input_state;
pub mod launch;
pub mod radio;
pub mod reactive;
pub mod text_field;

pub use launch::LaunchConfig;
