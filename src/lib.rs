//! Decoding of raw terminal input into structured keys.

pub mod event;
pub mod keyboard;

pub use event::{Event, EventSource};
pub use keyboard::Key;
