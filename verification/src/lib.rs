//! A minimal terminal line reader, as a state machine.
//!
//! The session owns two buffers: input that was piped in before the session
//! began, and the line that the user is typing. It is driven from outside:
//! the caller asks it to begin a cycle or hands it one key event, and carries
//! out the terminal instructions that come back. The session never touches
//! the terminal itself, so every step is a function from a state and an event
//! to the next state and the output owed.

pub mod key;
pub mod laws;
pub mod output;
pub mod session;
pub mod text;

pub use key::{KeyAction, KeyCode, KeyEvent, Modifiers};
pub use output::{Color, Output};
pub use session::{Phase, Session};
