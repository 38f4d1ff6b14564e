//! Relays key events from an input device to a virtual device on another
//! host over a two-byte datagram protocol, with a switch key that suspends
//! and resumes relaying.

pub mod event;
pub mod keyname;
pub mod replay;
pub mod session;
pub mod switch;
pub mod wire;

pub use event::{KeyCode, KeyEvent, PRESSED, RELEASED, REPEATED};
pub use wire::{decode, encode, try_encode, DecodeError, EncodeError, KeySpace};
pub use switch::{Action, SessionState, SwitchConfig};
pub use session::{DeviceSession, InputEvent, Outcome};
pub use replay::{replay, Injection, ReplayError};
pub use keyname::{KeyWrapped, KEY_A, KEY_COMPOSE, KEY_RIGHTALT};
