//! Actuation core of a two-track robot: decoded commands go in, the ordered
//! pin and duty-cycle writes that the motor driver must receive come out.
//!
//! The crate keeps a mirror of every output line it owns and never touches
//! hardware itself. Each operation updates the mirror and returns the
//! [`effect::Effect`]s to perform, in order; the caller performs them and feeds
//! the next event.

pub mod action;
pub mod board;
pub mod effect;
pub mod moter;
pub mod pin;
pub mod robo;
pub mod safety;

pub use action::{Action, MoterSpeed, Rolling};
pub use board::Board;
pub use effect::{Channel, Effect, Level};
pub use moter::{Error, Moter, MoterState};
pub use pin::{OutPin, PinState};
pub use robo::{Event, Levels, Lifecycle, Robo, RoboState};
