//! The dashboard: its state, the events that change it, and what the render
//! loop does after each of them.
pub mod engine;

pub use self::engine::{Action, Engine, Event, FrameCounter, Key, Line, State};
