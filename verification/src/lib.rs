//! The core of a terminal progress dashboard.
//!
//! [`unit`] turns raw progress numbers (counts, byte sizes, durations and
//! rates) into short human-readable text. [`render`] holds the state of the
//! dashboard and decides, event by event, what the render loop does next.
//!
//! Every function states what it computes in a contract, and every contract
//! is proved.
pub mod render;
pub mod unit;
