//! Driver logic for a four-digit, seven-segment clock display.
//!
//! The crate holds the parts of the clock that decide something: which
//! segments render a value, which line writes show a value on a digit, how a
//! clock reading is split over the four digits, and how the time source
//! reacts to its button, its network fetch and its real-time clock. Hardware
//! access, timers and the network stay with the caller, which performs the
//! actions that these functions hand out.

pub mod clock;
pub mod diagnostic;
pub mod display;
pub mod register;
pub mod scan;
pub mod segments;
pub mod source;
