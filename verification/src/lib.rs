//! Core of a grid-based snake simulation: a head with a facing direction and
//! a chain of body segments, advanced on a fixed real-time cadence that is
//! independent of the rendering frame rate, with grid positions mapped to a
//! 2-D screen layout for display.

pub mod grid;
pub mod projection;
pub mod snake;
pub mod spawn;
pub mod timer;
