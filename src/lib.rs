//! Rules of a vertically scaling platforming challenge: the procedural level
//! generator, the platform motion controller, the proximity checks and the
//! gameplay state machine that turns player positions into score, lives and
//! level transitions.
//!
//! All lengths are fixed-point integers: one world unit is `UNIT` steps, and
//! all times are whole microseconds.

pub mod geometry;
pub mod level;
pub mod motion;
pub mod proximity;
pub mod scaling;
pub mod session;
