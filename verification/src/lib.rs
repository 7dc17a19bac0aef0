//! Decision engine of a four-digit dial clock: which digits to show, as the time of day or as a
//! countdown, and where each dial has to stand for its digit.

pub mod clock;
pub mod control;
pub mod display;
pub mod stepping;
pub mod system;
pub mod time;
