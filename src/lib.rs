//! A cleaning robot on a clamped square grid: the robot walks a list of
//! moves, and the library counts the distinct cells it has cleaned and
//! keeps the outcome of each run as a record.

pub mod execution;
pub mod request;
pub mod types;
pub mod walk;
