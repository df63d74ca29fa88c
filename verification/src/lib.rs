//! A daily-post bot core: once per day, at a configured hour, a character of
//! a fixed roster is chosen from the current weekday (with a small random
//! chance of a wildcard override) and one of its quotes is posted together
//! with a link to its image.
//!
//! The library holds the verified logic: the roster catalog and its loader,
//! the day-based selection rule, the quote picker, and the hourly scheduler's
//! state machine. Reading the clock, drawing random numbers and parsing the
//! document text are done by outside crates behind a few trusted wrappers;
//! connecting to the messaging platform and delivering the post are left to
//! the surrounding program.

pub mod catalog;
pub mod clock;
pub mod day;
pub mod document;
pub mod loader;
pub mod picker;
pub mod scheduler;
pub mod selector;
