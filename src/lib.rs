//! Spaced-repetition scheduling of music practice items.
pub mod time;
pub mod music;
pub mod schedule;
pub mod record;
