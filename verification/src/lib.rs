//! Verified core of a one-shot migration that moves time-tracking data from a
//! legacy store layout into a redesigned one: calendar normalization (the
//! ISO-8601 week-numbering year), record mapping between the two schemas, and
//! the schema text the stores are built from.

pub mod calendar;
pub mod mapping;
pub mod records;
