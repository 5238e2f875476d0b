//! The two legacy record shapes, the two destination record shapes, the
//! migration's error kinds, and the destination schema and statement text.
//!
//! Hours are carried as whole microhours (millionths of an hour), the
//! fixed-point form the migration normalizes them to: a value with at most six
//! decimal places is exactly one integer count of microhours. Converting the
//! stores' fractional hours to and from this form is the I/O layer's job.

use vstd::prelude::*;

verus! {

/// The ways a migration run can fail. Only an impossible calendar date is
/// detected by the core itself; the rest classify failures of the two stores,
/// for the I/O layer to report.
#[derive(Clone, Copy, Debug, PartialEq, Eq, Structural)]
pub enum MigrateError {
    /// The store path is not a readable database.
    StoreAccessError,
    /// An expected legacy table or column is absent.
    SchemaMismatchError,
    /// A history row names an impossible calendar date.
    InvalidDateError,
    /// An insert collided with an existing primary key.
    UniqueConstraintError,
    /// The destination directory could not be created.
    IOError,
}

/// A row of the legacy `activities` table.
pub struct LegacyActivity {
    pub id: i64,
    /// Legacy-only grouping; it has no destination counterpart and is dropped.
    pub group_id: i64,
    pub name: String,
    /// Date-of-creation text, passed through unmodified.
    pub added_when: String,
    /// 0/1 flag.
    pub is_activated: i64,
    /// Cumulative hours, in microhours.
    pub hours_total_micros: i64,
}

/// A row of the legacy `history` table.
pub struct LegacyHistoryEntry {
    /// Reference to `LegacyActivity::id`.
    pub id_activity: i64,
    pub year: i64,
    pub month: i64,
    pub day: i64,
    /// Legacy week-of-year, carried through unchanged.
    pub weeknumber: i64,
    /// Hours on that day, in microhours.
    pub hours_on_day_micros: i64,
    /// Date text, passed through unmodified.
    pub date: String,
}

/// A row of the destination `tt_activities` table.
pub struct NewActivity {
    /// Same value as the legacy id: the migration preserves identity.
    pub id: i64,
    pub name: String,
    pub added: String,
    pub isactive: i64,
    /// Cumulative hours, in microhours.
    pub hourstotal_micros: i64,
}

/// A row of the destination `tt_history` table.
pub struct NewHistoryEntry {
    /// Reference to `NewActivity::id`.
    pub id: i64,
    pub year: i64,
    pub month: i64,
    pub day: i64,
    /// Verbatim copy of the legacy week number, not recomputed.
    pub isoweek: i64,
    /// Freshly derived ISO-8601 week-numbering year of (year, month, day).
    pub isoweekyear: i64,
    /// Hours on that day, in microhours.
    pub hoursonday_micros: i64,
    pub date: String,
}

/// Everything one migration run writes: the mapped activities, then the
/// mapped history.
pub struct MigrationData {
    pub activities: Vec<NewActivity>,
    pub history: Vec<NewHistoryEntry>,
}

/// File name of the destination database inside the application's
/// configuration directory.
pub const DBNAME: &'static str = "productivity.db";

pub const SQL_CREATE_ACT: &'static str = "CREATE TABLE tt_activities (
    id INTEGER PRIMARY KEY,
    name TEXT NOT NULL,
    added TEXT NOT NULL,
    isactive INTEGER NOT NULL DEFAULT 1,
    hourstotal NUMERIC NOT NULL DEFAULT 0.0
    )";

pub const SQL_CREATE_HIS: &'static str = "CREATE TABLE tt_history (
    id INTEGER NOT NULL,
    year INTEGER NOT NULL,
    month INTEGER NOT NULL,
    day INTEGER NOT NULL,
    isoweek INTEGER NOT NULL,
    isoweekyear INTEGER NOT NULL,
    hoursonday NUMERIC NOT NULL DEFAULT 0.0,
    date TEXT NOT NULL,
    FOREIGN KEY (id) REFERENCES tt_activities(id)
    )";

pub const SQL_INSERT_ACT: &'static str = "INSERT INTO tt_activities
                (id, name, added, isactive, hourstotal)
                VALUES (?1, ?2, ?3, ?4, ?5)";

pub const SQL_INSERT_HIS: &'static str = "INSERT INTO tt_history
            (id, year, month, day, isoweek, isoweekyear, hoursonday, date)
            VALUES (?1, ?2, ?3, ?4, ?5, ?6, ?7, ?8)";

pub const SQL_SELECT_ACT: &'static str = "SELECT * FROM activities";

pub const SQL_SELECT_HIS: &'static str = "SELECT * FROM history";

} // verus!
