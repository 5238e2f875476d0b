use rusqlite::Connection;
use tt_migrate::mapping::migrate;
use tt_migrate::records::{
    LegacyActivity, LegacyHistoryEntry, NewActivity, NewHistoryEntry, SQL_CREATE_ACT,
    SQL_CREATE_HIS, SQL_INSERT_ACT, SQL_INSERT_HIS, SQL_SELECT_ACT, SQL_SELECT_HIS,
};

fn hours_to_micros(v: f64) -> i64 {
    (v * 1_000_000.0).round() as i64
}

fn micros_to_hours(m: i64) -> f64 {
    m as f64 / 1_000_000.0
}

/// An in-memory stand-in for the legacy store, with one activity and one
/// history row.
fn legacy_store() -> Connection {
    let db = Connection::open_in_memory().unwrap();
    db.execute(
        "CREATE TABLE activities (
            id INTEGER, group_id INTEGER, name TEXT,
            added_when TEXT, is_activated INTEGER, hours_total NUMERIC)",
        (),
    )
    .unwrap();
    db.execute(
        "CREATE TABLE history (
            id_activity INTEGER, year INTEGER, month INTEGER, day INTEGER,
            weeknumber INTEGER, hours_on_day NUMERIC, date TEXT)",
        (),
    )
    .unwrap();
    db.execute(
        "INSERT INTO activities VALUES (?1, ?2, ?3, ?4, ?5, ?6)",
        (1i64, 9i64, "Coding", "2020-01-01", 1i64, 10.333333333f64),
    )
    .unwrap();
    db.execute(
        "INSERT INTO history VALUES (?1, ?2, ?3, ?4, ?5, ?6, ?7)",
        (1i64, 2018i64, 12i64, 31i64, 1i64, 2.0000005f64, "2018-12-31"),
    )
    .unwrap();
    db
}

fn read_legacy(db: &Connection) -> (Vec<LegacyActivity>, Vec<LegacyHistoryEntry>) {
    let mut stmt = db.prepare(SQL_SELECT_ACT).unwrap();
    let acts = stmt
        .query_map((), |row| {
            Ok(LegacyActivity {
                id: row.get(0)?,
                group_id: row.get(1)?,
                name: row.get(2)?,
                added_when: row.get(3)?,
                is_activated: row.get(4)?,
                hours_total_micros: hours_to_micros(row.get(5)?),
            })
        })
        .unwrap()
        .collect::<Result<Vec<_>, _>>()
        .unwrap();
    let mut stmt = db.prepare(SQL_SELECT_HIS).unwrap();
    let hist = stmt
        .query_map((), |row| {
            Ok(LegacyHistoryEntry {
                id_activity: row.get(0)?,
                year: row.get(1)?,
                month: row.get(2)?,
                day: row.get(3)?,
                weeknumber: row.get(4)?,
                hours_on_day_micros: hours_to_micros(row.get(5)?),
                date: row.get(6)?,
            })
        })
        .unwrap()
        .collect::<Result<Vec<_>, _>>()
        .unwrap();
    (acts, hist)
}

fn destination_store() -> Connection {
    let db = Connection::open_in_memory().unwrap();
    db.execute(SQL_CREATE_ACT, ()).unwrap();
    db.execute(SQL_CREATE_HIS, ()).unwrap();
    db
}

fn insert_activity(db: &Connection, a: &NewActivity) -> rusqlite::Result<usize> {
    db.execute(
        SQL_INSERT_ACT,
        (
            a.id,
            a.name.as_str(),
            a.added.as_str(),
            a.isactive,
            micros_to_hours(a.hourstotal_micros),
        ),
    )
}

fn insert_history(db: &Connection, h: &NewHistoryEntry) -> rusqlite::Result<usize> {
    db.execute(
        SQL_INSERT_HIS,
        (
            h.id,
            h.year,
            h.month,
            h.day,
            h.isoweek,
            h.isoweekyear,
            micros_to_hours(h.hoursonday_micros),
            h.date.as_str(),
        ),
    )
}

#[test]
fn end_to_end_migration() {
    let legacy = legacy_store();
    let (acts, hist) = read_legacy(&legacy);
    let data = migrate(acts, hist).unwrap();

    let dest = destination_store();
    for a in &data.activities {
        insert_activity(&dest, a).unwrap();
    }
    for h in &data.history {
        insert_history(&dest, h).unwrap();
    }

    let row = dest
        .query_row(
            "SELECT id, name, added, isactive, hourstotal FROM tt_activities",
            (),
            |r| {
                Ok((
                    r.get::<_, i64>(0)?,
                    r.get::<_, String>(1)?,
                    r.get::<_, String>(2)?,
                    r.get::<_, i64>(3)?,
                    r.get::<_, f64>(4)?,
                ))
            },
        )
        .unwrap();
    assert_eq!(
        row,
        (1, "Coding".to_string(), "2020-01-01".to_string(), 1, 10.333333),
    );

    let row = dest
        .query_row(
            "SELECT id, year, month, day, isoweek, isoweekyear, hoursonday, date
             FROM tt_history",
            (),
            |r| {
                Ok((
                    r.get::<_, i64>(0)?,
                    r.get::<_, i64>(1)?,
                    r.get::<_, i64>(2)?,
                    r.get::<_, i64>(3)?,
                    r.get::<_, i64>(4)?,
                    r.get::<_, i64>(5)?,
                    r.get::<_, f64>(6)?,
                    r.get::<_, String>(7)?,
                ))
            },
        )
        .unwrap();
    assert_eq!(
        row,
        (1, 2018, 12, 31, 1, 2019, 2.000001, "2018-12-31".to_string()),
    );
}

#[test]
fn rerun_fails_fast_on_first_activity_insert() {
    let legacy = legacy_store();
    let (acts, hist) = read_legacy(&legacy);
    let data = migrate(acts, hist).unwrap();

    let dest = destination_store();
    for a in &data.activities {
        insert_activity(&dest, a).unwrap();
    }
    for h in &data.history {
        insert_history(&dest, h).unwrap();
    }

    // A second run against the already-populated destination must fail on its
    // first activity insert: the primary key already exists.
    let again = insert_activity(&dest, &data.activities[0]);
    assert!(again.is_err());
    let count: i64 = dest
        .query_row("SELECT COUNT(*) FROM tt_activities", (), |r| r.get(0))
        .unwrap();
    assert_eq!(count, 1);
}

#[test]
fn history_has_no_uniqueness_guard() {
    // The destination history table declares no uniqueness, so a duplicate
    // insert succeeds silently: the reason a re-run must stop on the
    // activities table first.
    let legacy = legacy_store();
    let (acts, hist) = read_legacy(&legacy);
    let data = migrate(acts, hist).unwrap();

    let dest = destination_store();
    insert_activity(&dest, &data.activities[0]).unwrap();
    insert_history(&dest, &data.history[0]).unwrap();
    insert_history(&dest, &data.history[0]).unwrap();
    let count: i64 = dest
        .query_row("SELECT COUNT(*) FROM tt_history", (), |r| r.get(0))
        .unwrap();
    assert_eq!(count, 2);
}

#[test]
fn schema_creation_is_not_idempotent_by_itself() {
    // The schema text creates plainly, so the caller must create tables only
    // for a fresh store; a second creation attempt errors rather than
    // silently recreating.
    let dest = destination_store();
    assert!(dest.execute(SQL_CREATE_ACT, ()).is_err());
    assert!(dest.execute(SQL_CREATE_HIS, ()).is_err());
}
