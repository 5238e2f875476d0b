//! The schema mapper: pure transforms from legacy records to destination
//! records, and the whole-run transform that maps both collections.
//!
//! An activity keeps its id, name, creation text and active flag verbatim and
//! its (already precision-normalized) hours. A history entry keeps its fields
//! verbatim, copies the legacy week number into `isoweek` unchanged, and gains
//! one fresh column: the ISO-8601 week-numbering year of its date. The legacy
//! `group_id` has no destination counterpart and is dropped.

use crate::calendar::{spec_iso_week_year, valid_date, iso_week_year};
use crate::records::{
    LegacyActivity, LegacyHistoryEntry, MigrateError, MigrationData, NewActivity, NewHistoryEntry,
};
use vstd::prelude::*;

verus! {

/// How a destination activity row relates to the legacy row it came from:
/// every field but the dropped `group_id` is carried over verbatim.
pub open spec fn activity_mapped(a: LegacyActivity, n: NewActivity) -> bool {
    &&& n.id == a.id
    &&& n.name == a.name
    &&& n.added == a.added_when
    &&& n.isactive == a.is_activated
    &&& n.hourstotal_micros == a.hours_total_micros
}

/// How a destination history row relates to the legacy row it came from:
/// every field is carried over verbatim, `isoweek` is the legacy week number
/// unchanged, and `isoweekyear` is freshly derived from the date.
pub open spec fn history_mapped(h: LegacyHistoryEntry, n: NewHistoryEntry) -> bool {
    &&& n.id == h.id_activity
    &&& n.year == h.year
    &&& n.month == h.month
    &&& n.day == h.day
    &&& n.isoweek == h.weeknumber
    &&& n.isoweekyear == spec_iso_week_year(h.year as int, h.month as int, h.day as int)
    &&& n.hoursonday_micros == h.hours_on_day_micros
    &&& n.date == h.date
}

/// Whether a history row names a date the migration accepts.
pub open spec fn entry_date_valid(h: LegacyHistoryEntry) -> bool {
    valid_date(h.year as int, h.month as int, h.day as int)
}

/// Whether every history row names a date the migration accepts.
pub open spec fn all_dates_valid(hist: Seq<LegacyHistoryEntry>) -> bool {
    forall|i: int| 0 <= i < hist.len() ==> entry_date_valid(#[trigger] hist[i])
}

/// Map one legacy activity to its destination row.
pub fn map_activity(a: LegacyActivity) -> (n: NewActivity)
    ensures
        activity_mapped(a, n),
{
    NewActivity {
        id: a.id,
        name: a.name,
        added: a.added_when,
        isactive: a.is_activated,
        hourstotal_micros: a.hours_total_micros,
    }
}

/// Map one legacy history entry to its destination row, deriving the ISO
/// week-numbering year; fails with `InvalidDateError` exactly when the entry's
/// date is impossible.
pub fn map_history(h: LegacyHistoryEntry) -> (r: Result<NewHistoryEntry, MigrateError>)
    ensures
        r is Ok <==> entry_date_valid(h),
        r matches Ok(n) ==> history_mapped(h, n),
        r matches Err(e) ==> e == MigrateError::InvalidDateError,
{
    let isoweekyear = match iso_week_year(h.year, h.month, h.day) {
        Ok(v) => v,
        Err(e) => {
            return Err(e);
        },
    };
    Ok(
        NewHistoryEntry {
            id: h.id_activity,
            year: h.year,
            month: h.month,
            day: h.day,
            isoweek: h.weeknumber,
            isoweekyear,
            hoursonday_micros: h.hours_on_day_micros,
            date: h.date,
        },
    )
}

/// Map every legacy activity, in order.
pub fn map_activities(acts: Vec<LegacyActivity>) -> (r: Vec<NewActivity>)
    ensures
        r@.len() == acts@.len(),
        forall|i: int| 0 <= i < acts@.len() ==> activity_mapped(acts@[i], #[trigger] r@[i]),
{
    let ghost all = acts@;
    let mut rest = acts;
    let mut out: Vec<NewActivity> = Vec::new();
    while rest.len() > 0
        invariant
            out@.len() + rest@.len() == all.len(),
            rest@ == all.subrange(out@.len() as int, all.len() as int),
            forall|i: int| 0 <= i < out@.len() ==> activity_mapped(all[i], #[trigger] out@[i]),
        decreases rest@.len(),
    {
        let a = rest.remove(0);
        out.push(map_activity(a));
    }
    out
}

/// Map every legacy history entry, in order; fails with `InvalidDateError`
/// exactly when some entry's date is impossible, without mapping past the
/// first such entry.
#[verifier::loop_isolation(false)]
pub fn map_histories(hist: Vec<LegacyHistoryEntry>) -> (r: Result<
    Vec<NewHistoryEntry>,
    MigrateError,
>)
    ensures
        r is Ok <==> all_dates_valid(hist@),
        r matches Ok(out) ==> out@.len() == hist@.len() && (forall|i: int|
            0 <= i < hist@.len() ==> history_mapped(hist@[i], #[trigger] out@[i])),
        r matches Err(e) ==> e == MigrateError::InvalidDateError,
{
    let ghost all = hist@;
    let mut rest = hist;
    let mut out: Vec<NewHistoryEntry> = Vec::new();
    while rest.len() > 0
        invariant
            out@.len() + rest@.len() == all.len(),
            rest@ == all.subrange(out@.len() as int, all.len() as int),
            forall|i: int| 0 <= i < out@.len() ==> history_mapped(all[i], #[trigger] out@[i]),
            forall|i: int| 0 <= i < out@.len() ==> entry_date_valid(#[trigger] all[i]),
        decreases rest@.len(),
    {
        let ghost k = out@.len() as int;
        let h = rest.remove(0);
        proof {
            assert(h == all[k]);
        }
        match map_history(h) {
            Ok(n) => {
                out.push(n);
            },
            Err(e) => {
                proof {
                    assert(!entry_date_valid(all[k]));
                }
                return Err(e);
            },
        }
    }
    Ok(out)
}

/// Map a whole migration run: every activity, then every history entry.
/// Fails with `InvalidDateError` exactly when some history entry names an
/// impossible date; nothing else can fail, since both transforms are pure.
pub fn migrate(acts: Vec<LegacyActivity>, hist: Vec<LegacyHistoryEntry>) -> (r: Result<
    MigrationData,
    MigrateError,
>)
    ensures
        r is Ok <==> all_dates_valid(hist@),
        r matches Ok(md) ==> {
            &&& md.activities@.len() == acts@.len()
            &&& forall|i: int|
                0 <= i < acts@.len() ==> activity_mapped(acts@[i], #[trigger] md.activities@[i])
            &&& md.history@.len() == hist@.len()
            &&& forall|i: int|
                0 <= i < hist@.len() ==> history_mapped(hist@[i], #[trigger] md.history@[i])
        },
        r matches Err(e) ==> e == MigrateError::InvalidDateError,
{
    let activities = map_activities(acts);
    let history = match map_histories(hist) {
        Ok(out) => out,
        Err(e) => {
            return Err(e);
        },
    };
    Ok(MigrationData { activities, history })
}

} // verus!
