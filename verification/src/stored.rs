//! The form in which a splits file holds the attempts of a history: the
//! number of an attempt as a signed 32-bit integer, its start and end in
//! whole seconds since the Unix epoch, and the time of the run in
//! milliseconds, signed.
//!
//! A record goes into this form where its number and its time fit, and
//! comes back with its start and end cut to the second.

use vstd::prelude::*;
use crate::document::RunDocument;
use crate::error::StoreError;
use crate::history::{indices_increase, AttemptHistory, AttemptRecord};
use crate::persistence::Snapshot;

verus! {

/// An attempt as a splits file holds it.
#[derive(Clone, Copy, Debug, PartialEq, Eq, Structural)]
pub struct StoredAttempt {
    /// The number of the attempt.
    pub id: i32,
    /// When the attempt started, in seconds since the epoch. Files may leave
    /// it out.
    pub started: Option<i64>,
    /// When the attempt ended, in seconds since the epoch.
    pub ended: Option<i64>,
    /// The time of the finished run, in milliseconds.
    pub real_time: Option<i64>,
}

/// The greatest count of seconds whose milliseconds still are an instant.
pub open spec fn max_seconds() -> int {
    (u64::MAX / 1000) as int
}

/// Whether a record can be stored: its index and its time fit the stored
/// form.
pub open spec fn fits_stored(record: AttemptRecord) -> bool {
    &&& record.index <= i32::MAX
    &&& record.outcome matches Some(time) ==> time <= i64::MAX
}

/// The stored form of a record that fits it.
pub open spec fn stored_form(record: AttemptRecord) -> StoredAttempt {
    StoredAttempt {
        id: record.index as i32,
        started: Some((record.started_at / 1000) as i64),
        ended: match record.ended_at {
            Some(at) => Some((at / 1000) as i64),
            None => None,
        },
        real_time: match record.outcome {
            Some(time) => Some(time as i64),
            None => None,
        },
    }
}

/// Whether a count of seconds is an instant: not negative, and not beyond
/// the greatest instant.
pub open spec fn is_instant(seconds: i64) -> bool {
    0 <= seconds <= max_seconds()
}

/// Whether a stored attempt can be read as a record: its number and its
/// time are not negative, and its start and end are instants.
pub open spec fn is_readable(stored: StoredAttempt) -> bool {
    &&& stored.id >= 0
    &&& stored.started matches Some(at) ==> is_instant(at)
    &&& stored.ended matches Some(at) ==> is_instant(at)
    &&& stored.real_time matches Some(time) ==> time >= 0
}

/// The record that a readable stored attempt holds. An attempt without a
/// start is taken to have started at the epoch.
pub open spec fn record_form(stored: StoredAttempt) -> AttemptRecord {
    AttemptRecord {
        index: stored.id as u64,
        started_at: match stored.started {
            Some(at) => (at * 1000) as u64,
            None => 0,
        },
        ended_at: match stored.ended {
            Some(at) => Some((at * 1000) as u64),
            None => None,
        },
        outcome: match stored.real_time {
            Some(time) => Some(time as u64),
            None => None,
        },
    }
}

/// A record with its start and end cut to the second.
pub open spec fn cut_to_seconds(record: AttemptRecord) -> AttemptRecord {
    AttemptRecord {
        started_at: (record.started_at / 1000 * 1000) as u64,
        ended_at: match record.ended_at {
            Some(at) => Some((at / 1000 * 1000) as u64),
            None => None,
        },
        ..record
    }
}

/// The stored forms of records, in their order.
pub open spec fn stored_forms(records: Seq<AttemptRecord>) -> Seq<StoredAttempt> {
    records.map_values(|record: AttemptRecord| stored_form(record))
}

/// The stored form of a record, where the record fits it.
pub fn to_stored(record: &AttemptRecord) -> (stored: Option<StoredAttempt>)
    ensures
        stored == (if fits_stored(*record) {
            Some(stored_form(*record))
        } else {
            None
        }),
{
    if record.index > 0x7fff_ffff {
        return None;
    }
    let real_time = match record.outcome {
        Some(time) => {
            if time > 0x7fff_ffff_ffff_ffff {
                return None;
            }
            Some(time as i64)
        },
        None => None,
    };
    let ended = match record.ended_at {
        Some(at) => Some((at / 1000) as i64),
        None => None,
    };
    Some(
        StoredAttempt {
            id: record.index as i32,
            started: Some((record.started_at / 1000) as i64),
            ended,
            real_time,
        },
    )
}

/// The instant of a count of seconds, in milliseconds, where it is one.
fn instant_of(seconds: i64) -> (instant: Option<u64>)
    ensures
        instant == (if is_instant(seconds) {
            Some((seconds * 1000) as u64)
        } else {
            None
        }),
{
    if seconds < 0 || seconds as u64 > u64::MAX / 1000 {
        None
    } else {
        Some(seconds as u64 * 1000)
    }
}

/// The record that a stored attempt holds, where it is readable.
pub fn from_stored(stored: &StoredAttempt) -> (record: Option<AttemptRecord>)
    ensures
        record == (if is_readable(*stored) {
            Some(record_form(*stored))
        } else {
            None
        }),
{
    if stored.id < 0 {
        return None;
    }
    let started_at = match stored.started {
        Some(at) => match instant_of(at) {
            Some(instant) => instant,
            None => {
                return None;
            },
        },
        None => 0,
    };
    let ended_at = match stored.ended {
        Some(at) => match instant_of(at) {
            Some(instant) => Some(instant),
            None => {
                return None;
            },
        },
        None => None,
    };
    let outcome = match stored.real_time {
        Some(time) => {
            if time < 0 {
                return None;
            }
            Some(time as u64)
        },
        None => None,
    };
    Some(AttemptRecord { index: stored.id as u64, started_at, ended_at, outcome })
}

/// The stored forms of the records of a history, oldest first, where every
/// record fits the stored form.
pub fn history_to_stored(history: &AttemptHistory) -> (stored: Option<Vec<StoredAttempt>>)
    ensures
        stored is Some <==> forall|i: int| 0 <= i < history@.len() ==> fits_stored(history@[i]),
        stored matches Some(attempts) ==> attempts@ == stored_forms(history@),
{
    let records = history.to_vec();
    let mut attempts: Vec<StoredAttempt> = Vec::new();
    let mut i: usize = 0;
    while i < records.len()
        invariant
            i <= records.len(),
            records@ == history@,
            attempts.len() == i,
            forall|k: int|
                0 <= k < i ==> fits_stored(#[trigger] records@[k]) && attempts@[k] == stored_form(
                    records@[k],
                ),
        decreases records.len() - i,
    {
        match to_stored(&records[i]) {
            Some(attempt) => attempts.push(attempt),
            None => {
                return None;
            },
        }
        i += 1;
    }
    assert(attempts@ =~= stored_forms(history@));
    Some(attempts)
}

/// The records that stored attempts hold, in their order.
pub open spec fn record_forms(attempts: Seq<StoredAttempt>) -> Seq<AttemptRecord> {
    attempts.map_values(|stored: StoredAttempt| record_form(stored))
}

/// Whether a document and stored attempts make a snapshot: the document has
/// a segment, every attempt is readable, and the numbers of the attempts
/// strictly increase.
pub open spec fn makes_snapshot(document: RunDocument, attempts: Seq<StoredAttempt>) -> bool {
    &&& document@.segments.len() > 0
    &&& forall|i: int| 0 <= i < attempts.len() ==> is_readable(attempts[i])
    &&& indices_increase(record_forms(attempts))
}

/// The snapshot that a document and the stored attempts of a splits file
/// make. What does not make a snapshot is refused as `Corrupt`.
pub fn snapshot_from_stored(document: RunDocument, attempts: &Vec<StoredAttempt>) -> (result:
    Result<Snapshot, StoreError>)
    ensures
        result is Ok <==> makes_snapshot(document, attempts@),
        result matches Ok(snapshot) ==> snapshot.wf() && snapshot.document@ == document@
            && snapshot.history@ == record_forms(attempts@),
        result matches Err(error) ==> error == StoreError::Corrupt,
{
    let mut records: Vec<AttemptRecord> = Vec::new();
    let mut i: usize = 0;
    while i < attempts.len()
        invariant
            i <= attempts.len(),
            records.len() == i,
            forall|k: int|
                0 <= k < i ==> is_readable(#[trigger] attempts@[k]) && records@[k] == record_form(
                    attempts@[k],
                ),
        decreases attempts.len() - i,
    {
        match from_stored(&attempts[i]) {
            Some(record) => records.push(record),
            None => {
                return Err(StoreError::Corrupt);
            },
        }
        i += 1;
    }
    assert(records@ =~= record_forms(attempts@));
    Snapshot::from_parts(document, records)
}

/// A record that fits the stored form comes back from it as it was, with
/// its start and end cut to the second. One whose start and end are whole
/// seconds comes back unchanged.
pub proof fn lemma_stored_record_reads_back(record: AttemptRecord)
    requires
        fits_stored(record),
    ensures
        is_readable(stored_form(record)),
        record_form(stored_form(record)) == cut_to_seconds(record),
        record_form(stored_form(record)).index == record.index,
        record_form(stored_form(record)).outcome == record.outcome,
        record.started_at % 1000 == 0 && (record.ended_at matches Some(at) ==> at % 1000 == 0)
            ==> record_form(stored_form(record)) == record,
{
}

/// The records of a history that fit the stored form come back from it as
/// a history of as many records, in the same order, each with its start and
/// end cut to the second.
pub proof fn lemma_stored_history_reads_back(records: Seq<AttemptRecord>)
    requires
        indices_increase(records),
        forall|i: int| 0 <= i < records.len() ==> fits_stored(records[i]),
    ensures
        forall|i: int| 0 <= i < records.len() ==> is_readable(#[trigger] stored_forms(records)[i]),
        record_forms(stored_forms(records)) == records.map_values(
            |record: AttemptRecord| cut_to_seconds(record),
        ),
        indices_increase(record_forms(stored_forms(records))),
{
    let stored = stored_forms(records);
    assert forall|i: int| 0 <= i < records.len() implies is_readable(#[trigger] stored[i])
        && record_form(stored[i]) == cut_to_seconds(records[i]) by {
        lemma_stored_record_reads_back(records[i]);
    }
    assert(record_forms(stored) =~= records.map_values(
        |record: AttemptRecord| cut_to_seconds(record),
    ));
}

} // verus!
