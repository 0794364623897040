//! The attempt history: the log of the attempts made at one run document.

use vstd::prelude::*;

verus! {

/// One attempt at the run, as the history keeps it.
#[derive(Clone, Copy, Debug, PartialEq, Eq, Structural)]
pub struct AttemptRecord {
    /// Number of the attempt. No two records of one history share it.
    pub index: u64,
    /// When the attempt started.
    pub started_at: u64,
    /// When the attempt ended. Absent while it is in progress.
    pub ended_at: Option<u64>,
    /// The time of the finished run, pauses taken out. Absent when the
    /// attempt was given up before the last segment was split.
    pub outcome: Option<u64>,
}

/// How an attempt stands.
#[derive(Clone, Copy, Debug, PartialEq, Eq, Structural)]
pub enum AttemptStatus {
    /// It has no end yet.
    InProgress,
    /// It ended before the last segment was split.
    NotFinished,
    /// It ran through all segments.
    Finished,
}

impl AttemptRecord {
    /// How a record with these fields stands.
    pub open spec fn spec_status(self) -> AttemptStatus {
        if self.outcome is Some {
            AttemptStatus::Finished
        } else if self.ended_at is Some {
            AttemptStatus::NotFinished
        } else {
            AttemptStatus::InProgress
        }
    }

    /// How this attempt stands.
    pub fn status(&self) -> (status: AttemptStatus)
        ensures
            status == self.spec_status(),
    {
        if self.outcome.is_some() {
            AttemptStatus::Finished
        } else if self.ended_at.is_some() {
            AttemptStatus::NotFinished
        } else {
            AttemptStatus::InProgress
        }
    }
}

/// Whether the indices of the records strictly increase from each record to
/// the next, so that none occurs twice.
pub open spec fn indices_increase(records: Seq<AttemptRecord>) -> bool {
    forall|i: int, j: int| 0 <= i < j < records.len() ==> records[i].index < records[j].index
}

/// The index that the attempt after these records gets: one more than the
/// last record's, or 1 where there is none. Absent where no greater index is
/// left.
pub open spec fn spec_next_index(records: Seq<AttemptRecord>) -> Option<u64> {
    if records.len() == 0 {
        Some(1u64)
    } else if records.last().index < u64::MAX {
        Some((records.last().index + 1) as u64)
    } else {
        None
    }
}

/// The past attempts at one run document, oldest first. Records are only
/// ever added at the end, and none is changed once it is in.
#[derive(Debug, PartialEq, Eq)]
pub struct AttemptHistory {
    records: Vec<AttemptRecord>,
}

impl View for AttemptHistory {
    type V = Seq<AttemptRecord>;

    closed spec fn view(&self) -> Seq<AttemptRecord> {
        self.records@
    }
}

impl AttemptHistory {
    /// The invariant of a history: the indices of its records strictly
    /// increase.
    pub open spec fn wf(&self) -> bool {
        indices_increase(self@)
    }

    /// A history without records.
    pub fn new() -> (history: AttemptHistory)
        ensures
            history.wf(),
            history@ == Seq::<AttemptRecord>::empty(),
    {
        AttemptHistory { records: Vec::new() }
    }

    /// The history made of the given records, where their indices strictly
    /// increase; nothing otherwise.
    pub fn from_records(records: Vec<AttemptRecord>) -> (history: Option<AttemptHistory>)
        ensures
            history is Some <==> indices_increase(records@),
            history matches Some(h) ==> h.wf() && h@ == records@,
    {
        let mut i: usize = 1;
        while i < records.len()
            invariant
                1 <= i,
                forall|a: int, b: int|
                    0 <= a < b < i && b < records.len() ==> records@[a].index < records@[b].index,
            decreases records.len() - i,
        {
            if records[i - 1].index >= records[i].index {
                return None;
            }
            i += 1;
        }
        Some(AttemptHistory { records })
    }

    /// The number of records.
    pub fn len(&self) -> (count: usize)
        ensures
            count == self@.len(),
    {
        self.records.len()
    }

    /// The record at the given place, counted from the oldest.
    pub fn get(&self, position: usize) -> (record: Option<AttemptRecord>)
        ensures
            record == (if position < self@.len() {
                Some(self@[position as int])
            } else {
                None
            }),
    {
        if position < self.records.len() {
            Some(self.records[position])
        } else {
            None
        }
    }

    /// The newest record.
    pub fn last(&self) -> (record: Option<AttemptRecord>)
        ensures
            record == (if self@.len() > 0 {
                Some(self@.last())
            } else {
                None
            }),
    {
        let count = self.records.len();
        if count > 0 {
            Some(self.records[count - 1])
        } else {
            None
        }
    }

    /// How the newest attempt stands, where there is one.
    pub fn last_status(&self) -> (status: Option<AttemptStatus>)
        ensures
            status == (if self@.len() > 0 {
                Some(self@.last().spec_status())
            } else {
                None
            }),
    {
        match self.last() {
            Some(record) => Some(record.status()),
            None => None,
        }
    }

    /// The index for the next attempt.
    pub fn next_index(&self) -> (index: Option<u64>)
        ensures
            index == spec_next_index(self@),
    {
        match self.last() {
            None => Some(1),
            Some(record) => if record.index < u64::MAX {
                Some(record.index + 1)
            } else {
                None
            },
        }
    }

    /// Adds a record at the end, where its index is greater than that of
    /// every record in the history. Otherwise the history stays as it is.
    pub fn append(&mut self, record: AttemptRecord) -> (appended: bool)
        requires
            old(self).wf(),
        ensures
            final(self).wf(),
            appended == (old(self)@.len() == 0 || old(self)@.last().index < record.index),
            final(self)@ == (if appended {
                old(self)@.push(record)
            } else {
                old(self)@
            }),
    {
        let count = self.records.len();
        if count == 0 || self.records[count - 1].index < record.index {
            self.records.push(record);
            true
        } else {
            false
        }
    }

    /// The records, oldest first.
    pub fn to_vec(&self) -> (records: Vec<AttemptRecord>)
        ensures
            records@ == self@,
    {
        let mut records: Vec<AttemptRecord> = Vec::new();
        let mut i: usize = 0;
        while i < self.records.len()
            invariant
                i <= self.records.len(),
                records@ == self.records@.subrange(0, i as int),
            decreases self.records.len() - i,
        {
            records.push(self.records[i]);
            i += 1;
        }
        records
    }
}

impl Clone for AttemptHistory {
    fn clone(&self) -> (copy: AttemptHistory)
        ensures
            copy@ == self@,
    {
        AttemptHistory { records: self.to_vec() }
    }
}

} // verus!
