//! What is written out and read back: the snapshot of a run document with
//! its history, what is accepted as one, what stands in for one that could
//! not be had, and after which operations one is to be written.
//!
//! The library reads and writes no file. It says what is to be stored and
//! when, and takes what was read.

use vstd::prelude::*;
use crate::document::{default_document, default_document_view, RunDocument};
use crate::error::StoreError;
use crate::history::{indices_increase, AttemptHistory, AttemptRecord};
use crate::model::{Operation, Phase, TimerView};

verus! {

/// A run document and the history of its attempts, as they stood at one
/// moment. The selected comparison is no part of it: every session begins
/// with "Personal Best" selected.
#[derive(Debug, PartialEq, Eq)]
pub struct Snapshot {
    pub document: RunDocument,
    pub history: AttemptHistory,
}

/// The snapshot to go on with after a load, and why it is not the stored
/// one where it is not.
#[derive(Debug, PartialEq, Eq)]
pub struct Restored {
    pub snapshot: Snapshot,
    /// Why the stored snapshot could not be used, where it could not.
    pub warning: Option<StoreError>,
}

impl Snapshot {
    /// The invariant of a snapshot: that of its history.
    pub open spec fn wf(&self) -> bool {
        self.history.wf()
    }

    /// The snapshot made of a document and the records of its attempts, as
    /// read from a store. It is refused as `Corrupt` where the document has
    /// no segment, and where the indices of the records do not strictly
    /// increase.
    pub fn from_parts(document: RunDocument, records: Vec<AttemptRecord>) -> (result: Result<
        Snapshot,
        StoreError,
    >)
        ensures
            result is Ok <==> document@.segments.len() > 0 && indices_increase(records@),
            result matches Ok(snapshot) ==> snapshot.wf() && snapshot.document@ == document@
                && snapshot.history@ == records@,
            result matches Err(error) ==> error == StoreError::Corrupt,
    {
        if document.is_empty() {
            return Err(StoreError::Corrupt);
        }
        match AttemptHistory::from_records(records) {
            Some(history) => Ok(Snapshot { document, history }),
            None => Err(StoreError::Corrupt),
        }
    }

    /// The snapshot to begin with where none is stored: the default
    /// document and an empty history.
    pub fn fallback() -> (snapshot: Snapshot)
        ensures
            snapshot.wf(),
            snapshot.document@ == default_document_view(),
            snapshot.history@ == Seq::<AttemptRecord>::empty(),
    {
        Snapshot { document: default_document(), history: AttemptHistory::new() }
    }
}

/// The snapshot to go on with after a load: the one that was loaded, or the
/// fallback together with the reason where the load failed. A failed load
/// never stops the program.
pub fn restore_or_default(loaded: Result<Snapshot, StoreError>) -> (restored: Restored)
    requires
        loaded matches Ok(snapshot) ==> snapshot.wf(),
    ensures
        restored.snapshot.wf(),
        match loaded {
            Ok(snapshot) => restored.snapshot == snapshot && restored.warning is None,
            Err(error) => restored.snapshot.document@ == default_document_view()
                && restored.snapshot.history@ == Seq::<AttemptRecord>::empty() && restored.warning
                == Some(error),
        },
{
    match loaded {
        Ok(snapshot) => Restored { snapshot, warning: None },
        Err(error) => Restored { snapshot: Snapshot::fallback(), warning: Some(error) },
    }
}

/// What a timer hands out as its snapshot is accepted back as one: the
/// document has a segment and the indices of the records strictly increase.
/// It holds the records of the history and, while an attempt is under way,
/// one more.
pub proof fn lemma_snapshot_is_accepted(timer: TimerView)
    requires
        timer.wf(),
    ensures
        timer.document.segments.len() > 0,
        indices_increase(timer.snapshot_history()),
        timer.history.is_prefix_of(timer.snapshot_history()),
        timer.snapshot_history().len() == timer.history.len() + (if timer.phase
            == Phase::NotStarted {
            0int
        } else {
            1int
        }),
{
}

/// Whether a snapshot is to be written after the operation was asked for
/// on the given timer: after every operation that went through, but for a
/// reset that drops the attempt. An operation that was not allowed changed
/// nothing, so nothing is written.
pub open spec fn spec_autosave_due(before: TimerView, operation: Operation) -> bool {
    before.fault(operation) is None && operation != Operation::ResetAndDrop
}

/// Whether a snapshot is to be written after an operation, given whether
/// it went through.
pub fn autosave_due(operation: Operation, went_through: bool) -> (due: bool)
    ensures
        due == (went_through && operation != Operation::ResetAndDrop),
{
    match operation {
        Operation::ResetAndDrop => false,
        _ => went_through,
    }
}

} // verus!
