//! The timer as a mathematical value: its phases, its invariant, and what
//! each operation makes of it.
//!
//! A timer is `NotStarted` until the first split starts an attempt. It is then
//! `Running`, may be `Paused` and resumed, and is `Ended` once the last
//! segment is split. A reset takes it back to `NotStarted`, from whichever
//! other phase.
//!
//! The timer keeps the latest instant it was given. An instant earlier than
//! that one is read as that one, so that time never runs backwards within an
//! attempt.

use vstd::prelude::*;
use crate::comparison::ComparisonView;
use crate::document::RunDocumentView;
use crate::error::TransitionFault;
use crate::history::{indices_increase, spec_next_index, AttemptRecord};

verus! {

/// Where the timer stands in the life of an attempt.
#[derive(Clone, Copy, Debug, PartialEq, Eq, Structural)]
pub enum Phase {
    NotStarted,
    Running,
    Paused,
    Ended,
}

/// An operation on the attempt, as a value.
#[derive(Clone, Copy, Debug, PartialEq, Eq, Structural)]
pub enum Operation {
    SplitOrStart,
    UndoSplit,
    SkipSplit,
    TogglePause,
    /// A reset that adds the attempt's record to the history.
    ResetAndKeep,
    /// A reset that drops the attempt.
    ResetAndDrop,
}

/// Whether the recorded times in `splits` never decrease from one to a later
/// one, and none is greater than `bound`.
pub open spec fn recorded_in_order(splits: Seq<Option<u64>>, bound: int) -> bool {
    &&& forall|i: int, j: int|
        0 <= i < j < splits.len() && splits[i] is Some && splits[j] is Some ==> splits[i]->0
            <= splits[j]->0
    &&& forall|i: int| 0 <= i < splits.len() && splits[i] is Some ==> splits[i]->0 <= bound
}

/// The timer as a mathematical value.
pub struct TimerView {
    pub document: RunDocumentView,
    /// The records of the attempts that were reset into the history.
    pub history: Seq<AttemptRecord>,
    pub comparisons: ComparisonView,
    pub phase: Phase,
    /// The index of the attempt under way.
    pub attempt_index: u64,
    /// When the attempt under way started.
    pub started_at: u64,
    /// The latest instant the timer was given in the attempt under way. While
    /// the timer is paused this is when the pause began, and once the attempt
    /// has ended it is when it ended.
    pub latest: u64,
    /// The time spent in pauses that were resumed.
    pub paused_total: u64,
    /// One entry for each segment left behind in the attempt under way: the
    /// time of the attempt at which it was split, or nothing where it was
    /// skipped.
    pub splits: Seq<Option<u64>>,
}

impl TimerView {
    /// The number of segments of the run.
    pub open spec fn segment_count(self) -> nat {
        self.document.segments.len()
    }

    /// The segment that the attempt is on: as many segments as were split or
    /// skipped lie behind it.
    pub open spec fn current_segment(self) -> nat {
        self.splits.len()
    }

    /// The given instant, or the latest one the timer has seen where that is
    /// later.
    pub open spec fn clamp(self, now: u64) -> u64 {
        if now > self.latest {
            now
        } else {
            self.latest
        }
    }

    /// The time of the attempt at the latest instant the timer has seen.
    pub open spec fn elapsed_at_latest(self) -> int {
        self.latest - self.started_at - self.paused_total
    }

    /// The time of the attempt, read at `now`: nothing before the start; the
    /// time since the start without the pauses while running; the time at
    /// which the pause began while paused; the time of the last split once
    /// ended.
    pub open spec fn elapsed_at(self, now: u64) -> int {
        match self.phase {
            Phase::NotStarted => 0,
            Phase::Running => self.clamp(now) - self.started_at - self.paused_total,
            Phase::Paused => self.elapsed_at_latest(),
            Phase::Ended => self.elapsed_at_latest(),
        }
    }

    /// The invariant of a timer.
    pub open spec fn wf(self) -> bool {
        &&& self.segment_count() > 0
        &&& indices_increase(self.history)
        &&& self.comparisons.wf()
        &&& self.phase == Phase::NotStarted ==> {
            &&& self.attempt_index == 0
            &&& self.started_at == 0
            &&& self.latest == 0
            &&& self.paused_total == 0
            &&& self.splits.len() == 0
        }
        &&& self.phase != Phase::NotStarted ==> {
            &&& self.history.len() > 0 ==> self.history.last().index < self.attempt_index
            &&& self.started_at + self.paused_total <= self.latest
            &&& recorded_in_order(self.splits, self.elapsed_at_latest())
        }
        &&& self.phase == Phase::Running || self.phase == Phase::Paused ==> self.splits.len()
            < self.segment_count()
        &&& self.phase == Phase::Ended ==> {
            &&& self.splits.len() == self.segment_count()
            &&& self.splits.last() == Some(self.elapsed_at_latest() as u64)
        }
    }

    /// The timer before any attempt, with the given document, history and
    /// comparisons.
    pub open spec fn idle(
        document: RunDocumentView,
        history: Seq<AttemptRecord>,
        comparisons: ComparisonView,
    ) -> TimerView {
        TimerView {
            document,
            history,
            comparisons,
            phase: Phase::NotStarted,
            attempt_index: 0,
            started_at: 0,
            latest: 0,
            paused_total: 0,
            splits: Seq::empty(),
        }
    }

    /// Why a split or start is not allowed, if it is not: the timer is
    /// paused or has ended, or it has not started and the history leaves no
    /// index for a new attempt.
    pub open spec fn split_fault(self) -> Option<TransitionFault> {
        match self.phase {
            Phase::NotStarted => if spec_next_index(self.history) is Some {
                None
            } else {
                Some(TransitionFault::NoIndexLeft)
            },
            Phase::Running => None,
            Phase::Paused => Some(TransitionFault::WrongPhase),
            Phase::Ended => Some(TransitionFault::WrongPhase),
        }
    }

    /// The timer after a split or start at `now`, where that is allowed.
    ///
    /// Before the start this begins an attempt at `now`, on the first
    /// segment. While running it records the time of the attempt for the
    /// current segment and goes on to the next; from the last segment it ends
    /// the attempt.
    pub open spec fn split_or_start(self, now: u64) -> TimerView {
        if self.phase == Phase::NotStarted {
            TimerView {
                phase: Phase::Running,
                attempt_index: spec_next_index(self.history)->0,
                started_at: now,
                latest: now,
                paused_total: 0,
                splits: Seq::empty(),
                ..self
            }
        } else {
            TimerView {
                phase: if self.splits.len() + 1 == self.segment_count() {
                    Phase::Ended
                } else {
                    Phase::Running
                },
                latest: self.clamp(now),
                splits: self.splits.push(Some(self.elapsed_at(now) as u64)),
                ..self
            }
        }
    }

    /// Why an undo is not allowed, if it is not: the timer is not running,
    /// or it is on the first segment.
    pub open spec fn undo_fault(self) -> Option<TransitionFault> {
        if self.phase != Phase::Running {
            Some(TransitionFault::WrongPhase)
        } else if self.splits.len() == 0 {
            Some(TransitionFault::NoSplitToUndo)
        } else {
            None
        }
    }

    /// The timer after an undo, where that is allowed: back on the segment
    /// before, whose entry is gone.
    pub open spec fn undo_split(self) -> TimerView {
        TimerView { splits: self.splits.drop_last(), ..self }
    }

    /// Why a skip is not allowed, if it is not: the timer is not running, or
    /// it is on the last segment.
    pub open spec fn skip_fault(self) -> Option<TransitionFault> {
        if self.phase != Phase::Running {
            Some(TransitionFault::WrongPhase)
        } else if self.splits.len() + 1 >= self.segment_count() {
            Some(TransitionFault::OnLastSegment)
        } else {
            None
        }
    }

    /// The timer after a skip, where that is allowed: on the next segment,
    /// with no time recorded for the one left behind.
    pub open spec fn skip_split(self) -> TimerView {
        TimerView { splits: self.splits.push(None), ..self }
    }

    /// Why a pause or resume is not allowed, if it is not: no attempt is
    /// running or paused.
    pub open spec fn pause_fault(self) -> Option<TransitionFault> {
        if self.phase == Phase::Running || self.phase == Phase::Paused {
            None
        } else {
            Some(TransitionFault::WrongPhase)
        }
    }

    /// The timer after a pause or resume at `now`, where that is allowed. A
    /// pause begins at `now`. A resume adds the time since the pause began
    /// to the time spent in pauses.
    pub open spec fn toggle_pause(self, now: u64) -> TimerView {
        if self.phase == Phase::Running {
            TimerView { phase: Phase::Paused, latest: self.clamp(now), ..self }
        } else {
            TimerView {
                phase: Phase::Running,
                latest: self.clamp(now),
                paused_total: (self.paused_total + (self.clamp(now) - self.latest)) as u64,
                ..self
            }
        }
    }

    /// The record of the attempt under way as it stands: without an end
    /// while the attempt is running or paused, with its end and its time
    /// once it has ended.
    pub open spec fn current_record(self) -> AttemptRecord {
        if self.phase == Phase::Ended {
            AttemptRecord {
                index: self.attempt_index,
                started_at: self.started_at,
                ended_at: Some(self.latest),
                outcome: Some(self.elapsed_at_latest() as u64),
            }
        } else {
            AttemptRecord {
                index: self.attempt_index,
                started_at: self.started_at,
                ended_at: None,
                outcome: None,
            }
        }
    }

    /// The record with which the attempt under way is closed at `now`: that
    /// of the ended attempt, or one that ends at `now` without a time where
    /// the attempt has not ended.
    pub open spec fn closing_record(self, now: u64) -> AttemptRecord {
        if self.phase == Phase::Ended {
            self.current_record()
        } else {
            AttemptRecord {
                index: self.attempt_index,
                started_at: self.started_at,
                ended_at: Some(self.clamp(now)),
                outcome: None,
            }
        }
    }

    /// Why a reset is not allowed, if it is not: no attempt is under way.
    pub open spec fn reset_fault(self) -> Option<TransitionFault> {
        if self.phase == Phase::NotStarted {
            Some(TransitionFault::WrongPhase)
        } else {
            None
        }
    }

    /// The timer after a reset at `now`, where that is allowed: before any
    /// attempt again. With `update_history` the attempt's closing record is
    /// added to the history and the document counts as modified; without,
    /// the attempt leaves no trace.
    pub open spec fn reset(self, update_history: bool, now: u64) -> TimerView {
        if update_history {
            TimerView::idle(
                RunDocumentView { modified: true, ..self.document },
                self.history.push(self.closing_record(now)),
                self.comparisons,
            )
        } else {
            TimerView::idle(self.document, self.history, self.comparisons)
        }
    }

    /// Why the operation is not allowed, if it is not.
    pub open spec fn fault(self, operation: Operation) -> Option<TransitionFault> {
        match operation {
            Operation::SplitOrStart => self.split_fault(),
            Operation::UndoSplit => self.undo_fault(),
            Operation::SkipSplit => self.skip_fault(),
            Operation::TogglePause => self.pause_fault(),
            Operation::ResetAndKeep => self.reset_fault(),
            Operation::ResetAndDrop => self.reset_fault(),
        }
    }

    /// The timer after the operation was asked for at `now`: changed as the
    /// operation says where it is allowed, and as it was where it is not.
    pub open spec fn step(self, operation: Operation, now: u64) -> TimerView {
        if self.fault(operation) is Some {
            self
        } else {
            match operation {
                Operation::SplitOrStart => self.split_or_start(now),
                Operation::UndoSplit => self.undo_split(),
                Operation::SkipSplit => self.skip_split(),
                Operation::TogglePause => self.toggle_pause(now),
                Operation::ResetAndKeep => self.reset(true, now),
                Operation::ResetAndDrop => self.reset(false, now),
            }
        }
    }

    /// The history as a snapshot holds it: the records of the history, and
    /// after them that of the attempt under way, where there is one.
    pub open spec fn snapshot_history(self) -> Seq<AttemptRecord> {
        if self.phase == Phase::NotStarted {
            self.history
        } else {
            self.history.push(self.current_record())
        }
    }
}

} // verus!
