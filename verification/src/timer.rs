//! The timer: the state machine of the attempt, over the run document, the
//! history and the comparison selector.

use vstd::prelude::*;
use crate::comparison::{builtin_comparisons, ComparisonSelector, ComparisonView};
use crate::document::{RunDocument, RunDocumentView};
use crate::error::{TimerError, TransitionFault};
use crate::history::{AttemptHistory, AttemptRecord};
use crate::model::{Operation, Phase, TimerView};
use crate::persistence::Snapshot;

verus! {

/// The timer: the run document, the history of its attempts, the comparison
/// selector and the state of the attempt under way.
#[derive(Debug)]
pub struct Timer {
    document: RunDocument,
    history: AttemptHistory,
    comparisons: ComparisonSelector,
    phase: Phase,
    attempt_index: u64,
    started_at: u64,
    latest: u64,
    paused_total: u64,
    splits: Vec<Option<u64>>,
}

impl View for Timer {
    type V = TimerView;

    closed spec fn view(&self) -> TimerView {
        TimerView {
            document: self.document@,
            history: self.history@,
            comparisons: self.comparisons@,
            phase: self.phase,
            attempt_index: self.attempt_index,
            started_at: self.started_at,
            latest: self.latest,
            paused_total: self.paused_total,
            splits: self.splits@,
        }
    }
}

impl Timer {
    /// The invariant of a timer. Every constructor establishes it and every
    /// operation keeps it.
    pub open spec fn wf(&self) -> bool {
        self@.wf()
    }

    /// A timer over the given document and history, before any attempt, with
    /// the built-in comparisons on offer. A document without segments is
    /// refused with `EmptyRunDocument`.
    pub fn new(document: RunDocument, history: AttemptHistory) -> (result: Result<
        Timer,
        TimerError,
    >)
        requires
            history.wf(),
        ensures
            result is Ok <==> document@.segments.len() > 0,
            result matches Ok(timer) ==> timer.wf() && timer@ == TimerView::idle(
                document@,
                history@,
                builtin_comparisons(),
            ),
            result matches Err(error) ==> error == TimerError::EmptyRunDocument,
    {
        if document.is_empty() {
            return Err(TimerError::EmptyRunDocument);
        }
        Ok(Timer::over(document, history))
    }

    /// A timer over a document that has a segment.
    pub(crate) fn over(document: RunDocument, history: AttemptHistory) -> (timer: Timer)
        requires
            document@.segments.len() > 0,
            history.wf(),
        ensures
            timer.wf(),
            timer@ == TimerView::idle(document@, history@, builtin_comparisons()),
    {
        Timer {
            document,
            history,
            comparisons: ComparisonSelector::new(),
            phase: Phase::NotStarted,
            attempt_index: 0,
            started_at: 0,
            latest: 0,
            paused_total: 0,
            splits: Vec::new(),
        }
    }

    /// Starts an attempt, or splits the current segment of the running one.
    ///
    /// While the timer is paused or has ended, and where the history leaves
    /// no index for a new attempt, the call reports `InvalidTransition` and
    /// changes nothing.
    pub fn split_or_start(&mut self, now: u64) -> (result: Result<(), TimerError>)
        requires
            old(self).wf(),
        ensures
            final(self).wf(),
            match old(self)@.split_fault() {
                None => result is Ok && final(self)@ == old(self)@.split_or_start(now),
                Some(fault) => result == Err::<(), TimerError>(
                    TimerError::InvalidTransition(fault),
                ) && final(self)@ == old(self)@,
            },
    {
        match self.phase {
            Phase::NotStarted => match self.history.next_index() {
                Some(index) => {
                    self.phase = Phase::Running;
                    self.attempt_index = index;
                    self.started_at = now;
                    self.latest = now;
                    self.paused_total = 0;
                    assert(self@.splits =~= Seq::empty());
                    Ok(())
                },
                None => Err(TimerError::InvalidTransition(TransitionFault::NoIndexLeft)),
            },
            Phase::Running => {
                let instant = if now > self.latest {
                    now
                } else {
                    self.latest
                };
                let time = instant - self.started_at - self.paused_total;
                self.splits.push(Some(time));
                self.latest = instant;
                if self.splits.len() == self.document.len() {
                    self.phase = Phase::Ended;
                }
                Ok(())
            },
            Phase::Paused => Err(TimerError::InvalidTransition(TransitionFault::WrongPhase)),
            Phase::Ended => Err(TimerError::InvalidTransition(TransitionFault::WrongPhase)),
        }
    }

    /// Takes back the last split: the timer is on the segment before again,
    /// and what was recorded for that segment is gone.
    ///
    /// While the timer is not running, and on the first segment, the call
    /// reports `InvalidTransition` and changes nothing.
    pub fn undo_split(&mut self) -> (result: Result<(), TimerError>)
        requires
            old(self).wf(),
        ensures
            final(self).wf(),
            match old(self)@.undo_fault() {
                None => result is Ok && final(self)@ == old(self)@.undo_split(),
                Some(fault) => result == Err::<(), TimerError>(
                    TimerError::InvalidTransition(fault),
                ) && final(self)@ == old(self)@,
            },
    {
        if self.phase != Phase::Running {
            return Err(TimerError::InvalidTransition(TransitionFault::WrongPhase));
        }
        if self.splits.len() == 0 {
            return Err(TimerError::InvalidTransition(TransitionFault::NoSplitToUndo));
        }
        self.splits.pop();
        Ok(())
    }

    /// Leaves the current segment behind without a time for it.
    ///
    /// While the timer is not running, and on the last segment, the call
    /// reports `InvalidTransition` and changes nothing.
    pub fn skip_split(&mut self) -> (result: Result<(), TimerError>)
        requires
            old(self).wf(),
        ensures
            final(self).wf(),
            match old(self)@.skip_fault() {
                None => result is Ok && final(self)@ == old(self)@.skip_split(),
                Some(fault) => result == Err::<(), TimerError>(
                    TimerError::InvalidTransition(fault),
                ) && final(self)@ == old(self)@,
            },
    {
        if self.phase != Phase::Running {
            return Err(TimerError::InvalidTransition(TransitionFault::WrongPhase));
        }
        let count = self.document.len();
        if self.splits.len() + 1 >= count {
            return Err(TimerError::InvalidTransition(TransitionFault::OnLastSegment));
        }
        self.splits.push(None);
        Ok(())
    }

    /// Pauses the running attempt, or resumes the paused one.
    ///
    /// Before the start and after the end the call reports
    /// `InvalidTransition` and changes nothing.
    pub fn toggle_pause(&mut self, now: u64) -> (result: Result<(), TimerError>)
        requires
            old(self).wf(),
        ensures
            final(self).wf(),
            match old(self)@.pause_fault() {
                None => result is Ok && final(self)@ == old(self)@.toggle_pause(now),
                Some(fault) => result == Err::<(), TimerError>(
                    TimerError::InvalidTransition(fault),
                ) && final(self)@ == old(self)@,
            },
    {
        let instant = if now > self.latest {
            now
        } else {
            self.latest
        };
        match self.phase {
            Phase::Running => {
                self.phase = Phase::Paused;
                self.latest = instant;
                Ok(())
            },
            Phase::Paused => {
                self.phase = Phase::Running;
                self.paused_total = self.paused_total + (instant - self.latest);
                self.latest = instant;
                Ok(())
            },
            Phase::NotStarted => Err(TimerError::InvalidTransition(TransitionFault::WrongPhase)),
            Phase::Ended => Err(TimerError::InvalidTransition(TransitionFault::WrongPhase)),
        }
    }

    /// Ends the attempt under way and takes the timer back to before any
    /// attempt. With `update_history` the attempt's record goes into the
    /// history: that of the finished run, or one without a time where the
    /// attempt had not ended. Without, the attempt is dropped.
    ///
    /// Before the start the call reports `InvalidTransition` and changes
    /// nothing.
    pub fn reset(&mut self, update_history: bool, now: u64) -> (result: Result<(), TimerError>)
        requires
            old(self).wf(),
        ensures
            final(self).wf(),
            match old(self)@.reset_fault() {
                None => result is Ok && final(self)@ == old(self)@.reset(update_history, now),
                Some(fault) => result == Err::<(), TimerError>(
                    TimerError::InvalidTransition(fault),
                ) && final(self)@ == old(self)@,
            },
    {
        if self.phase == Phase::NotStarted {
            return Err(TimerError::InvalidTransition(TransitionFault::WrongPhase));
        }
        if update_history {
            let record = self.closing_record(now);
            let appended = self.history.append(record);
            self.document.modified = true;
        }
        self.phase = Phase::NotStarted;
        self.attempt_index = 0;
        self.started_at = 0;
        self.latest = 0;
        self.paused_total = 0;
        self.splits = Vec::new();
        Ok(())
    }

    /// The record with which the attempt under way would be closed at
    /// `now`.
    fn closing_record(&self, now: u64) -> (record: AttemptRecord)
        requires
            self.wf(),
            self@.phase != Phase::NotStarted,
        ensures
            record == self@.closing_record(now),
    {
        if self.phase == Phase::Ended {
            AttemptRecord {
                index: self.attempt_index,
                started_at: self.started_at,
                ended_at: Some(self.latest),
                outcome: Some(self.latest - self.started_at - self.paused_total),
            }
        } else {
            AttemptRecord {
                index: self.attempt_index,
                started_at: self.started_at,
                ended_at: Some(if now > self.latest { now } else { self.latest }),
                outcome: None,
            }
        }
    }

    /// The time of the attempt, read at `now`. It reads and changes
    /// nothing: before the start it is 0, while running the time since the
    /// start without the pauses, while paused the time at which the pause
    /// began, and once ended the time of the last split.
    pub fn elapsed_time(&self, now: u64) -> (elapsed: u64)
        requires
            self.wf(),
        ensures
            elapsed == self@.elapsed_at(now),
    {
        match self.phase {
            Phase::NotStarted => 0,
            Phase::Running => {
                let instant = if now > self.latest {
                    now
                } else {
                    self.latest
                };
                instant - self.started_at - self.paused_total
            },
            Phase::Paused => self.latest - self.started_at - self.paused_total,
            Phase::Ended => self.latest - self.started_at - self.paused_total,
        }
    }

    /// The phase the timer is in.
    pub fn phase(&self) -> (phase: Phase)
        ensures
            phase == self@.phase,
    {
        self.phase
    }

    /// The number of segments of the run.
    pub fn segment_count(&self) -> (count: usize)
        ensures
            count == self@.segment_count(),
    {
        self.document.len()
    }

    /// The segment that the attempt is on, counted from 0. Once the attempt
    /// has ended this is the number of segments.
    pub fn current_segment(&self) -> (segment: usize)
        ensures
            segment == self@.current_segment(),
    {
        self.splits.len()
    }

    /// Whether the attempt is on the segment at the given place: an attempt
    /// is running or paused, and as many segments lie behind it.
    pub fn is_on_segment(&self, place: usize) -> (on_it: bool)
        requires
            self.wf(),
        ensures
            on_it == ((self@.phase == Phase::Running || self@.phase == Phase::Paused)
                && self@.current_segment() == place),
    {
        match self.phase {
            Phase::Running => self.splits.len() == place,
            Phase::Paused => self.splits.len() == place,
            _ => false,
        }
    }

    /// What was recorded for the segments left behind, first segment first:
    /// the time of the attempt at the split, or nothing for a skipped one.
    pub fn split_times(&self) -> (times: Vec<Option<u64>>)
        ensures
            times@ == self@.splits,
    {
        let mut times: Vec<Option<u64>> = Vec::new();
        let mut i: usize = 0;
        while i < self.splits.len()
            invariant
                i <= self.splits.len(),
                times@ == self.splits@.subrange(0, i as int),
            decreases self.splits.len() - i,
        {
            times.push(self.splits[i]);
            i += 1;
        }
        times
    }

    /// The record of the attempt under way as it stands, where there is
    /// one.
    pub fn current_attempt(&self) -> (record: Option<AttemptRecord>)
        requires
            self.wf(),
        ensures
            record == (if self@.phase == Phase::NotStarted {
                None
            } else {
                Some(self@.current_record())
            }),
    {
        match self.phase {
            Phase::NotStarted => None,
            Phase::Ended => Some(
                AttemptRecord {
                    index: self.attempt_index,
                    started_at: self.started_at,
                    ended_at: Some(self.latest),
                    outcome: Some(self.latest - self.started_at - self.paused_total),
                },
            ),
            _ => Some(
                AttemptRecord {
                    index: self.attempt_index,
                    started_at: self.started_at,
                    ended_at: None,
                    outcome: None,
                },
            ),
        }
    }

    /// The run document.
    pub fn document(&self) -> (document: &RunDocument)
        ensures
            document@ == self@.document,
    {
        &self.document
    }

    /// The history of the attempts that were reset into it.
    pub fn history(&self) -> (history: &AttemptHistory)
        ensures
            history@ == self@.history,
            self.wf() ==> history.wf(),
    {
        &self.history
    }

    /// The comparison selector.
    pub fn comparisons(&self) -> (comparisons: &ComparisonSelector)
        ensures
            comparisons@ == self@.comparisons,
    {
        &self.comparisons
    }

    /// The name of the selected comparison.
    pub fn current_comparison(&self) -> (name: String)
        requires
            self.wf(),
        ensures
            name@ == self@.comparisons.current(),
    {
        self.comparisons.current()
    }

    /// Selects the comparison after the selected one, and the first after
    /// the last. Nothing else changes.
    pub fn switch_to_next_comparison(&mut self)
        requires
            old(self).wf(),
        ensures
            final(self).wf(),
            final(self)@ == (TimerView { comparisons: old(self)@.comparisons.next(), ..old(self)@ }),
    {
        self.comparisons.switch_to_next();
    }

    /// Selects the comparison of the given name, where it is on offer.
    /// Otherwise the call reports `UnknownComparison` and the selection
    /// stays. Nothing else changes either way.
    pub fn set_current_comparison(&mut self, name: &str) -> (result: Result<(), TimerError>)
        requires
            old(self).wf(),
        ensures
            final(self).wf(),
            final(self)@ == (TimerView { comparisons: final(self)@.comparisons, ..old(self)@ }),
            final(self)@.comparisons.names == old(self)@.comparisons.names,
            result is Ok <==> old(self)@.comparisons.offers(name@),
            result is Ok ==> final(self)@.comparisons.current() == name@,
            result is Err ==> result == Err::<(), TimerError>(TimerError::UnknownComparison)
                && final(self)@ == old(self)@,
    {
        self.comparisons.set_comparison(name)
    }

    /// Puts a comparison of the given name on offer, unless one of that
    /// name is on offer already. Nothing else changes.
    pub fn add_custom_comparison(&mut self, name: &str) -> (added: bool)
        requires
            old(self).wf(),
        ensures
            final(self).wf(),
            added == !old(self)@.comparisons.offers(name@),
            final(self)@ == (if added {
                TimerView {
                    comparisons: ComparisonView {
                        names: old(self)@.comparisons.names.push(name@),
                        ..old(self)@.comparisons
                    },
                    ..old(self)@
                }
            } else {
                old(self)@
            }),
    {
        self.comparisons.add_custom(name)
    }

    /// Carries out the operation at `now`. Where it is not allowed the call
    /// reports `InvalidTransition` and changes nothing.
    pub fn apply(&mut self, operation: Operation, now: u64) -> (result: Result<(), TimerError>)
        requires
            old(self).wf(),
        ensures
            final(self).wf(),
            final(self)@ == old(self)@.step(operation, now),
            match old(self)@.fault(operation) {
                None => result is Ok,
                Some(fault) => result == Err::<(), TimerError>(
                    TimerError::InvalidTransition(fault),
                ),
            },
    {
        match operation {
            Operation::SplitOrStart => self.split_or_start(now),
            Operation::UndoSplit => self.undo_split(),
            Operation::SkipSplit => self.skip_split(),
            Operation::TogglePause => self.toggle_pause(now),
            Operation::ResetAndKeep => self.reset(true, now),
            Operation::ResetAndDrop => self.reset(false, now),
        }
    }

    /// A timer over a snapshot, before any attempt. A snapshot whose
    /// document has no segment is refused with `EmptyRunDocument`.
    pub fn from_snapshot(snapshot: Snapshot) -> (result: Result<Timer, TimerError>)
        requires
            snapshot.wf(),
        ensures
            result is Ok <==> snapshot.document@.segments.len() > 0,
            result matches Ok(timer) ==> timer.wf() && timer@ == TimerView::idle(
                snapshot.document@,
                snapshot.history@,
                builtin_comparisons(),
            ),
            result matches Err(error) ==> error == TimerError::EmptyRunDocument,
    {
        Timer::new(snapshot.document, snapshot.history)
    }

    /// A copy of the document and of the history as they stand, for
    /// writing out. While an attempt is under way its record comes last in
    /// the copy's history: without an end while it is running or paused,
    /// with its end and its time once it has ended.
    pub fn snapshot(&self) -> (snapshot: Snapshot)
        requires
            self.wf(),
        ensures
            snapshot.wf(),
            snapshot.document@ == self@.document,
            snapshot.history@ == self@.snapshot_history(),
    {
        let mut history = self.history.clone();
        match self.current_attempt() {
            Some(record) => {
                let appended = history.append(record);
            },
            None => {},
        }
        Snapshot { document: self.document.clone(), history }
    }

    /// Puts another document and history in place of the timer's, and
    /// takes the timer back to before any attempt. An attempt under way is
    /// dropped: it goes neither into the old history nor into the new one.
    /// The comparisons stay as they are.
    ///
    /// A document without segments is refused with `EmptyRunDocument`, and
    /// the timer is then as it was, attempt and all.
    pub fn replace_run(&mut self, snapshot: Snapshot) -> (result: Result<(), TimerError>)
        requires
            old(self).wf(),
            snapshot.wf(),
        ensures
            final(self).wf(),
            result is Ok <==> snapshot.document@.segments.len() > 0,
            result is Ok ==> final(self)@ == TimerView::idle(
                snapshot.document@,
                snapshot.history@,
                old(self)@.comparisons,
            ),
            result is Err ==> result == Err::<(), TimerError>(TimerError::EmptyRunDocument)
                && final(self)@ == old(self)@,
    {
        if snapshot.document.is_empty() {
            return Err(TimerError::EmptyRunDocument);
        }
        self.document = snapshot.document;
        self.history = snapshot.history;
        self.phase = Phase::NotStarted;
        self.attempt_index = 0;
        self.started_at = 0;
        self.latest = 0;
        self.paused_total = 0;
        self.splits = Vec::new();
        assert(self@.splits =~= Seq::empty());
        Ok(())
    }

    /// Notes that the document was written to the file at `path`: the
    /// document now counts as unmodified and names that file as its source.
    /// Nothing else changes.
    pub fn mark_saved(&mut self, path: &str)
        requires
            old(self).wf(),
        ensures
            final(self).wf(),
            final(self)@ == (TimerView {
                document: RunDocumentView {
                    modified: false,
                    source_path: Some(path@),
                    ..old(self)@.document
                },
                ..old(self)@
            }),
    {
        self.document.modified = false;
        self.document.source_path = Some(path.to_owned());
    }
}

} // verus!
