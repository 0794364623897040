//! What holds of the timer over an attempt: how the time of the attempt
//! moves, what a full run of splits gives, what an undo takes back, and when
//! the history grows.

use vstd::prelude::*;
use crate::error::TransitionFault;
use crate::history::spec_next_index;
use crate::model::{Operation, Phase, TimerView};

verus! {

/// The latest recorded time in `splits`, or 0 where none is recorded.
pub open spec fn last_recorded(splits: Seq<Option<u64>>) -> int
    decreases splits.len(),
{
    if splits.len() == 0 {
        0
    } else {
        match splits.last() {
            Some(time) => time as int,
            None => last_recorded(splits.drop_last()),
        }
    }
}

/// The sum of the split deltas: for each recorded time, how far it lies
/// after the recorded time before it, or after the start for the first.
pub open spec fn sum_of_deltas(splits: Seq<Option<u64>>) -> int
    decreases splits.len(),
{
    if splits.len() == 0 {
        0
    } else {
        match splits.last() {
            Some(time) => sum_of_deltas(splits.drop_last()) + (time - last_recorded(
                splits.drop_last(),
            )),
            None => sum_of_deltas(splits.drop_last()),
        }
    }
}

/// The timer after a split or start was asked for at each of the given
/// instants in turn.
pub open spec fn after_splits(timer: TimerView, instants: Seq<u64>) -> TimerView
    decreases instants.len(),
{
    if instants.len() == 0 {
        timer
    } else {
        after_splits(timer, instants.drop_last()).step(Operation::SplitOrStart, instants.last())
    }
}

/// The timer after each of the given operations was asked for in turn, each
/// at its instant.
pub open spec fn after_steps(timer: TimerView, steps: Seq<(Operation, u64)>) -> TimerView
    decreases steps.len(),
{
    if steps.len() == 0 {
        timer
    } else {
        after_steps(timer, steps.drop_last()).step(steps.last().0, steps.last().1)
    }
}

/// Whether an operation is a reset.
pub open spec fn is_reset(operation: Operation) -> bool {
    operation == Operation::ResetAndKeep || operation == Operation::ResetAndDrop
}

/// The split deltas of any list of splits add up to the latest recorded
/// time.
pub proof fn lemma_deltas_sum_to_last(splits: Seq<Option<u64>>)
    ensures
        sum_of_deltas(splits) == last_recorded(splits),
    decreases splits.len(),
{
    if splits.len() > 0 {
        lemma_deltas_sum_to_last(splits.drop_last());
    }
}

/// Whenever an attempt has ended, skipped segments or not, the time in its
/// record is the sum of the split deltas, and it is the time the timer
/// shows.
pub proof fn lemma_outcome_is_sum_of_deltas(timer: TimerView, now: u64)
    requires
        timer.wf(),
        timer.phase == Phase::Ended,
    ensures
        timer.current_record().outcome == Some(sum_of_deltas(timer.splits) as u64),
        sum_of_deltas(timer.splits) == timer.elapsed_at(now),
{
    lemma_deltas_sum_to_last(timer.splits);
}

/// Every operation, allowed or not, keeps the timer's invariant and leaves
/// the segments of the run and the comparisons as they were.
pub proof fn lemma_step_keeps_invariant(timer: TimerView, operation: Operation, now: u64)
    requires
        timer.wf(),
    ensures
        timer.step(operation, now).wf(),
        timer.step(operation, now).document.segments == timer.document.segments,
        timer.step(operation, now).comparisons == timer.comparisons,
{
}

/// While the timer is running, the time of the attempt read at a later
/// instant is no less than read at an earlier one. While it is paused, and
/// once it has ended, the time is the same whenever it is read. It is never
/// negative.
pub proof fn lemma_elapsed_grows_with_time(timer: TimerView, earlier: u64, later: u64)
    requires
        timer.wf(),
        earlier <= later,
    ensures
        0 <= timer.elapsed_at(earlier) <= timer.elapsed_at(later),
        timer.phase != Phase::Running ==> timer.elapsed_at(earlier) == timer.elapsed_at(later),
{
}

/// No operation but a reset takes time off the attempt: read at `now` or
/// later, the time of the attempt after the operation is no less than it was
/// at `now` before. A pause holds the time at what it was at `now`, and a
/// resume at what it was during the pause.
pub proof fn lemma_elapsed_across_operation(
    timer: TimerView,
    operation: Operation,
    now: u64,
    later: u64,
)
    requires
        timer.wf(),
        !is_reset(operation),
        now <= later,
    ensures
        timer.elapsed_at(now) <= timer.step(operation, now).elapsed_at(later),
        timer.step(operation, now).phase == Phase::Paused ==> timer.step(
            operation,
            now,
        ).elapsed_at(later) == timer.elapsed_at(now),
        timer.phase == Phase::Paused ==> timer.step(operation, now).elapsed_at(now)
            == timer.elapsed_at(now),
{
}

/// Over any operations without a reset, asked for at instants that never
/// go back, the time of the attempt read when the last one is asked for is
/// no less than read when the first one was.
pub proof fn lemma_elapsed_never_runs_back(timer: TimerView, steps: Seq<(Operation, u64)>)
    requires
        timer.wf(),
        steps.len() > 0,
        forall|i: int| 0 <= i < steps.len() ==> !is_reset(#[trigger] steps[i].0),
        forall|i: int, j: int| 0 <= i <= j < steps.len() ==> steps[i].1 <= steps[j].1,
    ensures
        after_steps(timer, steps).wf(),
        timer.elapsed_at(steps[0].1) <= after_steps(timer, steps).elapsed_at(steps.last().1),
    decreases steps.len(),
{
    let before = steps.drop_last();
    let (operation, now) = steps.last();
    if before.len() == 0 {
        lemma_step_keeps_invariant(timer, operation, now);
        lemma_elapsed_across_operation(timer, operation, now, now);
    } else {
        lemma_elapsed_never_runs_back(timer, before);
        let middle = after_steps(timer, before);
        lemma_step_keeps_invariant(middle, operation, now);
        lemma_elapsed_grows_with_time(middle, before.last().1, now);
        lemma_elapsed_across_operation(middle, operation, now, now);
    }
}

/// From before the start, one start and then a split for all segments but
/// the last leave the timer running on a later segment, with a time
/// recorded for each segment left behind.
pub proof fn lemma_run_under_way(timer: TimerView, instants: Seq<u64>)
    requires
        timer.wf(),
        timer.phase == Phase::NotStarted,
        spec_next_index(timer.history) is Some,
        1 <= instants.len() <= timer.segment_count(),
    ensures
        after_splits(timer, instants).wf(),
        after_splits(timer, instants).phase == Phase::Running,
        after_splits(timer, instants).splits.len() == instants.len() - 1,
        forall|i: int|
            0 <= i < instants.len() - 1 ==> (#[trigger] after_splits(timer, instants).splits[i])
                is Some,
        after_splits(timer, instants).history == timer.history,
        after_splits(timer, instants).document == timer.document,
        after_splits(timer, instants).attempt_index == spec_next_index(timer.history)->0,
    decreases instants.len(),
{
    let before = instants.drop_last();
    if before.len() == 0 {
        assert(after_splits(timer, before) == timer);
    } else {
        lemma_run_under_way(timer, before);
    }
}

/// A start and then one split for each segment, from before the start, end
/// the attempt: the timer has ended, a time is recorded for every segment,
/// and the attempt's record holds as its time the sum of the split deltas.
/// The history itself is as it was, and the snapshot's history is one record
/// longer.
pub proof fn lemma_full_run_ends(timer: TimerView, instants: Seq<u64>)
    requires
        timer.wf(),
        timer.phase == Phase::NotStarted,
        spec_next_index(timer.history) is Some,
        instants.len() == timer.segment_count() + 1,
    ensures
        after_splits(timer, instants).wf(),
        after_splits(timer, instants).phase == Phase::Ended,
        after_splits(timer, instants).splits.len() == timer.segment_count(),
        forall|i: int|
            0 <= i < timer.segment_count() ==> (#[trigger] after_splits(timer, instants).splits[i])
                is Some,
        after_splits(timer, instants).current_record().outcome == Some(
            sum_of_deltas(after_splits(timer, instants).splits) as u64,
        ),
        sum_of_deltas(after_splits(timer, instants).splits) == after_splits(
            timer,
            instants,
        ).elapsed_at(instants.last()),
        after_splits(timer, instants).history == timer.history,
        after_splits(timer, instants).snapshot_history() == timer.history.push(
            after_splits(timer, instants).current_record(),
        ),
{
    lemma_run_under_way(timer, instants.drop_last());
    lemma_outcome_is_sum_of_deltas(after_splits(timer, instants), instants.last());
}

/// Whether no instant of the list is earlier than one before it.
pub open spec fn never_go_back(instants: Seq<u64>) -> bool {
    forall|i: int, j: int| 0 <= i <= j < instants.len() ==> instants[i] <= instants[j]
}

/// Whether every instant of the list is later than the one before it.
pub open spec fn strictly_increase(instants: Seq<u64>) -> bool {
    forall|i: int, j: int| 0 <= i < j < instants.len() ==> instants[i] < instants[j]
}

/// From before the start, a start and then splits at instants that never
/// go back, without a pause, record for each segment left behind how long
/// after the start its split was asked for.
pub proof fn lemma_run_records_instants(timer: TimerView, instants: Seq<u64>)
    requires
        timer.wf(),
        timer.phase == Phase::NotStarted,
        spec_next_index(timer.history) is Some,
        1 <= instants.len() <= timer.segment_count() + 1,
        never_go_back(instants),
    ensures
        after_splits(timer, instants).started_at == instants[0],
        after_splits(timer, instants).latest == instants.last(),
        after_splits(timer, instants).paused_total == 0,
        after_splits(timer, instants).splits.len() == instants.len() - 1,
        forall|i: int|
            0 <= i < instants.len() - 1 ==> (#[trigger] after_splits(timer, instants).splits[i])
                == Some((instants[i + 1] - instants[0]) as u64),
    decreases instants.len(),
{
    let before = instants.drop_last();
    if before.len() == 0 {
        assert(after_splits(timer, before) == timer);
    } else {
        assert(never_go_back(before)) by {
            assert forall|i: int, j: int| 0 <= i <= j < before.len() implies before[i]
                <= before[j] by {
                assert(before[i] == instants[i] && before[j] == instants[j]);
            }
        }
        lemma_run_under_way(timer, before);
        lemma_run_records_instants(timer, before);
        let middle = after_splits(timer, before);
        assert(before[0] == instants[0]);
        assert(middle.latest == instants[instants.len() - 2]);
        assert(middle.clamp(instants.last()) == instants.last());
        let end = after_splits(timer, instants);
        assert(end.splits == middle.splits.push(
            Some((instants.last() - instants[0]) as u64),
        ));
        assert forall|i: int| 0 <= i < instants.len() - 1 implies (#[trigger] end.splits[i])
            == Some((instants[i + 1] - instants[0]) as u64) by {
            if i < instants.len() - 2 {
                assert(end.splits[i] == middle.splits[i]);
                assert(before[i + 1] == instants[i + 1]);
            }
        }
    }
}

/// A full run at instants of which each is later than the one before
/// records for every segment how long after the start its split was asked
/// for, so that every split delta is positive: the first recorded time is
/// above 0 and each later one above the one before it. The time of the
/// attempt is the time from the first instant to the last.
pub proof fn lemma_full_run_deltas_are_positive(timer: TimerView, instants: Seq<u64>)
    requires
        timer.wf(),
        timer.phase == Phase::NotStarted,
        spec_next_index(timer.history) is Some,
        instants.len() == timer.segment_count() + 1,
        strictly_increase(instants),
    ensures
        after_splits(timer, instants).phase == Phase::Ended,
        forall|i: int|
            0 <= i < timer.segment_count() ==> (#[trigger] after_splits(timer, instants).splits[i])
                == Some((instants[i + 1] - instants[0]) as u64),
        after_splits(timer, instants).splits[0]->0 > 0,
        forall|i: int|
            0 < i < timer.segment_count() ==> (#[trigger] after_splits(timer, instants).splits[i])->0
                > after_splits(timer, instants).splits[i - 1]->0,
        after_splits(timer, instants).current_record().outcome == Some(
            (instants.last() - instants[0]) as u64,
        ),
{
    lemma_full_run_ends(timer, instants);
    lemma_run_records_instants(timer, instants);
    let end = after_splits(timer, instants);
    assert forall|i: int| 0 < i < timer.segment_count() implies (#[trigger] end.splits[i])->0
        > end.splits[i - 1]->0 by {
        assert(end.splits[i - 1] == Some((instants[i] - instants[0]) as u64));
        assert(instants[i] < instants[i + 1]);
    }
    assert(end.splits[0] == Some((instants[1] - instants[0]) as u64));
    assert(instants[0] < instants[1]);
}

/// While the timer is running, the time of the attempt read at an instant
/// that is not before the latest one the timer was given is the time since
/// the start without the pauses.
pub proof fn lemma_elapsed_is_time_since_start(timer: TimerView, now: u64)
    requires
        timer.wf(),
        timer.phase == Phase::Running,
        timer.latest <= now,
    ensures
        timer.elapsed_at(now) == now - timer.started_at - timer.paused_total,
{
}

/// A pause and a resume, at instants that do not go back, take the time
/// between them off the attempt and nothing else: during the pause the time
/// stays what it was when the pause began, the resume adds the length of the
/// pause to the time spent in pauses, and from the resume on the time of
/// the attempt goes on from where it stood.
pub proof fn lemma_resume_adds_the_pause(
    timer: TimerView,
    pause_at: u64,
    resume_at: u64,
    now: u64,
)
    requires
        timer.wf(),
        timer.phase == Phase::Running,
        timer.latest <= pause_at <= resume_at <= now,
    ensures
        timer.step(Operation::TogglePause, pause_at).phase == Phase::Paused,
        timer.step(Operation::TogglePause, pause_at).elapsed_at(now) == timer.elapsed_at(
            pause_at,
        ),
        timer.step(Operation::TogglePause, pause_at).step(
            Operation::TogglePause,
            resume_at,
        ).phase == Phase::Running,
        timer.step(Operation::TogglePause, pause_at).step(
            Operation::TogglePause,
            resume_at,
        ).paused_total == timer.paused_total + (resume_at - pause_at),
        timer.step(Operation::TogglePause, pause_at).step(
            Operation::TogglePause,
            resume_at,
        ).elapsed_at(now) == timer.elapsed_at(pause_at) + (now - resume_at),
{
}

/// An undo after a split that did not end the attempt puts the timer back
/// on the segment it was on, with the entries of the segments behind it as
/// they were: only the latest instant seen has moved on.
pub proof fn lemma_undo_takes_back_split(timer: TimerView, now: u64)
    requires
        timer.wf(),
        timer.phase == Phase::Running,
        timer.current_segment() + 1 < timer.segment_count(),
    ensures
        timer.step(Operation::SplitOrStart, now).fault(Operation::UndoSplit) is None,
        timer.step(Operation::SplitOrStart, now).step(Operation::UndoSplit, now).current_segment()
            == timer.current_segment(),
        timer.step(Operation::SplitOrStart, now).step(Operation::UndoSplit, now) == (TimerView {
            latest: timer.clamp(now),
            ..timer
        }),
{
    let split = timer.step(Operation::SplitOrStart, now);
    assert(split.splits.drop_last() =~= timer.splits);
}

/// An undo on the first segment is not allowed and leaves the timer as it
/// was.
pub proof fn lemma_undo_on_first_segment(timer: TimerView, now: u64)
    requires
        timer.wf(),
        timer.phase == Phase::Running,
        timer.current_segment() == 0,
    ensures
        timer.fault(Operation::UndoSplit) == Some(TransitionFault::NoSplitToUndo),
        timer.step(Operation::UndoSplit, now) == timer,
{
}

/// Whatever operations are asked for, the records that were in the history
/// stay in it, in their places and as they were: the history only grows at
/// its end.
pub proof fn lemma_history_is_kept(timer: TimerView, steps: Seq<(Operation, u64)>)
    requires
        timer.wf(),
    ensures
        after_steps(timer, steps).wf(),
        timer.history.is_prefix_of(after_steps(timer, steps).history),
        after_steps(timer, steps).document.segments == timer.document.segments,
    decreases steps.len(),
{
    if steps.len() > 0 {
        lemma_history_is_kept(timer, steps.drop_last());
        let middle = after_steps(timer, steps.drop_last());
        lemma_step_keeps_invariant(middle, steps.last().0, steps.last().1);
        lemma_history_grows_on_kept_reset(middle, steps.last().0, steps.last().1);
    }
}

/// The history grows only by a reset that keeps the attempt, which adds
/// exactly the attempt's closing record. A reset that drops the attempt,
/// and every other operation, leave the history as it was.
pub proof fn lemma_history_grows_on_kept_reset(timer: TimerView, operation: Operation, now: u64)
    requires
        timer.wf(),
    ensures
        operation == Operation::ResetAndKeep && timer.phase != Phase::NotStarted ==> timer.step(
            operation,
            now,
        ).history == timer.history.push(timer.closing_record(now)) && timer.step(
            operation,
            now,
        ).history.len() == timer.history.len() + 1,
        !(operation == Operation::ResetAndKeep && timer.phase != Phase::NotStarted) ==> timer.step(
            operation,
            now,
        ).history == timer.history,
        timer.phase == Phase::Ended ==> timer.closing_record(now).outcome == Some(
            timer.elapsed_at(now) as u64,
        ),
{
}

} // verus!
