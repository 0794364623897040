use boko_timer::{
    AttemptHistory, AttemptRecord, AttemptStatus, Operation, Phase, RunDocument, Segment, Timer,
    TimerError, TransitionFault,
};

fn document(names: &[&str]) -> RunDocument {
    let mut document = RunDocument::new("Breath of the Wild", "100%");
    for name in names {
        document.push_segment(Segment::new(name));
    }
    document
}

fn timer(names: &[&str]) -> Timer {
    Timer::new(document(names), AttemptHistory::new()).unwrap()
}

fn history_of(indices: &[u64]) -> AttemptHistory {
    let records = indices
        .iter()
        .map(|&index| AttemptRecord {
            index,
            started_at: 1_000 * index,
            ended_at: Some(1_000 * index + 500),
            outcome: Some(500),
        })
        .collect();
    AttemptHistory::from_records(records).unwrap()
}

const WRONG_PHASE: TimerError = TimerError::InvalidTransition(TransitionFault::WrongPhase);

#[test]
fn new_timer_has_not_started() {
    let timer = timer(&["Paraglider", "IST", "Vah Medoh"]);
    assert_eq!(timer.phase(), Phase::NotStarted);
    assert_eq!(timer.segment_count(), 3);
    assert_eq!(timer.current_segment(), 0);
    assert_eq!(timer.split_times(), vec![]);
    assert_eq!(timer.current_attempt(), None);
    assert_eq!(timer.elapsed_time(123_456), 0);
    assert_eq!(timer.history().len(), 0);
    assert_eq!(timer.document().segments[1].name, "IST");
}

#[test]
fn timer_over_empty_document_is_refused() {
    let result = Timer::new(RunDocument::new("Game", "Any%"), AttemptHistory::new());
    assert_eq!(result.err(), Some(TimerError::EmptyRunDocument));
}

#[test]
fn three_segments_three_splits_end_the_attempt() {
    let mut timer = Timer::new(
        document(&["Paraglider", "IST", "Vah Medoh"]),
        history_of(&[1, 2]),
    )
    .unwrap();
    let previous = timer.history().len();

    assert_eq!(timer.split_or_start(10_000), Ok(()));
    assert_eq!(timer.phase(), Phase::Running);
    assert_eq!(timer.split_or_start(12_000), Ok(()));
    assert_eq!(timer.split_or_start(15_500), Ok(()));
    assert_eq!(timer.phase(), Phase::Running);
    assert_eq!(timer.current_segment(), 2);
    assert_eq!(timer.split_or_start(21_000), Ok(()));

    assert_eq!(timer.phase(), Phase::Ended);
    assert_eq!(timer.current_segment(), 3);
    let splits = timer.split_times();
    assert_eq!(splits, vec![Some(2_000), Some(5_500), Some(11_000)]);
    let deltas = [2_000u64, 3_500, 5_500];
    assert!(deltas.iter().all(|&delta| delta > 0));

    let snapshot = timer.snapshot();
    assert_eq!(snapshot.history.len(), previous + 1);
    let record = snapshot.history.last().unwrap();
    assert_eq!(
        record,
        AttemptRecord {
            index: 3,
            started_at: 10_000,
            ended_at: Some(21_000),
            outcome: Some(deltas.iter().sum()),
        }
    );
    assert_eq!(record.status(), AttemptStatus::Finished);
    assert_eq!(timer.history().len(), previous);

    assert_eq!(timer.reset(true, 30_000), Ok(()));
    assert_eq!(timer.phase(), Phase::NotStarted);
    assert_eq!(timer.history().len(), previous + 1);
    assert_eq!(timer.history().last(), Some(record));
}

#[test]
fn start_and_one_split_per_segment_end_any_run() {
    for count in 1..=6usize {
        let names: Vec<String> = (0..count).map(|place| format!("Segment {}", place)).collect();
        let names: Vec<&str> = names.iter().map(|name| name.as_str()).collect();
        let mut timer = timer(&names);
        assert_eq!(timer.split_or_start(500), Ok(()));
        let mut sum = 0;
        for place in 0..count {
            assert_eq!(timer.phase(), Phase::Running);
            assert_eq!(timer.current_segment(), place);
            let delta = 100 * (place as u64 + 1);
            sum += delta;
            assert_eq!(timer.split_or_start(500 + sum), Ok(()));
        }
        assert_eq!(timer.phase(), Phase::Ended);
        assert_eq!(timer.current_attempt().unwrap().outcome, Some(sum));
        assert_eq!(timer.elapsed_time(1_000_000), sum);
        assert_eq!(timer.split_times().len(), count);
    }
}

#[test]
fn full_run_records_the_time_since_the_start_for_every_segment() {
    let instants = [7_000u64, 7_001, 9_500, 20_000, 20_001, 99_999];
    let mut timer = timer(&["A", "B", "C", "D", "E"]);
    for now in instants {
        assert_eq!(timer.split_or_start(now), Ok(()));
    }
    assert_eq!(timer.phase(), Phase::Ended);
    let splits = timer.split_times();
    let mut before = 0;
    for (place, split) in splits.iter().enumerate() {
        assert_eq!(*split, Some(instants[place + 1] - instants[0]));
        assert!(split.unwrap() > before);
        before = split.unwrap();
    }
    assert_eq!(timer.current_attempt().unwrap().outcome, Some(99_999 - 7_000));
}

#[test]
fn resume_adds_the_length_of_the_pause() {
    let mut timer = timer(&["A", "B"]);
    timer.split_or_start(1_000).unwrap();
    let at_pause = timer.elapsed_time(4_000);
    assert_eq!(at_pause, 4_000 - 1_000);
    timer.toggle_pause(4_000).unwrap();
    timer.toggle_pause(9_000).unwrap();
    assert_eq!(timer.phase(), Phase::Running);
    for now in [9_000u64, 9_001, 12_345] {
        assert_eq!(timer.elapsed_time(now), at_pause + (now - 9_000));
        assert_eq!(timer.elapsed_time(now), now - 1_000 - (9_000 - 4_000));
    }
}

#[test]
fn splits_on_a_paused_or_ended_timer_are_refused() {
    let mut timer = timer(&["Only"]);
    timer.split_or_start(0).unwrap();
    timer.toggle_pause(10).unwrap();
    assert_eq!(timer.split_or_start(20), Err(WRONG_PHASE));
    assert_eq!(timer.phase(), Phase::Paused);
    assert_eq!(timer.split_times(), vec![]);
    timer.toggle_pause(30).unwrap();
    timer.split_or_start(40).unwrap();
    assert_eq!(timer.phase(), Phase::Ended);
    assert_eq!(timer.split_or_start(50), Err(WRONG_PHASE));
    assert_eq!(timer.split_times(), vec![Some(20)]);
    assert_eq!(timer.elapsed_time(60), 20);
}

#[test]
fn no_attempt_starts_when_no_index_is_left() {
    let mut timer = Timer::new(document(&["A", "B"]), history_of(&[7, u64::MAX])).unwrap();
    assert_eq!(
        timer.split_or_start(5),
        Err(TimerError::InvalidTransition(TransitionFault::NoIndexLeft))
    );
    assert_eq!(timer.phase(), Phase::NotStarted);
    assert_eq!(timer.current_attempt(), None);
}

#[test]
fn attempt_index_follows_the_history() {
    let mut first = timer(&["A"]);
    first.split_or_start(1).unwrap();
    assert_eq!(first.current_attempt().unwrap().index, 1);

    let mut later = Timer::new(document(&["A"]), history_of(&[3, 10])).unwrap();
    later.split_or_start(1).unwrap();
    assert_eq!(later.current_attempt().unwrap().index, 11);
}

#[test]
fn elapsed_time_grows_while_running() {
    let mut timer = timer(&["A", "B"]);
    timer.split_or_start(1_000).unwrap();
    let mut last = 0;
    for now in [1_000u64, 1_001, 1_500, 1_500, 9_000, 1_000_000] {
        let elapsed = timer.elapsed_time(now);
        assert!(elapsed >= last);
        assert_eq!(elapsed, now - 1_000);
        last = elapsed;
    }
    timer.split_or_start(2_000).unwrap();
    assert_eq!(timer.elapsed_time(2_500), 1_500);
}

#[test]
fn elapsed_time_is_frozen_while_paused() {
    let mut timer = timer(&["A", "B"]);
    timer.split_or_start(1_000).unwrap();
    timer.toggle_pause(4_000).unwrap();
    assert_eq!(timer.phase(), Phase::Paused);
    for now in [4_000u64, 4_001, 10_000, u64::MAX] {
        assert_eq!(timer.elapsed_time(now), 3_000);
    }
    timer.toggle_pause(10_000).unwrap();
    assert_eq!(timer.phase(), Phase::Running);
    assert_eq!(timer.elapsed_time(10_000), 3_000);
    assert_eq!(timer.elapsed_time(10_250), 3_250);
    timer.toggle_pause(11_000).unwrap();
    timer.toggle_pause(12_000).unwrap();
    timer.split_or_start(12_500).unwrap();
    assert_eq!(timer.split_times(), vec![Some(4_500)]);
}

#[test]
fn elapsed_time_does_not_shrink_over_a_mixed_sequence() {
    let mut timer = timer(&["A", "B", "C", "D"]);
    let steps = [
        (Operation::SplitOrStart, 100u64),
        (Operation::SplitOrStart, 250),
        (Operation::TogglePause, 300),
        (Operation::SkipSplit, 320),
        (Operation::TogglePause, 400),
        (Operation::SkipSplit, 410),
        (Operation::UndoSplit, 450),
        (Operation::SplitOrStart, 500),
        (Operation::UndoSplit, 520),
        (Operation::TogglePause, 600),
        (Operation::TogglePause, 900),
        (Operation::SplitOrStart, 1_000),
    ];
    let mut last = 0;
    for (operation, now) in steps {
        let _ = timer.apply(operation, now);
        let elapsed = timer.elapsed_time(now);
        assert!(elapsed >= last, "{:?} at {}", operation, now);
        last = elapsed;
    }
    assert_eq!(last, 500);
}

#[test]
fn an_instant_before_the_latest_is_read_as_the_latest() {
    let mut timer = timer(&["A", "B", "C"]);
    timer.split_or_start(5_000).unwrap();
    timer.split_or_start(6_000).unwrap();
    assert_eq!(timer.elapsed_time(4_000), 1_000);
    timer.split_or_start(5_500).unwrap();
    assert_eq!(timer.split_times(), vec![Some(1_000), Some(1_000)]);
    timer.toggle_pause(100).unwrap();
    timer.toggle_pause(50).unwrap();
    assert_eq!(timer.elapsed_time(6_000), 1_000);
    assert_eq!(timer.elapsed_time(6_400), 1_400);
}

#[test]
fn the_greatest_instant_does_not_overflow() {
    let mut timer = timer(&["A", "B"]);
    timer.split_or_start(0).unwrap();
    timer.toggle_pause(10).unwrap();
    timer.toggle_pause(u64::MAX).unwrap();
    assert_eq!(timer.elapsed_time(u64::MAX), 10);
    timer.split_or_start(u64::MAX).unwrap();
    timer.split_or_start(3).unwrap();
    assert_eq!(timer.split_times(), vec![Some(10), Some(10)]);
    assert_eq!(timer.current_attempt().unwrap().ended_at, Some(u64::MAX));
}

#[test]
fn undo_takes_back_the_last_split() {
    let mut timer = timer(&["A", "B", "C"]);
    timer.split_or_start(0).unwrap();
    timer.split_or_start(700).unwrap();
    let segment = timer.current_segment();
    let splits = timer.split_times();
    assert_eq!(segment, 1);

    timer.split_or_start(1_900).unwrap();
    assert_eq!(timer.current_segment(), 2);
    assert_eq!(timer.split_times(), vec![Some(700), Some(1_900)]);

    assert_eq!(timer.undo_split(), Ok(()));
    assert_eq!(timer.current_segment(), segment);
    assert_eq!(timer.split_times(), splits);
    assert_eq!(timer.phase(), Phase::Running);
    assert_eq!(timer.elapsed_time(2_000), 2_000);
}

#[test]
fn undo_on_the_first_segment_changes_nothing() {
    let mut timer = timer(&["A", "B", "C"]);
    timer.split_or_start(100).unwrap();
    let attempt = timer.current_attempt();
    assert_eq!(
        timer.undo_split(),
        Err(TimerError::InvalidTransition(TransitionFault::NoSplitToUndo))
    );
    assert_eq!(timer.phase(), Phase::Running);
    assert_eq!(timer.current_segment(), 0);
    assert_eq!(timer.split_times(), vec![]);
    assert_eq!(timer.current_attempt(), attempt);
    assert_eq!(timer.elapsed_time(150), 50);
}

#[test]
fn undo_is_refused_unless_running() {
    let mut timer = timer(&["A", "B"]);
    assert_eq!(timer.undo_split(), Err(WRONG_PHASE));
    timer.split_or_start(0).unwrap();
    timer.split_or_start(10).unwrap();
    timer.toggle_pause(20).unwrap();
    assert_eq!(timer.undo_split(), Err(WRONG_PHASE));
    assert_eq!(timer.split_times(), vec![Some(10)]);
    timer.toggle_pause(30).unwrap();
    timer.split_or_start(40).unwrap();
    assert_eq!(timer.phase(), Phase::Ended);
    assert_eq!(timer.undo_split(), Err(WRONG_PHASE));
    assert_eq!(timer.split_times(), vec![Some(10), Some(30)]);
}

#[test]
fn skip_leaves_a_segment_without_a_time() {
    let mut timer = timer(&["A", "B", "C"]);
    timer.split_or_start(0).unwrap();
    assert_eq!(timer.skip_split(), Ok(()));
    assert_eq!(timer.current_segment(), 1);
    assert_eq!(timer.split_times(), vec![None]);
    assert_eq!(timer.skip_split(), Ok(()));
    assert_eq!(timer.current_segment(), 2);
    assert_eq!(timer.phase(), Phase::Running);
    assert_eq!(
        timer.skip_split(),
        Err(TimerError::InvalidTransition(TransitionFault::OnLastSegment))
    );
    assert_eq!(timer.current_segment(), 2);
    timer.split_or_start(900).unwrap();
    assert_eq!(timer.phase(), Phase::Ended);
    assert_eq!(timer.split_times(), vec![None, None, Some(900)]);
    assert_eq!(timer.current_attempt().unwrap().outcome, Some(900));
}

#[test]
fn skip_is_refused_on_a_single_segment_and_unless_running() {
    let mut timer = timer(&["Only"]);
    assert_eq!(timer.skip_split(), Err(WRONG_PHASE));
    timer.split_or_start(0).unwrap();
    assert_eq!(
        timer.skip_split(),
        Err(TimerError::InvalidTransition(TransitionFault::OnLastSegment))
    );
    timer.toggle_pause(5).unwrap();
    assert_eq!(timer.skip_split(), Err(WRONG_PHASE));
    timer.toggle_pause(6).unwrap();
    timer.split_or_start(7).unwrap();
    assert_eq!(timer.skip_split(), Err(WRONG_PHASE));
}

#[test]
fn undo_takes_back_a_skip() {
    let mut timer = timer(&["A", "B", "C"]);
    timer.split_or_start(0).unwrap();
    timer.split_or_start(10).unwrap();
    timer.skip_split().unwrap();
    assert_eq!(timer.split_times(), vec![Some(10), None]);
    timer.undo_split().unwrap();
    assert_eq!(timer.split_times(), vec![Some(10)]);
    assert_eq!(timer.current_segment(), 1);
}

#[test]
fn pause_is_refused_without_an_attempt_in_progress() {
    let mut timer = timer(&["Only"]);
    assert_eq!(timer.toggle_pause(5), Err(WRONG_PHASE));
    assert_eq!(timer.phase(), Phase::NotStarted);
    timer.split_or_start(10).unwrap();
    timer.split_or_start(20).unwrap();
    assert_eq!(timer.toggle_pause(30), Err(WRONG_PHASE));
    assert_eq!(timer.phase(), Phase::Ended);
    assert_eq!(timer.elapsed_time(40), 10);
}

#[test]
fn reset_that_keeps_appends_exactly_one_record() {
    let mut timer = Timer::new(document(&["A", "B"]), history_of(&[4])).unwrap();
    timer.split_or_start(100).unwrap();
    timer.split_or_start(200).unwrap();
    timer.split_or_start(350).unwrap();
    assert_eq!(timer.history().len(), 1);
    assert_eq!(timer.reset(true, 1_000), Ok(()));
    assert_eq!(timer.history().len(), 2);
    assert_eq!(
        timer.history().get(1),
        Some(AttemptRecord { index: 5, started_at: 100, ended_at: Some(350), outcome: Some(250) })
    );
    assert_eq!(timer.history().get(0).unwrap().index, 4);
    assert_eq!(timer.history().get(2), None);
    assert!(timer.document().modified);
    assert_eq!(timer.phase(), Phase::NotStarted);
    assert_eq!(timer.split_times(), vec![]);
    assert_eq!(timer.current_segment(), 0);
    assert_eq!(timer.elapsed_time(2_000), 0);
}

#[test]
fn reset_that_drops_appends_nothing() {
    let mut timer = Timer::new(document(&["A", "B"]), history_of(&[4])).unwrap();
    let before = timer.history().clone();
    timer.split_or_start(100).unwrap();
    timer.split_or_start(200).unwrap();
    timer.split_or_start(350).unwrap();
    assert_eq!(timer.reset(false, 1_000), Ok(()));
    assert_eq!(timer.history(), &before);
    assert!(!timer.document().modified);
    assert_eq!(timer.phase(), Phase::NotStarted);
    assert_eq!(timer.split_times(), vec![]);

    timer.split_or_start(2_000).unwrap();
    assert_eq!(timer.current_attempt().unwrap().index, 5);
}

#[test]
fn reset_of_an_unfinished_attempt_records_no_time() {
    let mut timer = timer(&["A", "B", "C"]);
    timer.split_or_start(100).unwrap();
    timer.split_or_start(200).unwrap();
    assert_eq!(timer.reset(true, 900), Ok(()));
    let record = timer.history().last().unwrap();
    assert_eq!(
        record,
        AttemptRecord { index: 1, started_at: 100, ended_at: Some(900), outcome: None }
    );
    assert_eq!(record.status(), AttemptStatus::NotFinished);

    timer.split_or_start(1_000).unwrap();
    timer.toggle_pause(1_500).unwrap();
    assert_eq!(timer.reset(true, 1_200), Ok(()));
    assert_eq!(
        timer.history().last(),
        Some(AttemptRecord { index: 2, started_at: 1_000, ended_at: Some(1_500), outcome: None })
    );
    assert_eq!(timer.history().len(), 2);
}

#[test]
fn reset_before_the_start_is_refused() {
    let mut timer = timer(&["A"]);
    assert_eq!(timer.reset(true, 10), Err(WRONG_PHASE));
    assert_eq!(timer.reset(false, 10), Err(WRONG_PHASE));
    assert_eq!(timer.history().len(), 0);
    assert!(!timer.document().modified);
}

#[test]
fn history_length_stays_across_pause_resume_skip_undo_and_split() {
    let mut timer = Timer::new(document(&["A", "B", "C"]), history_of(&[1, 2, 3])).unwrap();
    let steps = [
        Operation::SplitOrStart,
        Operation::TogglePause,
        Operation::TogglePause,
        Operation::SkipSplit,
        Operation::UndoSplit,
        Operation::SplitOrStart,
        Operation::SkipSplit,
        Operation::TogglePause,
        Operation::SkipSplit,
        Operation::TogglePause,
        Operation::SplitOrStart,
        Operation::TogglePause,
    ];
    for (place, operation) in steps.into_iter().enumerate() {
        let _ = timer.apply(operation, 100 * place as u64);
        assert_eq!(timer.history().len(), 3, "after {:?}", operation);
        assert_eq!(timer.segment_count(), 3);
    }
    assert_eq!(timer.phase(), Phase::Ended);
}

#[test]
fn snapshot_holds_the_attempt_under_way() {
    let mut timer = Timer::new(document(&["A", "B"]), history_of(&[1])).unwrap();
    assert_eq!(timer.snapshot().history.len(), 1);
    timer.split_or_start(5_000).unwrap();
    let snapshot = timer.snapshot();
    assert_eq!(snapshot.history.len(), 2);
    let record = snapshot.history.last().unwrap();
    assert_eq!(
        record,
        AttemptRecord { index: 2, started_at: 5_000, ended_at: None, outcome: None }
    );
    assert_eq!(record.status(), AttemptStatus::InProgress);
    assert_eq!(snapshot.document, document(&["A", "B"]));
    assert_eq!(timer.history().len(), 1);
}

#[test]
fn apply_does_what_the_named_operations_do() {
    let mut by_name = timer(&["A", "B", "C"]);
    let mut by_value = timer(&["A", "B", "C"]);
    assert_eq!(by_name.split_or_start(1), by_value.apply(Operation::SplitOrStart, 1));
    assert_eq!(by_name.undo_split(), by_value.apply(Operation::UndoSplit, 2));
    assert_eq!(by_name.skip_split(), by_value.apply(Operation::SkipSplit, 3));
    assert_eq!(by_name.toggle_pause(4), by_value.apply(Operation::TogglePause, 4));
    assert_eq!(by_name.split_or_start(5), by_value.apply(Operation::SplitOrStart, 5));
    assert_eq!(by_name.reset(false, 6), by_value.apply(Operation::ResetAndDrop, 6));
    assert_eq!(by_name.reset(true, 7), by_value.apply(Operation::ResetAndKeep, 7));
    assert_eq!(by_name.split_or_start(8), by_value.apply(Operation::SplitOrStart, 8));
    assert_eq!(by_name.reset(true, 9), by_value.apply(Operation::ResetAndKeep, 9));
    assert_eq!(by_name.history(), by_value.history());
    assert_eq!(by_name.history().len(), 1);
    assert_eq!(by_name.phase(), by_value.phase());
}

#[test]
fn replace_run_drops_the_attempt_under_way() {
    let mut timer = Timer::new(document(&["A", "B"]), history_of(&[1])).unwrap();
    timer.switch_to_next_comparison();
    timer.split_or_start(0).unwrap();
    timer.split_or_start(40).unwrap();
    timer.toggle_pause(50).unwrap();
    assert_eq!(timer.phase(), Phase::Paused);

    let other = boko_timer::Snapshot {
        document: document(&["X", "Y", "Z"]),
        history: history_of(&[8, 9]),
    };
    assert_eq!(timer.replace_run(other), Ok(()));
    assert_eq!(timer.phase(), Phase::NotStarted);
    assert_eq!(timer.segment_count(), 3);
    assert_eq!(timer.document().segments[2].name, "Z");
    assert_eq!(timer.history(), &history_of(&[8, 9]));
    assert_eq!(timer.split_times(), vec![]);
    assert_eq!(timer.current_segment(), 0);
    assert_eq!(timer.current_attempt(), None);
    assert_eq!(timer.elapsed_time(1_000), 0);
    assert_eq!(timer.current_comparison(), "Best Segments");

    timer.split_or_start(2_000).unwrap();
    assert_eq!(timer.current_attempt().unwrap().index, 10);
}

#[test]
fn replace_run_after_the_end_drops_the_finished_attempt() {
    let mut timer = timer(&["A"]);
    timer.split_or_start(0).unwrap();
    timer.split_or_start(10).unwrap();
    assert_eq!(timer.phase(), Phase::Ended);
    let other = boko_timer::Snapshot::from_parts(document(&["X", "Y"]), vec![]).unwrap();
    assert_eq!(timer.replace_run(other), Ok(()));
    assert_eq!(timer.phase(), Phase::NotStarted);
    assert_eq!(timer.history().len(), 0);
    assert_eq!(timer.segment_count(), 2);
}

#[test]
fn replace_run_before_the_start_puts_the_run_in_place() {
    let mut timer = timer(&["A", "B"]);
    let other = boko_timer::Snapshot {
        document: document(&["X", "Y", "Z"]),
        history: history_of(&[8, 9]),
    };
    assert_eq!(timer.replace_run(other), Ok(()));
    assert_eq!(timer.segment_count(), 3);
    assert_eq!(timer.history().len(), 2);
    assert_eq!(timer.document().segments[2].name, "Z");
    assert_eq!(timer.phase(), Phase::NotStarted);
}

#[test]
fn replace_run_without_segments_keeps_the_timer_as_it_was() {
    let mut running = Timer::new(document(&["A", "B"]), history_of(&[1])).unwrap();
    running.split_or_start(0).unwrap();
    running.split_or_start(40).unwrap();
    let empty = boko_timer::Snapshot {
        document: RunDocument::new("Game", "Any%"),
        history: AttemptHistory::new(),
    };
    assert_eq!(running.replace_run(empty), Err(TimerError::EmptyRunDocument));
    assert_eq!(running.phase(), Phase::Running);
    assert_eq!(running.segment_count(), 2);
    assert_eq!(running.split_times(), vec![Some(40)]);
    assert_eq!(running.history().len(), 1);
    assert_eq!(running.elapsed_time(100), 100);

    let mut idle = timer(&["A"]);
    let empty = boko_timer::Snapshot {
        document: RunDocument::new("Game", "Any%"),
        history: AttemptHistory::new(),
    };
    assert_eq!(idle.replace_run(empty), Err(TimerError::EmptyRunDocument));
    assert_eq!(idle.segment_count(), 1);
}

#[test]
fn mark_saved_clears_the_modified_flag_and_names_the_file() {
    let mut timer = timer(&["A"]);
    timer.split_or_start(0).unwrap();
    timer.split_or_start(1).unwrap();
    timer.reset(true, 2).unwrap();
    assert!(timer.document().modified);
    assert_eq!(timer.document().source_path, None);
    timer.mark_saved("runs/any.lss");
    assert!(!timer.document().modified);
    assert_eq!(timer.document().source_path.as_deref(), Some("runs/any.lss"));
    assert_eq!(timer.history().len(), 1);
}

#[test]
fn error_messages_tell_the_faults_apart() {
    let errors = [
        WRONG_PHASE,
        TimerError::InvalidTransition(TransitionFault::NoSplitToUndo),
        TimerError::InvalidTransition(TransitionFault::OnLastSegment),
        TimerError::InvalidTransition(TransitionFault::NoIndexLeft),
        TimerError::EmptyRunDocument,
        TimerError::UnknownComparison,
    ];
    assert_eq!(errors[1].message(), "there is no split to undo");
    assert_eq!(errors[4].message(), "the run has no segments");
    for (place, error) in errors.iter().enumerate() {
        for other in &errors[place + 1..] {
            assert_ne!(error.message(), other.message());
        }
    }
}
