use boko_timer::{AttemptHistory, ComparisonSelector, RunDocument, Segment, Timer, TimerError};

fn fresh_timer() -> Timer {
    let mut document = RunDocument::new("Breath of the Wild", "100%");
    document.push_segment(Segment::new("Paraglider"));
    Timer::new(document, AttemptHistory::new()).unwrap()
}

#[test]
fn unknown_comparison_keeps_the_selection() {
    let mut timer = fresh_timer();
    assert_eq!(timer.current_comparison(), "Personal Best");
    assert_eq!(
        timer.set_current_comparison("Unknown"),
        Err(TimerError::UnknownComparison)
    );
    assert_eq!(timer.current_comparison(), "Personal Best");

    assert_eq!(timer.set_current_comparison("Best Segments"), Ok(()));
    assert_eq!(
        timer.set_current_comparison("Unknown"),
        Err(TimerError::UnknownComparison)
    );
    assert_eq!(timer.current_comparison(), "Best Segments");
}

#[test]
fn selector_offers_the_built_in_comparisons() {
    let selector = ComparisonSelector::new();
    assert_eq!(selector.len(), 3);
    assert_eq!(selector.selected(), 0);
    assert_eq!(selector.name_at(0).as_deref(), Some("Personal Best"));
    assert_eq!(selector.name_at(1).as_deref(), Some("Best Segments"));
    assert_eq!(selector.name_at(2).as_deref(), Some("None"));
    assert_eq!(selector.name_at(3), None);
    assert_eq!(selector.current(), "Personal Best");
    assert!(selector.is_shown());
    assert_eq!(selector.position("None"), Some(2));
    assert_eq!(selector.position("none"), None);
}

#[test]
fn switch_to_next_wraps_to_the_first() {
    let mut selector = ComparisonSelector::new();
    selector.switch_to_next();
    assert_eq!(selector.current(), "Best Segments");
    selector.switch_to_next();
    assert_eq!(selector.current(), "None");
    assert!(!selector.is_shown());
    selector.switch_to_next();
    assert_eq!(selector.current(), "Personal Best");
    assert_eq!(selector.selected(), 0);
}

#[test]
fn none_is_always_on_offer() {
    let mut selector = ComparisonSelector::new();
    assert!(selector.add_custom("Latest Run"));
    assert_eq!(selector.set_comparison("None"), Ok(()));
    assert_eq!(selector.current(), "None");
    assert!(!selector.is_shown());
    assert_eq!(selector.selected(), 2);
}

#[test]
fn custom_comparisons_come_after_the_built_in_ones() {
    let mut selector = ComparisonSelector::new();
    selector.switch_to_next();
    assert!(selector.add_custom("Latest Run"));
    assert!(!selector.add_custom("Latest Run"));
    assert!(!selector.add_custom("None"));
    assert!(selector.add_custom("Average"));
    assert_eq!(selector.len(), 5);
    assert_eq!(selector.current(), "Best Segments");
    assert_eq!(selector.name_at(3).as_deref(), Some("Latest Run"));
    assert_eq!(selector.name_at(4).as_deref(), Some("Average"));
    assert_eq!(selector.set_comparison("Average"), Ok(()));
    assert_eq!(selector.selected(), 4);
    selector.switch_to_next();
    assert_eq!(selector.current(), "Personal Best");
    assert_eq!(selector.clone(), selector);
}

#[test]
fn timer_comparison_calls_leave_the_attempt_alone() {
    let mut timer = fresh_timer();
    timer.split_or_start(100).unwrap();
    timer.switch_to_next_comparison();
    assert_eq!(timer.current_comparison(), "Best Segments");
    assert!(timer.add_custom_comparison("Latest Run"));
    assert!(!timer.add_custom_comparison("Latest Run"));
    assert_eq!(timer.set_current_comparison("Latest Run"), Ok(()));
    assert_eq!(timer.comparisons().selected(), 3);
    assert_eq!(timer.elapsed_time(150), 50);
    assert_eq!(timer.current_segment(), 0);
    timer.switch_to_next_comparison();
    assert_eq!(timer.current_comparison(), "Personal Best");
}
