//! The session around the timer: what the program begins with, what an
//! action asked for by a key does to the timer, and what the program has to
//! do afterwards. The program carries that out, whether it is a write or a
//! dialog, and hands back what came of it.

use vstd::prelude::*;
use crate::comparison::{builtin_comparisons, ComparisonView};
use crate::document::{default_document_view, RunDocumentView};
use crate::error::{StoreError, TimerError, TransitionFault};
use crate::history::{AttemptRecord, AttemptStatus};
use crate::keymap::{default_bindings, Action, KeyMap};
use crate::persistence::{autosave_due, restore_or_default, spec_autosave_due, Snapshot};
use crate::model::{Operation, TimerView};
use crate::timer::Timer;

verus! {

/// What the program has to do after an action.
#[derive(Debug, PartialEq, Eq)]
pub enum Effect {
    /// Nothing.
    Nothing,
    /// Write the timer's snapshot to the place where the program keeps it.
    Autosave,
    /// Write the timer's snapshot to the named file.
    SaveTo(String),
    /// Ask the user for a file, and write the timer's snapshot to it.
    AskSavePath,
    /// Ask the user for a file, and load the snapshot it holds.
    AskOpenPath,
}

/// An [`Effect`] with its file name as a sequence of characters.
pub enum EffectView {
    Nothing,
    Autosave,
    SaveTo(Seq<char>),
    AskSavePath,
    AskOpenPath,
}

impl View for Effect {
    type V = EffectView;

    open spec fn view(&self) -> EffectView {
        match self {
            Effect::Nothing => EffectView::Nothing,
            Effect::Autosave => EffectView::Autosave,
            Effect::SaveTo(path) => EffectView::SaveTo(path@),
            Effect::AskSavePath => EffectView::AskSavePath,
            Effect::AskOpenPath => EffectView::AskOpenPath,
        }
    }
}

/// What came of an action: whether the timer allowed it, and what the
/// program has to do now.
#[derive(Debug, PartialEq, Eq)]
pub struct Outcome {
    pub result: Result<(), TimerError>,
    pub effect: Effect,
}

/// The operation on the attempt that an action asks for, where it asks for
/// one alone. The reset key keeps the attempt.
pub open spec fn operation_of(action: Action) -> Option<Operation> {
    match action {
        Action::Split => Some(Operation::SplitOrStart),
        Action::Undo => Some(Operation::UndoSplit),
        Action::Skip => Some(Operation::SkipSplit),
        Action::Pause => Some(Operation::TogglePause),
        Action::Reset => Some(Operation::ResetAndKeep),
        _ => None,
    }
}

/// Why the timer does not allow the action, if it does not. Only an
/// operation on the attempt can be refused.
pub open spec fn action_fault(timer: TimerView, action: Action) -> Option<TransitionFault> {
    match operation_of(action) {
        Some(operation) => timer.fault(operation),
        None => None,
    }
}

/// The timer after an action was asked for at `now`.
///
/// An operation on the attempt is carried out where it is allowed. A switch
/// selects the next comparison, and a hide selects "None". A save first
/// resets the timer and keeps the attempt, where one is under way. An open
/// changes nothing by itself.
pub open spec fn after_action(timer: TimerView, action: Action, now: u64) -> TimerView {
    match action {
        Action::SwitchComparison => TimerView { comparisons: timer.comparisons.next(), ..timer },
        Action::Hide => TimerView {
            comparisons: ComparisonView { selected: 2, ..timer.comparisons },
            ..timer
        },
        Action::Open => timer,
        Action::Save => timer.step(Operation::ResetAndKeep, now),
        _ => timer.step(operation_of(action)->0, now),
    }
}

/// What the program has to do after the action was asked for on the given
/// timer.
///
/// After an operation on the attempt that went through, the snapshot is
/// written to where the program keeps it; after one that was refused,
/// nothing is. After a save the snapshot goes to the file the document came
/// from, or to one the user is asked for. After an open the user is asked
/// for a file to load.
pub open spec fn effect_of(timer: TimerView, action: Action) -> EffectView {
    match action {
        Action::SwitchComparison => EffectView::Nothing,
        Action::Hide => EffectView::Nothing,
        Action::Open => EffectView::AskOpenPath,
        Action::Save => match timer.document.source_path {
            Some(path) => EffectView::SaveTo(path),
            None => EffectView::AskSavePath,
        },
        _ => if spec_autosave_due(timer, operation_of(action)->0) {
            EffectView::Autosave
        } else {
            EffectView::Nothing
        },
    }
}

/// Carries out an operation on the attempt, and asks for the snapshot to be
/// written where that is due.
fn operate(timer: &mut Timer, operation: Operation, now: u64) -> (outcome: Outcome)
    requires
        old(timer).wf(),
    ensures
        final(timer).wf(),
        final(timer)@ == old(timer)@.step(operation, now),
        outcome.effect@ == (if spec_autosave_due(old(timer)@, operation) {
            EffectView::Autosave
        } else {
            EffectView::Nothing
        }),
        match old(timer)@.fault(operation) {
            None => outcome.result is Ok,
            Some(fault) => outcome.result == Err::<(), TimerError>(
                TimerError::InvalidTransition(fault),
            ),
        },
{
    let result = timer.apply(operation, now);
    let effect = if autosave_due(operation, result.is_ok()) {
        Effect::Autosave
    } else {
        Effect::Nothing
    };
    Outcome { result, effect }
}

/// Carries out on the timer the action that a key asked for at `now`, and
/// says what the program has to do next.
///
/// An action that the timer does not allow changes nothing, asks nothing of
/// the program, and is reported as `InvalidTransition`, for the program to
/// log or to pass over.
pub fn dispatch(timer: &mut Timer, action: Action, now: u64) -> (outcome: Outcome)
    requires
        old(timer).wf(),
    ensures
        final(timer).wf(),
        final(timer)@ == after_action(old(timer)@, action, now),
        outcome.effect@ == effect_of(old(timer)@, action),
        match action_fault(old(timer)@, action) {
            None => outcome.result is Ok,
            Some(fault) => outcome.result == Err::<(), TimerError>(
                TimerError::InvalidTransition(fault),
            ),
        },
{
    match action {
        Action::Split => operate(timer, Operation::SplitOrStart, now),
        Action::Undo => operate(timer, Operation::UndoSplit, now),
        Action::Skip => operate(timer, Operation::SkipSplit, now),
        Action::Pause => operate(timer, Operation::TogglePause, now),
        Action::Reset => operate(timer, Operation::ResetAndKeep, now),
        Action::SwitchComparison => {
            timer.switch_to_next_comparison();
            Outcome { result: Ok(()), effect: Effect::Nothing }
        },
        Action::Hide => {
            let result = timer.set_current_comparison("None");
            Outcome { result, effect: Effect::Nothing }
        },
        Action::Open => Outcome { result: Ok(()), effect: Effect::AskOpenPath },
        Action::Save => {
            let effect = match &timer.document().source_path {
                Some(path) => Effect::SaveTo(path.clone()),
                None => Effect::AskSavePath,
            };
            let _ = timer.apply(Operation::ResetAndKeep, now);
            Outcome { result: Ok(()), effect }
        },
    }
}

/// Whether a write that an effect asked for makes the file written the
/// document's own: so where the user named or picked the file, and not
/// where the program keeps its snapshot by itself.
pub open spec fn marks_saved(effect: EffectView) -> bool {
    effect is SaveTo || effect is AskSavePath
}

/// The timer after the program has written its snapshot to the file at
/// `path`, as the effect asked.
pub open spec fn after_write(timer: TimerView, effect: EffectView, path: Seq<char>) -> TimerView {
    if marks_saved(effect) {
        TimerView {
            document: RunDocumentView { modified: false, source_path: Some(path), ..timer.document },
            ..timer
        }
    } else {
        timer
    }
}

/// Takes note that the program has written the timer's snapshot to the
/// file at `path`, as the effect asked. After a save the document counts as
/// unmodified and names that file as its source. After an autosave nothing
/// changes: the document still waits for the user to save it. A write that
/// failed is not reported here, and leaves the timer as it is.
pub fn written(timer: &mut Timer, effect: &Effect, path: &str)
    requires
        old(timer).wf(),
    ensures
        final(timer).wf(),
        final(timer)@ == after_write(old(timer)@, effect@, path@),
{
    match effect {
        Effect::SaveTo(_) => timer.mark_saved(path),
        Effect::AskSavePath => timer.mark_saved(path),
        _ => {},
    }
}

/// The file in which the program keeps the snapshot unless it is given
/// another.
pub fn default_save_path() -> (path: String)
    ensures
        path@ == "boko_timer_splits.lss"@,
{
    "boko_timer_splits.lss".to_owned()
}

/// What the program begins with.
#[derive(Debug)]
pub struct Startup {
    pub timer: Timer,
    pub keymap: KeyMap,
    /// Why the stored snapshot was not used, where it was not.
    pub warning: Option<StoreError>,
    /// How the newest attempt of the history stands, where there is one:
    /// one without an end was cut off, and a finished one may not have been
    /// saved by the user yet.
    pub last_attempt: Option<AttemptStatus>,
}

/// The warning with which a session begins: the reason the load failed, or
/// `Corrupt` for a loaded document without segments.
pub open spec fn startup_warning(loaded: Result<Snapshot, StoreError>) -> Option<StoreError> {
    match loaded {
        Ok(snapshot) => if snapshot.document@.segments.len() > 0 {
            None
        } else {
            Some(StoreError::Corrupt)
        },
        Err(error) => Some(error),
    }
}

/// Begins a session with what the load gave: a timer before any attempt
/// over the loaded snapshot, and the default key map. Where the load failed,
/// or gave a document without segments, the timer is over the default
/// document with an empty history, and the reason is handed on as a
/// warning.
pub fn startup(loaded: Result<Snapshot, StoreError>) -> (session: Startup)
    requires
        loaded matches Ok(snapshot) ==> snapshot.wf(),
    ensures
        session.timer.wf(),
        session.timer@ == (match (loaded, startup_warning(loaded)) {
            (Ok(snapshot), None) => TimerView::idle(
                snapshot.document@,
                snapshot.history@,
                builtin_comparisons(),
            ),
            _ => TimerView::idle(
                default_document_view(),
                Seq::<AttemptRecord>::empty(),
                builtin_comparisons(),
            ),
        }),
        session.keymap.wf(),
        session.keymap@ == default_bindings(),
        session.warning == startup_warning(loaded),
        session.last_attempt == (if session.timer@.history.len() > 0 {
            Some(session.timer@.history.last().spec_status())
        } else {
            None
        }),
{
    let loaded = match loaded {
        Ok(snapshot) => if snapshot.document.is_empty() {
            Err(StoreError::Corrupt)
        } else {
            Ok(snapshot)
        },
        Err(error) => Err(error),
    };
    let restored = restore_or_default(loaded);
    let last_attempt = restored.snapshot.history.last_status();
    Startup {
        timer: Timer::over(restored.snapshot.document, restored.snapshot.history),
        keymap: KeyMap::with_defaults(),
        warning: restored.warning,
        last_attempt,
    }
}

} // verus!
