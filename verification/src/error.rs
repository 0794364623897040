//! What the operations of the library report when they do not go through.

use vstd::prelude::*;

verus! {

/// Why an operation of the timer was not allowed where the timer stood.
#[derive(Clone, Copy, Debug, PartialEq, Eq, Structural)]
pub enum TransitionFault {
    /// The operation does not apply in the timer's phase.
    WrongPhase,
    /// An undo was asked for on the first segment, where no split is recorded.
    NoSplitToUndo,
    /// A skip was asked for on the last segment.
    OnLastSegment,
    /// A start was asked for when the history's last index is the greatest
    /// there is, so that the new attempt could get none.
    NoIndexLeft,
}

/// An operation of the timer that did not go through. The timer is then as
/// it was before the call.
#[derive(Clone, Copy, Debug, PartialEq, Eq, Structural)]
pub enum TimerError {
    /// The operation was not allowed where the timer stood. A caller may
    /// log this and go on.
    InvalidTransition(TransitionFault),
    /// A timer was asked for over a document without segments.
    EmptyRunDocument,
    /// The comparison asked for is not among those on offer.
    UnknownComparison,
}

/// Why no snapshot could be had from, or written to, the store.
#[derive(Clone, Copy, Debug, PartialEq, Eq, Structural)]
pub enum StoreError {
    /// Nothing is stored at the place asked for.
    NotFound,
    /// What is stored there is no snapshot this library accepts.
    Corrupt,
    /// Reading or writing failed.
    Io,
}

impl TimerError {
    /// A sentence for a log or a status line.
    pub fn message(&self) -> (text: String)
        ensures
            text@ == self.spec_message(),
    {
        match self {
            TimerError::InvalidTransition(TransitionFault::WrongPhase) =>
                "the timer is in no phase for this".to_owned(),
            TimerError::InvalidTransition(TransitionFault::NoSplitToUndo) =>
                "there is no split to undo".to_owned(),
            TimerError::InvalidTransition(TransitionFault::OnLastSegment) =>
                "the last segment cannot be skipped".to_owned(),
            TimerError::InvalidTransition(TransitionFault::NoIndexLeft) =>
                "no index is left for another attempt".to_owned(),
            TimerError::EmptyRunDocument => "the run has no segments".to_owned(),
            TimerError::UnknownComparison => "no such comparison".to_owned(),
        }
    }

    /// The sentence that [`TimerError::message`] gives.
    pub open spec fn spec_message(&self) -> Seq<char> {
        match self {
            TimerError::InvalidTransition(TransitionFault::WrongPhase) =>
                "the timer is in no phase for this"@,
            TimerError::InvalidTransition(TransitionFault::NoSplitToUndo) =>
                "there is no split to undo"@,
            TimerError::InvalidTransition(TransitionFault::OnLastSegment) =>
                "the last segment cannot be skipped"@,
            TimerError::InvalidTransition(TransitionFault::NoIndexLeft) =>
                "no index is left for another attempt"@,
            TimerError::EmptyRunDocument => "the run has no segments"@,
            TimerError::UnknownComparison => "no such comparison"@,
        }
    }
}

impl StoreError {
    /// A sentence for a log or a status line.
    pub fn message(&self) -> (text: String)
        ensures
            text@ == self.spec_message(),
    {
        match self {
            StoreError::NotFound => "no splits file was found".to_owned(),
            StoreError::Corrupt => "the splits file is not valid".to_owned(),
            StoreError::Io => "the splits file could not be read or written".to_owned(),
        }
    }

    /// The sentence that [`StoreError::message`] gives.
    pub open spec fn spec_message(&self) -> Seq<char> {
        match self {
            StoreError::NotFound => "no splits file was found"@,
            StoreError::Corrupt => "the splits file is not valid"@,
            StoreError::Io => "the splits file could not be read or written"@,
        }
    }
}

} // verus!
