//! A speedrun split timer: the run document and its attempt history, the
//! timer state machine with split, undo, skip, pause and reset, the choice of
//! comparison, the key map, and the rules that decide when a snapshot is
//! written out and what is accepted back as one.
//!
//! Every instant and duration is a count of milliseconds. The timer reads no
//! clock of its own: each operation that needs the time takes it as `now`.
//! The library reads and writes no file either: it tells its caller what to
//! store and takes what the caller read.

pub mod attempt;
pub mod clock;
pub mod comparison;
pub mod document;
pub mod error;
pub mod history;
pub mod keymap;
pub mod model;
pub mod persistence;
pub mod session;
pub mod stored;
pub mod timer;

pub use clock::{clock_fields, ClockFields};
pub use comparison::ComparisonSelector;
pub use document::{default_document, RunDocument, Segment};
pub use error::{StoreError, TimerError, TransitionFault};
pub use history::{AttemptHistory, AttemptRecord, AttemptStatus};
pub use keymap::{Action, Binding, KeyMap, KeyMapError};
pub use model::{Operation, Phase};
pub use persistence::{autosave_due, restore_or_default, Restored, Snapshot};
pub use session::{default_save_path, dispatch, startup, written, Effect, Outcome, Startup};
pub use stored::{from_stored, history_to_stored, snapshot_from_stored, to_stored, StoredAttempt};
pub use timer::Timer;
