//! Core of the Swift-facing bridge to cass (coding-agent-search): the error
//! envelope, the value types that cross the boundary, and every decision the
//! bridge makes between calls into cass (engine lifecycle, search dispatch,
//! the open sequence, the storage-worker replies, index-run progress and the
//! message window around an anchor).

pub mod engine;
pub mod error;
pub mod index_run;
pub mod layout;
pub mod opening;
pub mod storage;
pub mod types;
pub mod window;

pub use engine::{lexical_limit, EngineCore};
pub use error::CassError;
pub use index_run::{completion_result, phase_label, IndexProgressSnapshot, TaskOutcome};
pub use layout::{index_options_at_path, index_options_for_ffi, join_path, DataLayout, IndexOptions};
pub use opening::{advance_open, first_open_step, OpenProgress, OpenStep, StepReport};
pub use storage::{init_result, reply_result};
pub use types::{
    match_type_to_string, Conversation, MatchType, Message, MessageRole, SearchOpts, TimeFilter,
    Workspace,
};
pub use window::{anchor_position, expand_window};
