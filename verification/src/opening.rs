//! The sequence of steps that opens an engine on a data directory. The app
//! performs each step (they touch the disk and start threads) and reports
//! how it went; `advance_open` decides what comes next.

use vstd::prelude::*;
use crate::error::CassError;
use crate::layout::DataLayout;

verus! {

/// The steps of opening an engine, in the order they run: check that the
/// database exists, self-heal the lexical index, start the storage worker,
/// open the search client, start the engine's runtime.
#[derive(Debug, Clone, Copy, PartialEq, Eq)]
pub enum OpenStep {
    CheckDatabase,
    HealIndex,
    SpawnStorage,
    OpenSearch,
    StartRuntime,
}

/// How a step went: it completed; what it looks for is missing (the
/// database, or the search index); or it failed with an error.
#[derive(Debug)]
pub enum StepReport {
    Completed,
    Missing,
    Failed(CassError),
}

/// What comes after a step: the next step, an engine ready for use, or the
/// error that `open` returns.
#[derive(Debug)]
pub enum OpenProgress {
    Next(OpenStep),
    Ready,
    Failed(CassError),
}

/// The step that follows `step` when it completes; `None` after the last.
pub open spec fn successor(step: OpenStep) -> Option<OpenStep> {
    match step {
        OpenStep::CheckDatabase => Some(OpenStep::HealIndex),
        OpenStep::HealIndex => Some(OpenStep::SpawnStorage),
        OpenStep::SpawnStorage => Some(OpenStep::OpenSearch),
        OpenStep::OpenSearch => Some(OpenStep::StartRuntime),
        OpenStep::StartRuntime => None,
    }
}

/// The steps of a successful open, in order.
pub open spec fn open_sequence() -> Seq<OpenStep> {
    seq![
        OpenStep::CheckDatabase,
        OpenStep::HealIndex,
        OpenStep::SpawnStorage,
        OpenStep::OpenSearch,
        OpenStep::StartRuntime,
    ]
}

/// The step an open starts with.
pub fn first_open_step() -> (s: OpenStep)
    ensures
        s == open_sequence()[0],
{
    OpenStep::CheckDatabase
}

/// What follows `step` in opening an engine on `data_dir`, laid out as
/// `layout`, given how the step went. A completed step leads to the next one
/// (to `Ready` after the last); a failed step ends the open with its error; a
/// missing database or search index ends it with the matching error.
pub fn advance_open(step: OpenStep, report: StepReport, layout: &DataLayout, data_dir: &str) -> (p:
    OpenProgress)
    requires
        report is Missing ==> step == OpenStep::CheckDatabase || step == OpenStep::OpenSearch,
    ensures
        match report {
            StepReport::Completed => match successor(step) {
                Some(n) => p == OpenProgress::Next(n),
                None => p is Ready,
            },
            StepReport::Failed(e) => p == OpenProgress::Failed(e),
            StepReport::Missing => p matches OpenProgress::Failed(e) && if step
                == OpenStep::CheckDatabase {
                e.is_missing_db(layout.db_path@, data_dir@)
            } else {
                e.is_missing_index(layout.index_path@, layout.db_path@)
            },
        },
{
    match report {
        StepReport::Completed => match step {
            OpenStep::CheckDatabase => OpenProgress::Next(OpenStep::HealIndex),
            OpenStep::HealIndex => OpenProgress::Next(OpenStep::SpawnStorage),
            OpenStep::SpawnStorage => OpenProgress::Next(OpenStep::OpenSearch),
            OpenStep::OpenSearch => OpenProgress::Next(OpenStep::StartRuntime),
            OpenStep::StartRuntime => OpenProgress::Ready,
        },
        StepReport::Failed(e) => OpenProgress::Failed(e),
        StepReport::Missing => match step {
            OpenStep::CheckDatabase => OpenProgress::Failed(
                CassError::data_dir_missing_db(layout.db_path.as_str(), data_dir),
            ),
            _ => OpenProgress::Failed(
                CassError::data_dir_missing_index(layout.index_path.as_str(), layout.db_path.as_str()),
            ),
        },
    }
}

/// Opening checks the database first and reaches `Ready` exactly when each
/// step of `open_sequence` has completed in turn: every step but the last is
/// followed by the next one, the last by nothing, and no step repeats.
pub proof fn lemma_open_sequence()
    ensures
        open_sequence()[0] == OpenStep::CheckDatabase,
        open_sequence().len() == 5,
        successor(OpenStep::CheckDatabase) == Some(OpenStep::HealIndex),
        successor(OpenStep::HealIndex) == Some(OpenStep::SpawnStorage),
        successor(OpenStep::SpawnStorage) == Some(OpenStep::OpenSearch),
        successor(OpenStep::OpenSearch) == Some(OpenStep::StartRuntime),
        successor(OpenStep::StartRuntime) is None,
        forall|i: int|
            0 <= i < open_sequence().len() - 1 ==> successor(#[trigger] open_sequence()[i]) == Some(
                open_sequence()[i + 1],
            ),
        successor(open_sequence().last()) is None,
        forall|i: int, j: int|
            0 <= i < j < open_sequence().len() ==> open_sequence()[i] != open_sequence()[j],
{
}

} // verus!
