//! Progress of an indexing pass: the phase names the bridge exposes, the
//! snapshot of the live counters, and the answer of a wait for completion.

use vstd::prelude::*;
use vstd::string::StringExecFns;
use crate::error::CassError;

verus! {

/// Name of cass's indexing phase discriminator: 1 is scanning, 2 is
/// indexing, and any other value (0 is idle) reads as idle.
pub open spec fn phase_name(raw: usize) -> Seq<char> {
    if raw == 1 {
        "scanning"@
    } else if raw == 2 {
        "indexing"@
    } else {
        "idle"@
    }
}

/// Stable label of an indexing phase discriminator. Unknown values read as
/// `idle` rather than failing: progress is best-effort reporting.
pub fn phase_label(raw: usize) -> (s: String)
    ensures
        s@ == phase_name(raw),
{
    match raw {
        1 => String::from_str("scanning"),
        2 => String::from_str("indexing"),
        _ => String::from_str("idle"),
    }
}

/// Discriminator 1 reads as `scanning`, 2 as `indexing`, and every other
/// value, 0 included, as `idle`; the three names differ.
pub proof fn lemma_phase_names(raw: usize)
    ensures
        raw == 1 ==> phase_name(raw) == "scanning"@,
        raw == 2 ==> phase_name(raw) == "indexing"@,
        raw != 1 && raw != 2 ==> phase_name(raw) == "idle"@,
        "scanning"@ != "indexing"@,
        "scanning"@ != "idle"@,
        "indexing"@ != "idle"@,
{
    reveal_strlit("scanning");
    reveal_strlit("indexing");
    reveal_strlit("idle");
    assert("scanning"@.len() != "idle"@.len());
    assert("indexing"@.len() != "idle"@.len());
    assert("scanning"@[0] != "indexing"@[0]);
}

/// Lock-free copy of an indexing pass's progress.
#[derive(Debug, Clone)]
pub struct IndexProgressSnapshot {
    pub phase: String,
    pub current: u64,
    pub total: u64,
    pub discovered_agents: Vec<String>,
    pub last_error: Option<String>,
}

impl IndexProgressSnapshot {
    /// The snapshot of the counters read from a live pass.
    pub fn from_counters(
        phase_raw: usize,
        current: usize,
        total: usize,
        discovered_agents: Vec<String>,
        last_error: Option<String>,
    ) -> (s: Self)
        ensures
            s.phase@ == phase_name(phase_raw),
            s.current == current,
            s.total == total,
            s.discovered_agents == discovered_agents,
            s.last_error == last_error,
    {
        IndexProgressSnapshot {
            phase: phase_label(phase_raw),
            current: current as u64,
            total: total as u64,
            discovered_agents,
            last_error,
        }
    }
}

/// How the indexing task ended: it returned (with cass's result), or it
/// panicked or was cancelled (with the runtime's description).
#[derive(Debug)]
pub enum TaskOutcome {
    Finished(Result<(), CassError>),
    Aborted(String),
}

/// The answer of a wait for completion. `outcome` is `None` when an earlier
/// wait already consumed the task; `snapshot` is the progress read after it
/// ended.
pub fn completion_result(outcome: Option<TaskOutcome>, snapshot: IndexProgressSnapshot) -> (r: Result<
    IndexProgressSnapshot,
    CassError,
>)
    ensures
        match outcome {
            None => r == Ok::<IndexProgressSnapshot, CassError>(snapshot),
            Some(TaskOutcome::Finished(Ok(()))) => r == Ok::<IndexProgressSnapshot, CassError>(
                snapshot,
            ),
            Some(TaskOutcome::Finished(Err(e))) => r == Err::<IndexProgressSnapshot, CassError>(e),
            Some(TaskOutcome::Aborted(d)) => r matches Err(e) && e.is_internal(
                "cass-ffi indexer task panicked or was cancelled"@ + ": "@ + d@,
            ),
        },
{
    match outcome {
        None => Ok(snapshot),
        Some(ended) => match ended {
            TaskOutcome::Finished(res) => match res {
                Ok(()) => Ok(snapshot),
                Err(e) => Err(e),
            },
            TaskOutcome::Aborted(d) => Err(
                CassError::internal_in(
                    "cass-ffi indexer task panicked or was cancelled",
                    d.as_str(),
                ),
            ),
        },
    }
}

} // verus!
