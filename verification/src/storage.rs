//! Answers of the storage worker: how its start-up signal and the reply to
//! each command turn into the result of the bridge call.

use vstd::prelude::*;
use vstd::string::StringExecFns;
use crate::error::CassError;

verus! {

/// Result of starting the storage worker from the signal it sent after
/// opening the database; `None` when the worker thread ended without
/// sending one.
pub fn init_result(signal: Option<Result<(), CassError>>) -> (r: Result<(), CassError>)
    ensures
        match signal {
            Some(res) => r == res,
            None => r matches Err(e) && e.is_internal(
                "storage worker thread died before signalling init result"@,
            ),
        },
{
    match signal {
        Some(res) => res,
        None => Err(
            CassError::internal(
                String::from_str("storage worker thread died before signalling init result"),
            ),
        ),
    }
}

/// Result of a command sent to the storage worker. `delivered` is false
/// when the worker no longer takes commands (the engine was closed);
/// `reply` is `None` when the worker dropped the reply without answering.
pub fn reply_result<T>(delivered: bool, reply: Option<Result<T, CassError>>) -> (r: Result<T, CassError>)
    ensures
        !delivered ==> (r matches Err(e) && e.is_engine_closed()),
        delivered ==> match reply {
            Some(res) => r == res,
            None => r matches Err(e) && e.is_worker_died("dropped reply oneshot"@),
        },
{
    if !delivered {
        return Err(CassError::engine_closed());
    }
    match reply {
        Some(res) => res,
        None => Err(CassError::worker_died("dropped reply oneshot")),
    }
}

} // verus!
