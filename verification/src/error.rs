//! The error envelope handed across the boundary. `kind` is the stable
//! branch point for callers; `message` is human readable.

use vstd::prelude::*;
use vstd::string::StringExecFns;

verus! {

/// Error value returned by every fallible bridge call.
#[derive(Debug, Clone)]
pub struct CassError {
    pub code: i32,
    pub kind: String,
    pub message: String,
    pub hint: Option<String>,
    pub retryable: bool,
}

/// The view of an optional string: `None` stays `None`, `Some(s)` becomes its characters.
pub open spec fn opt_view(s: Option<String>) -> Option<Seq<char>> {
    match s {
        Some(t) => Some(t@),
        None => None,
    }
}

impl CassError {
    /// `e` is the error a surface that is not wired yet returns for `what`.
    pub open spec fn is_unimplemented_for(&self, what: Seq<char>) -> bool {
        &&& self.code == 1
        &&& self.kind@ == "not-yet-implemented"@
        &&& self.message@ == "cass-ffi: "@ + what + " not yet wired through the FFI"@
        &&& opt_view(self.hint) == Some(
            "Surface defined in cass-ffi/SURFACE.md; impls land in bd one-vtg5eh."@,
        )
        &&& !self.retryable
    }

    /// Error for a surface that is not wired through the bridge yet.
    pub fn unimplemented(what: &str) -> (e: Self)
        ensures
            e.is_unimplemented_for(what@),
    {
        let mut message = String::from_str("cass-ffi: ");
        message.append(what);
        message.append(" not yet wired through the FFI");
        CassError {
            code: 1,
            kind: String::from_str("not-yet-implemented"),
            message,
            hint: Some(
                String::from_str(
                    "Surface defined in cass-ffi/SURFACE.md; impls land in bd one-vtg5eh.",
                ),
            ),
            retryable: false,
        }
    }

    /// `self` is the error of a call made after the engine was closed.
    pub open spec fn is_engine_closed(&self) -> bool {
        &&& self.code == 2
        &&& self.kind@ == "engine-closed"@
        &&& self.message@ == "cass-ffi: engine has been closed"@
        &&& opt_view(self.hint) == Some("Open a new CassEngine to continue."@)
        &&& !self.retryable
    }

    /// `self` is an internal error carrying `message`.
    pub open spec fn is_internal(&self, message: Seq<char>) -> bool {
        &&& self.code == 3
        &&& self.kind@ == "internal"@
        &&& self.message@ == message
        &&& self.hint is None
        &&& !self.retryable
    }

    /// `self` is the error of a storage worker that went away while `what`.
    pub open spec fn is_worker_died(&self, what: Seq<char>) -> bool {
        &&& self.code == 4
        &&& self.kind@ == "worker-died"@
        &&& self.message@ == "cass-ffi storage worker died: "@ + what
        &&& self.hint is None
        &&& !self.retryable
    }

    /// `self` reports that the data directory `data_dir` has no database at `db_path`.
    pub open spec fn is_missing_db(&self, db_path: Seq<char>, data_dir: Seq<char>) -> bool {
        &&& self.code == 5
        &&& self.kind@ == "data-dir-missing-db"@
        &&& self.message@ == "cass-ffi: no cass database at "@ + db_path
        &&& opt_view(self.hint) == Some("Run `cass index --full` against "@ + data_dir + " first."@)
        &&& !self.retryable
    }

    /// `self` reports that the database `db_path` has no search index at `index_path`.
    pub open spec fn is_missing_index(&self, index_path: Seq<char>, db_path: Seq<char>) -> bool {
        &&& self.code == 6
        &&& self.kind@ == "data-dir-missing-index"@
        &&& self.message@ == "cass-ffi: no search index at "@ + index_path
        &&& opt_view(self.hint) == Some("Rebuild the index for "@ + db_path + " with `cass index --full`."@)
        &&& !self.retryable
    }

    /// Error of any call made after `close`.
    pub fn engine_closed() -> (e: Self)
        ensures
            e.is_engine_closed(),
    {
        CassError {
            code: 2,
            kind: String::from_str("engine-closed"),
            message: String::from_str("cass-ffi: engine has been closed"),
            hint: Some(String::from_str("Open a new CassEngine to continue.")),
            retryable: false,
        }
    }

    /// Internal error with the given message.
    pub fn internal(message: String) -> (e: Self)
        ensures
            e.is_internal(message@),
    {
        CassError {
            code: 3,
            kind: String::from_str("internal"),
            message,
            hint: None,
            retryable: false,
        }
    }

    /// Internal error whose message is `context`, a colon and `detail`.
    pub fn internal_in(context: &str, detail: &str) -> (e: Self)
        ensures
            e.is_internal(context@ + ": "@ + detail@),
    {
        let mut message = String::from_str(context);
        message.append(": ");
        message.append(detail);
        Self::internal(message)
    }

    /// Error of a storage worker that went away while `what`.
    pub fn worker_died(what: &str) -> (e: Self)
        ensures
            e.is_worker_died(what@),
    {
        let mut message = String::from_str("cass-ffi storage worker died: ");
        message.append(what);
        CassError {
            code: 4,
            kind: String::from_str("worker-died"),
            message,
            hint: None,
            retryable: false,
        }
    }

    /// The data directory `data_dir` holds no database at `db_path`.
    pub fn data_dir_missing_db(db_path: &str, data_dir: &str) -> (e: Self)
        ensures
            e.is_missing_db(db_path@, data_dir@),
    {
        let mut message = String::from_str("cass-ffi: no cass database at ");
        message.append(db_path);
        let mut hint = String::from_str("Run `cass index --full` against ");
        hint.append(data_dir);
        hint.append(" first.");
        CassError { code: 5, kind: String::from_str("data-dir-missing-db"), message, hint: Some(hint), retryable: false }
    }

    /// The database `db_path` has no search index at `index_path`.
    pub fn data_dir_missing_index(index_path: &str, db_path: &str) -> (e: Self)
        ensures
            e.is_missing_index(index_path@, db_path@),
    {
        let mut message = String::from_str("cass-ffi: no search index at ");
        message.append(index_path);
        let mut hint = String::from_str("Rebuild the index for ");
        hint.append(db_path);
        hint.append(" with `cass index --full`.");
        CassError {
            code: 6,
            kind: String::from_str("data-dir-missing-index"),
            message,
            hint: Some(hint),
            retryable: false,
        }
    }

    /// The stable kind string of this error.
    pub fn kind(&self) -> (k: &str)
        ensures
            k@ == self.kind@,
    {
        self.kind.as_str()
    }
}

} // verus!
