//! Engine lifecycle: the two halves an open engine holds (the search client
//! and the storage worker), the data directory it was opened against, and
//! what every call does once the engine has been closed.

use vstd::prelude::*;
use crate::error::CassError;
use crate::layout::{index_options_for_ffi, index_options_ok, IndexOptions};
use crate::types::{SearchOpts, TimeFilter};

verus! {

/// The state of an engine: a search client `S` and a storage worker `W`,
/// each present until `close` drops it, and the data directory.
pub struct EngineCore<S, W> {
    search: Option<S>,
    storage: Option<W>,
    data_dir: String,
}

/// What a search request resolves to before it runs: the limit of the
/// lexical search to run, or the error to answer with.
pub open spec fn search_plan_ok(opts: SearchOpts, r: Result<usize, CassError>) -> bool {
    match opts {
        SearchOpts::Lexical { limit } => r == Ok::<usize, CassError>(limit as usize),
        SearchOpts::Hybrid { .. } => r matches Err(e) && e.is_unimplemented_for("SearchOpts::Hybrid"@),
        SearchOpts::Semantic { .. } => r matches Err(e) && e.is_unimplemented_for(
            "SearchOpts::Semantic"@,
        ),
    }
}

/// Limit of the lexical search that `opts` asks for. Hybrid and semantic
/// search are not wired yet and answer with a not-yet-implemented error.
pub fn lexical_limit(opts: &SearchOpts) -> (r: Result<usize, CassError>)
    ensures
        search_plan_ok(*opts, r),
{
    match opts {
        SearchOpts::Lexical { limit } => Ok(*limit as usize),
        SearchOpts::Hybrid { .. } => Err(CassError::unimplemented("SearchOpts::Hybrid")),
        SearchOpts::Semantic { .. } => Err(CassError::unimplemented("SearchOpts::Semantic")),
    }
}

impl<S, W> EngineCore<S, W> {
    /// The search client, while the engine is open.
    pub closed spec fn search_slot(&self) -> Option<S> {
        self.search
    }

    /// The storage worker, while the engine is open.
    pub closed spec fn storage_slot(&self) -> Option<W> {
        self.storage
    }

    /// The data directory the engine was opened against.
    pub closed spec fn dir(&self) -> Seq<char> {
        self.data_dir@
    }

    /// The state `close` leaves behind: both halves dropped, same directory.
    pub closed spec fn after_close(self) -> Self {
        EngineCore { search: None, storage: None, data_dir: self.data_dir }
    }

    /// Neither half is held any more.
    pub open spec fn is_closed(&self) -> bool {
        &&& self.search_slot() is None
        &&& self.storage_slot() is None
    }

    /// An engine holding both halves, opened against `data_dir`.
    pub fn opened(search: S, storage: W, data_dir: String) -> (e: Self)
        ensures
            e.search_slot() == Some(search),
            e.storage_slot() == Some(storage),
            e.dir() == data_dir@,
    {
        EngineCore { search: Some(search), storage: Some(storage), data_dir }
    }

    /// The engine of a link check: it holds neither half and no directory.
    pub fn probe() -> (e: Self)
        ensures
            e.is_closed(),
            e.dir() == Seq::<char>::empty(),
    {
        EngineCore { search: None, storage: None, data_dir: String::new() }
    }

    /// Drop the search client, then the storage worker. Idempotent.
    pub fn close(&mut self) -> (r: Result<(), CassError>)
        ensures
            r is Ok,
            *final(self) == old(self).after_close(),
            final(self).is_closed(),
            final(self).dir() == old(self).dir(),
    {
        self.search = None;
        self.storage = None;
        Ok(())
    }

    /// The search client, or `engine-closed` once the engine is closed.
    pub fn search_client(&self) -> (r: Result<&S, CassError>)
        ensures
            match self.search_slot() {
                Some(s) => r matches Ok(c) && *c == s,
                None => r matches Err(e) && e.is_engine_closed(),
            },
    {
        match &self.search {
            Some(s) => Ok(s),
            None => Err(CassError::engine_closed()),
        }
    }

    /// The storage worker, or `engine-closed` once the engine is closed.
    pub fn storage_worker(&self) -> (r: Result<&W, CassError>)
        ensures
            match self.storage_slot() {
                Some(w) => r matches Ok(c) && *c == w,
                None => r matches Err(e) && e.is_engine_closed(),
            },
    {
        match &self.storage {
            Some(w) => Ok(w),
            None => Err(CassError::engine_closed()),
        }
    }

    /// What a search call does before it runs: `engine-closed` on a closed
    /// engine, whatever the options; otherwise the search client and the
    /// lexical limit, or the not-yet-implemented error of the other modes.
    pub fn begin_search(&self, opts: &SearchOpts) -> (r: Result<(&S, usize), CassError>)
        ensures
            match self.search_slot() {
                None => r matches Err(e) && e.is_engine_closed(),
                Some(s) => match r {
                    Ok((c, limit)) => *c == s && search_plan_ok(*opts, Ok(limit)),
                    Err(e) => search_plan_ok(*opts, Err(e)),
                },
            },
    {
        let client = self.search_client()?;
        let limit: usize = lexical_limit(opts)?;
        Ok((client, limit))
    }

    /// Options of an indexing pass started from an open engine: an
    /// incremental scan of the engine's data directory, which skips sessions
    /// already indexed. A closed engine starts no pass and answers
    /// `engine-closed`, as every call after `close` does.
    pub fn index_options(&self, force_rebuild: bool) -> (r: Result<IndexOptions, CassError>)
        ensures
            self.is_closed() ==> (r matches Err(e) && e.is_engine_closed()),
            !self.is_closed() ==> (r matches Ok(o) && index_options_ok(o, self.dir(), false, force_rebuild)),
    {
        if self.search.is_none() && self.storage.is_none() {
            return Err(CassError::engine_closed());
        }
        Ok(index_options_for_ffi(self.data_dir.clone(), false, force_rebuild))
    }

    /// The data directory the engine was opened against.
    pub fn data_dir(&self) -> (d: String)
        ensures
            d@ == self.dir(),
    {
        self.data_dir.clone()
    }
}

/// A lexical request runs with exactly the caller's limit: the plan of
/// `Lexical { limit }` succeeds with `x` if and only if `x` is `limit`, and
/// never fails.
pub proof fn lemma_lexical_runs_with_callers_limit(limit: u32, x: usize, e: CassError)
    ensures
        search_plan_ok(SearchOpts::Lexical { limit }, Ok(x)) <==> x as int == limit as int,
        !search_plan_ok(SearchOpts::Lexical { limit }, Err(e)),
{
}

/// Every hybrid request, whatever its limit and time filter, answers the
/// not-yet-implemented error for `SearchOpts::Hybrid` and never runs a search.
pub proof fn lemma_hybrid_not_wired(
    limit: u32,
    time_filter: Option<TimeFilter>,
    r: Result<usize, CassError>,
)
    ensures
        search_plan_ok(SearchOpts::Hybrid { limit, time_filter }, r) ==> (r matches Err(e) && {
            &&& e.code == 1
            &&& e.kind@ == "not-yet-implemented"@
            &&& e.message@ == "cass-ffi: "@ + "SearchOpts::Hybrid"@ + " not yet wired through the FFI"@
            &&& !e.retryable
        }),
{
}

/// Every semantic request, whatever its limit and model, answers the
/// not-yet-implemented error for `SearchOpts::Semantic` and never runs a
/// search.
pub proof fn lemma_semantic_not_wired(limit: u32, model: Option<String>, r: Result<usize, CassError>)
    ensures
        search_plan_ok(SearchOpts::Semantic { limit, model }, r) ==> (r matches Err(e) && {
            &&& e.code == 1
            &&& e.kind@ == "not-yet-implemented"@
            &&& e.message@ == "cass-ffi: "@ + "SearchOpts::Semantic"@ + " not yet wired through the FFI"@
            &&& !e.retryable
        }),
{
}

/// Closing twice leaves the engine as closing once does, and a closed engine
/// keeps its data directory and holds neither half, so every call that needs
/// one answers `engine-closed`.
pub proof fn lemma_close_idempotent<S, W>(e: EngineCore<S, W>)
    ensures
        e.after_close().after_close() == e.after_close(),
        e.after_close().is_closed(),
        e.after_close().dir() == e.dir(),
{
}

} // verus!
