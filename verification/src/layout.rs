//! Where cass keeps its data under a data directory, and the options of an
//! indexing pass the bridge starts.

use vstd::prelude::*;
use vstd::string::StrSliceExecFns;
use vstd::string::StringExecFns;

verus! {

/// A path with the relative component `name` appended, the way a Unix path
/// gains a component: a separator goes between the two unless `base` is
/// empty or already ends in one.
pub open spec fn path_join(base: Seq<char>, name: Seq<char>) -> Seq<char> {
    if base.len() == 0 {
        name
    } else if base.last() == '/' {
        base + name
    } else {
        base + seq!['/'] + name
    }
}

/// The database file cass keeps under `data_dir`.
pub open spec fn db_path_for(data_dir: Seq<char>) -> Seq<char> {
    path_join(data_dir, "agent_search.db"@)
}

/// `base` with the relative component `name` appended.
pub fn join_path(base: &str, name: &str) -> (r: String)
    ensures
        r@ == path_join(base@, name@),
{
    let n: usize = base.unicode_len();
    let mut joined = String::from_str(base);
    if n > 0 && base.get_char(n - 1) != '/' {
        joined.append("/");
    }
    joined.append(name);
    proof {
        reveal_strlit("/");
        if n > 0 && base@.last() != '/' {
            assert(joined@ =~= base@ + seq!['/'] + name@);
        }
    }
    joined
}

/// The files cass uses under a data directory: the database and the
/// lexical index directory.
#[derive(Debug, Clone)]
pub struct DataLayout {
    pub db_path: String,
    pub index_path: String,
}

impl DataLayout {
    /// The layout of `data_dir`, whose index directory cass places at
    /// `index_path`.
    pub fn for_dir(data_dir: &str, index_path: String) -> (l: Self)
        ensures
            l.db_path@ == db_path_for(data_dir@),
            l.index_path@ == index_path@,
    {
        DataLayout { db_path: join_path(data_dir, "agent_search.db"), index_path }
    }
}

/// Options of one indexing pass, as the bridge hands them to cass's indexer.
/// The indexer's progress counters are attached where the pass starts.
#[derive(Debug, Clone)]
pub struct IndexOptions {
    pub full: bool,
    pub force_rebuild: bool,
    pub watch: bool,
    pub watch_once_paths: Option<Vec<String>>,
    pub db_path: String,
    pub data_dir: String,
    pub semantic: bool,
    pub build_hnsw: bool,
    pub embedder: String,
    pub watch_interval_secs: u64,
}

/// `o` are the options of an indexing pass over `data_dir`: a full scan when
/// `full`, a from-scratch rebuild when `force_rebuild`; never watching, and
/// lexical only (the `hash` embedder, no semantic index, no HNSW graph).
pub open spec fn index_options_ok(o: IndexOptions, data_dir: Seq<char>, full: bool, force_rebuild: bool) -> bool {
    &&& o.full == full
    &&& o.force_rebuild == force_rebuild
    &&& !o.watch
    &&& o.watch_once_paths is None
    &&& o.db_path@ == db_path_for(data_dir)
    &&& o.data_dir@ == data_dir
    &&& !o.semantic
    &&& !o.build_hnsw
    &&& o.embedder@ == "hash"@
    &&& o.watch_interval_secs == 30
}

/// The options of an indexing pass over `data_dir`.
pub fn index_options_for_ffi(data_dir: String, full: bool, force_rebuild: bool) -> (o: IndexOptions)
    ensures
        index_options_ok(o, data_dir@, full, force_rebuild),
{
    let db_path = join_path(data_dir.as_str(), "agent_search.db");
    IndexOptions {
        full,
        force_rebuild,
        watch: false,
        watch_once_paths: None,
        db_path,
        data_dir,
        semantic: false,
        build_hnsw: false,
        embedder: String::from_str("hash"),
        watch_interval_secs: 30,
    }
}

/// Joining puts exactly one separator between a non-empty base and the name,
/// whatever the base's length: none is added after a base that already ends
/// in `/`, one is added after any other non-empty base, and an empty base
/// gives the name alone.
pub proof fn lemma_join_one_separator(base: Seq<char>, name: Seq<char>)
    ensures
        base.len() > 0 && base.last() != '/' ==> path_join(base, name) == base + seq!['/'] + name,
        base.len() > 0 && base.last() == '/' ==> path_join(base, name) == base + name,
        base.len() == 0 ==> path_join(base, name) == name,
        path_join(base, name).len() >= base.len() + name.len(),
        path_join(base, name).len() <= base.len() + name.len() + 1,
{
}

/// For a non-empty data directory not ending in `/`, the database path is the
/// directory, one `/`, then `agent_search.db`.
pub proof fn lemma_db_path_separator(data_dir: Seq<char>)
    requires
        data_dir.len() > 0,
        data_dir.last() != '/',
    ensures
        db_path_for(data_dir)[data_dir.len() as int] == '/',
        db_path_for(data_dir) == data_dir + seq!['/'] + "agent_search.db"@,
        db_path_for(data_dir).len() == data_dir.len() + 1 + "agent_search.db"@.len(),
{
}

/// Options that meet `index_options_ok` scan fully exactly when asked,
/// rebuild exactly when asked, never watch, stay lexical with the `hash`
/// embedder, poll every 30 seconds, and point at the data directory and the
/// database inside it.
pub proof fn lemma_index_options_fields(o: IndexOptions, data_dir: Seq<char>, full: bool, force_rebuild: bool)
    requires
        index_options_ok(o, data_dir, full, force_rebuild),
    ensures
        o.full == full,
        o.force_rebuild == force_rebuild,
        !o.watch,
        o.watch_once_paths is None,
        !o.semantic,
        !o.build_hnsw,
        o.embedder@ == seq!['h', 'a', 's', 'h'],
        o.watch_interval_secs == 30,
        o.data_dir@ == data_dir,
        data_dir.len() > 0 && data_dir.last() != '/' ==> o.db_path@ == data_dir + seq!['/'] + "agent_search.db"@,
        data_dir.len() > 0 && data_dir.last() == '/' ==> o.db_path@ == data_dir + "agent_search.db"@,
{
    reveal_strlit("hash");
    assert("hash"@ =~= seq!['h', 'a', 's', 'h']);
}

/// The database lives inside its data directory: its path starts with the
/// directory's path and ends with the file name `agent_search.db`. Opening
/// an engine and indexing both derive it this way, so an indexing pass over a
/// directory writes the database that opening an engine on it looks for.
pub proof fn lemma_db_inside_data_dir(data_dir: Seq<char>)
    ensures
        db_path_for(data_dir).subrange(0, data_dir.len() as int) == data_dir,
        db_path_for(data_dir).subrange(
            db_path_for(data_dir).len() - "agent_search.db"@.len(),
            db_path_for(data_dir).len() as int,
        ) == "agent_search.db"@,
{
    let p = db_path_for(data_dir);
    let name = "agent_search.db"@;
    assert(p.subrange(0, data_dir.len() as int) =~= data_dir);
    assert(p.subrange(p.len() - name.len(), p.len() as int) =~= name);
}

/// Options of an indexing pass started without an open engine, on a data
/// directory that may not exist yet: a full scan, so that a first run
/// bootstraps the database and the index.
pub fn index_options_at_path(data_dir: String, force_rebuild: bool) -> (o: IndexOptions)
    ensures
        index_options_ok(o, data_dir@, true, force_rebuild),
{
    index_options_for_ffi(data_dir, true, force_rebuild)
}

} // verus!
