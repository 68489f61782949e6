//! Value types that cross the boundary. They hold plain values only; the
//! app layer fills them from cass's own records.

use vstd::prelude::*;

verus! {

/// Who wrote a message.
#[derive(Debug, Clone)]
pub enum MessageRole {
    User,
    Agent,
    Tool,
    System,
    Other { label: String },
}

/// One message of a conversation. `idx` is the per-conversation ordinal
/// cass writes while indexing, not a position in a list.
#[derive(Debug, Clone)]
pub struct Message {
    pub id: Option<i64>,
    pub idx: i64,
    pub role: MessageRole,
    pub author: Option<String>,
    pub created_at_ms: Option<i64>,
    pub content: String,
}

/// A conversation with its loaded messages.
#[derive(Debug, Clone)]
pub struct Conversation {
    pub id: Option<i64>,
    pub agent_slug: String,
    pub workspace_path: Option<String>,
    pub external_id: Option<String>,
    pub title: Option<String>,
    pub source_path: String,
    pub started_at_ms: Option<i64>,
    pub ended_at_ms: Option<i64>,
    pub approx_tokens: Option<i64>,
    pub messages: Vec<Message>,
    pub source_id: String,
    pub origin_host: Option<String>,
}

/// A workspace cass has indexed at least one conversation under.
#[derive(Debug, Clone)]
pub struct Workspace {
    pub id: Option<i64>,
    pub path: String,
    pub display_name: Option<String>,
}

/// Time window on conversation timestamps, in milliseconds.
#[derive(Debug, Clone)]
pub struct TimeFilter {
    pub after_ms: Option<i64>,
    pub before_ms: Option<i64>,
}

/// Search mode and its parameters.
#[derive(Debug, Clone)]
pub enum SearchOpts {
    Hybrid { limit: u32, time_filter: Option<TimeFilter> },
    Lexical { limit: u32 },
    Semantic { limit: u32, model: Option<String> },
}

/// How a search hit matched the query.
#[derive(Debug, Clone, Copy, PartialEq, Eq)]
pub enum MatchType {
    Exact,
    Prefix,
    Suffix,
    Substring,
    Wildcard,
    ImplicitWildcard,
}

/// The stable name of a match type, as search hits carry it.
pub open spec fn match_type_name(mt: MatchType) -> Seq<char> {
    match mt {
        MatchType::Exact => "exact"@,
        MatchType::Prefix => "prefix"@,
        MatchType::Suffix => "suffix"@,
        MatchType::Substring => "substring"@,
        MatchType::Wildcard => "wildcard"@,
        MatchType::ImplicitWildcard => "implicit_wildcard"@,
    }
}

/// Each match type has its own name: different types never share one.
pub proof fn lemma_match_type_names_distinct(a: MatchType, b: MatchType)
    ensures
        a != b ==> match_type_name(a) != match_type_name(b),
        match_type_name(a).len() > 0,
{
    reveal_strlit("exact");
    reveal_strlit("prefix");
    reveal_strlit("suffix");
    reveal_strlit("substring");
    reveal_strlit("wildcard");
    reveal_strlit("implicit_wildcard");
    if a != b {
        let x = match_type_name(a);
        let y = match_type_name(b);
        if x.len() == y.len() {
            assert(x[0] != y[0] || x[1] != y[1]);
        }
    }
}

/// The stable name of a match type.
pub fn match_type_to_string(mt: MatchType) -> (s: &'static str)
    ensures
        s@ == match_type_name(mt),
{
    match mt {
        MatchType::Exact => "exact",
        MatchType::Prefix => "prefix",
        MatchType::Suffix => "suffix",
        MatchType::Substring => "substring",
        MatchType::Wildcard => "wildcard",
        MatchType::ImplicitWildcard => "implicit_wildcard",
    }
}

} // verus!
