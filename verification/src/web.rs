//! The plain shapes of the query service: the request parameters, the
//! response envelopes, and the shared application state. The service itself
//! — routing, sockets, serialization — lives outside the library and
//! converts to and from these.

use vstd::prelude::*;
use crate::entry::ObunshaDictEntry;
use crate::text::eq_str;
use crate::text::spec_trim;
use crate::text::trim_str;
use vstd::string::StrSliceExecFns;

verus! {

/// The kinds of lookup the service runs.
#[derive(Clone, Copy, PartialEq, Eq, Structural, Debug)]
pub enum SearchKind {
    /// By reading first, falling back to the smart script-form lookup.
    Exact,
    /// By reading only.
    Kana,
    /// By script form only.
    Kanji,
    /// Broad containment over the whole title.
    Fuzzy,
}

/// The lookup kind a request names; anything unrecognized runs broad.
pub open spec fn spec_search_kind(s: Seq<char>) -> SearchKind {
    if s == "exact"@ {
        SearchKind::Exact
    } else if s == "kana"@ {
        SearchKind::Kana
    } else if s == "kanji"@ {
        SearchKind::Kanji
    } else {
        SearchKind::Fuzzy
    }
}

/// Reads the lookup kind out of a request's match-kind field.
pub fn parse_search_type(s: &str) -> (r: SearchKind)
    ensures
        r == spec_search_kind(s@),
{
    if eq_str(s, "exact") {
        SearchKind::Exact
    } else if eq_str(s, "kana") {
        SearchKind::Kana
    } else if eq_str(s, "kanji") {
        SearchKind::Kanji
    } else {
        SearchKind::Fuzzy
    }
}

/// Whether a queried word is usable: not blank once trimmed. A blank word
/// is rejected before any lookup runs.
pub fn query_word_valid(word: &str) -> (r: bool)
    ensures
        r == (spec_trim(word@).len() > 0),
{
    let t = trim_str(word);
    t.as_str().unicode_len() > 0
}

/// A lookup request: the word, and the kind of match to run.
#[derive(Clone, Debug)]
pub struct SearchQuery {
    /// The queried word.
    pub word: String,
    /// The match kind: exact, fuzzy, by reading, or by script form.
    pub search_type: String,
}

/// The match kind a request falls back to when it names none.
pub fn default_search_type() -> (r: String)
    ensures
        r@ == "exact"@,
{
    "exact".to_owned()
}

/// A successful lookup response.
#[derive(Debug)]
pub struct SearchResponse {
    /// Whether the lookup succeeded.
    pub success: bool,
    /// How many entries matched.
    pub count: usize,
    /// The matched entries, in storage order.
    pub entries: Vec<ObunshaDictEntry>,
    /// What was asked, echoed back.
    pub query_info: QueryInfo,
}

/// The echo of a request in its response.
#[derive(Clone, Debug)]
pub struct QueryInfo {
    /// The queried word.
    pub word: String,
    /// The match kind that ran.
    pub search_type: String,
    /// The lookup's duration in milliseconds.
    pub duration_ms: u128,
}

/// A failed lookup response.
#[derive(Clone, Debug)]
pub struct ErrorResponse {
    /// Always false in this envelope.
    pub success: bool,
    /// What went wrong, in words.
    pub error: String,
}

/// The application state shared by the request handlers: the handle of the
/// storage collaborator, not a live connection.
#[derive(Clone, Debug)]
pub struct AppState {
    /// Where the storage collaborator keeps the entries.
    pub db_path: String,
}

/// A response envelope is consistent when its count matches what it holds.
pub open spec fn spec_response_consistent(r: SearchResponse) -> bool {
    r.count == r.entries@.len()
}

impl SearchResponse {
    /// Wraps matched entries in a consistent success envelope.
    pub fn ok(entries: Vec<ObunshaDictEntry>, query_info: QueryInfo) -> (r: Self)
        ensures
            r.success,
            spec_response_consistent(r),
            r.entries@ == entries@,
            r.query_info == query_info,
    {
        let count = entries.len();
        SearchResponse { success: true, count, entries, query_info }
    }
}

} // verus!
