//! The remote catalog's interface: the address of a search request and the
//! decoding of a response into catalog entries.
//!
//! The request itself is the caller's business. It fetches [`search_url`]
//! and hands what came of it to [`lookup_outcome`].

use vstd::prelude::*;
use vstd::string::StringExecFns;
use crate::catalog::{entries_view, CatalogEntry, EntryView, LookupError};
use crate::json::{json_value, json_values, member, parse_document, parsed_json, Json};
use crate::percent::{percent_encode, push_encoded};

verus! {

/// What the catalog answered to a search request.
#[derive(Clone, Debug, PartialEq, Eq)]
pub struct Response {
    /// The status code of the answer.
    pub status: u16,
    /// The body of the answer.
    pub body: String,
}

/// The text member `name` of `hit`: `None` unless `hit` is an object whose
/// member of that name is a string.
pub open spec fn spec_field_text(hit: Json, name: Seq<char>) -> Option<Seq<char>> {
    match hit {
        Json::Object(fields) => if fields.contains_key(name) {
            match fields[name] {
                Json::Text(text) => Some(text),
                _ => None,
            }
        } else {
            None
        },
        _ => None,
    }
}

/// The count member `name` of `hit`: `None` unless `hit` is an object whose
/// member of that name is an integer from 0 to `i64::MAX`.
pub open spec fn spec_field_count(hit: Json, name: Seq<char>) -> Option<nat> {
    match hit {
        Json::Object(fields) => if fields.contains_key(name) {
            match fields[name] {
                Json::Integer(n) => if 0 <= n <= i64::MAX {
                    Some(n as nat)
                } else {
                    None
                },
                _ => None,
            }
        } else {
            None
        },
        _ => None,
    }
}

/// The catalog entry that one element of the hit list stands for: `None`
/// where one of its four members is missing or of the wrong type.
pub open spec fn spec_entry(hit: Json) -> Option<EntryView> {
    match (
        spec_field_text(hit, "project_id"@),
        spec_field_text(hit, "title"@),
        spec_field_text(hit, "description"@),
        spec_field_count(hit, "downloads"@),
    ) {
        (Some(id), Some(title), Some(description), Some(downloads)) => Some(
            EntryView { id, title, description, downloads },
        ),
        _ => None,
    }
}

/// The entries of a hit list, in the list's order, or a decode failure
/// where one element stands for no entry.
pub open spec fn spec_entries(hits: Seq<Json>) -> Result<Seq<EntryView>, LookupError> {
    if forall|i: int| 0 <= i < hits.len() ==> (#[trigger] spec_entry(hits[i])) is Some {
        Ok(hits.map_values(|hit: Json| spec_entry(hit)->0))
    } else {
        Err(LookupError::DecodeFailure)
    }
}

/// The entries of a response document. The document must be an object. Its
/// member `hits` is the hit list; without that member, or with one that is
/// no array, there are no entries.
pub open spec fn spec_document_entries(document: Json) -> Result<Seq<EntryView>, LookupError> {
    match document {
        Json::Object(fields) => if fields.contains_key("hits"@) {
            match fields["hits"@] {
                Json::Array(hits) => spec_entries(hits),
                _ => Ok(Seq::empty()),
            }
        } else {
            Ok(Seq::empty())
        },
        _ => Err(LookupError::DecodeFailure),
    }
}

/// The entries of a response body: those of the document it parses to, or
/// a decode failure where it does not parse.
pub open spec fn spec_decode(body: Seq<char>) -> Result<Seq<EntryView>, LookupError> {
    match parsed_json(body) {
        Some(document) => spec_document_entries(document),
        None => Err(LookupError::DecodeFailure),
    }
}

/// The outcome of a lookup whose response had `status` and `body`: a remote
/// failure for a status outside 200..=299, else what the body decodes to.
pub open spec fn spec_interpret(status: u16, body: Seq<char>) -> Result<Seq<EntryView>, LookupError> {
    if 200 <= status <= 299 {
        spec_decode(body)
    } else {
        Err(LookupError::RemoteFailure)
    }
}

/// The outcome of a lookup: a remote failure where the request got no
/// response, else what the response means.
pub open spec fn spec_outcome(response: Option<Response>) -> Result<Seq<EntryView>, LookupError> {
    match response {
        Some(response) => spec_interpret(response.status, response.body@),
        None => Err(LookupError::RemoteFailure),
    }
}

/// A lookup's outcome with the entries taken by their views.
pub open spec fn outcome_view(outcome: Result<Vec<CatalogEntry>, LookupError>) -> Result<
    Seq<EntryView>,
    LookupError,
> {
    match outcome {
        Ok(entries) => Ok(entries_view(entries@)),
        Err(error) => Err(error),
    }
}

/// The start of every search address: the endpoint, up to the `=` behind
/// which the value of the parameter `query` stands.
pub open spec fn spec_search_prefix() -> Seq<char> {
    "https://api.modrinth.com/v2/search?query="@
}

/// The value of the parameter `facets`, the same in every request: the
/// category filter and the type filter.
pub open spec fn spec_facets() -> Seq<char> {
    "[[\"categories:fabric\"], [\"project_type:mod\"]]"@
}

/// The address of the search request for `query`: the endpoint with the
/// parameter `query`, whose value is the query, and the parameter `facets`,
/// whose value is the fixed filters. Both values are percent-encoded.
pub open spec fn spec_search_url(query: Seq<char>) -> Seq<char> {
    spec_search_prefix() + percent_encode(query) + "&facets="@ + percent_encode(spec_facets())
}

/// Builds the address of the search request for `query`. Every query has
/// one, the empty query too.
pub fn search_url(query: &str) -> (url: String)
    ensures
        url@ == spec_search_url(query@),
{
    let mut url = String::from_str("https://api.modrinth.com/v2/search?query=");
    push_encoded(&mut url, query);
    url.append("&facets=");
    push_encoded(&mut url, "[[\"categories:fabric\"], [\"project_type:mod\"]]");
    url
}

/// Reads the text member `name` of `hit`.
pub fn field_text(hit: &serde_json::Value, name: &str) -> (r: Option<String>)
    ensures
        match r {
            Some(text) => spec_field_text(json_value(*hit), name@) == Some(text@),
            None => spec_field_text(json_value(*hit), name@) is None,
        },
{
    match member(hit, name) {
        Some(value) => match value.as_str() {
            Some(text) => Some(text.to_owned()),
            None => None,
        },
        None => None,
    }
}

/// Reads the count member `name` of `hit`.
pub fn field_count(hit: &serde_json::Value, name: &str) -> (r: Option<u64>)
    ensures
        match r {
            Some(n) => spec_field_count(json_value(*hit), name@) == Some(n as nat),
            None => spec_field_count(json_value(*hit), name@) is None,
        },
{
    match member(hit, name) {
        Some(value) => match value.as_i64() {
            Some(n) => if n >= 0 {
                Some(n as u64)
            } else {
                None
            },
            None => None,
        },
        None => None,
    }
}

/// Decodes one element of the hit list.
pub fn entry_of(hit: &serde_json::Value) -> (r: Option<CatalogEntry>)
    ensures
        match r {
            Some(entry) => spec_entry(json_value(*hit)) == Some(entry@),
            None => spec_entry(json_value(*hit)) is None,
        },
{
    let id = field_text(hit, "project_id");
    let title = field_text(hit, "title");
    let description = field_text(hit, "description");
    let downloads = field_count(hit, "downloads");
    match (id, title, description, downloads) {
        (Some(id), Some(title), Some(description), Some(downloads)) => Some(
            CatalogEntry { id, title, description, downloads },
        ),
        _ => None,
    }
}

/// Decodes a hit list into its entries, in the list's order. One element
/// that stands for no entry fails the whole list.
pub fn entries_of_hits(hits: &Vec<serde_json::Value>) -> (r: Result<Vec<CatalogEntry>, LookupError>)
    ensures
        outcome_view(r) == spec_entries(json_values(hits@)),
{
    let ghost model = json_values(hits@);
    let mut entries: Vec<CatalogEntry> = Vec::new();
    let mut i: usize = 0;
    while i < hits.len()
        invariant
            i <= hits.len(),
            model == json_values(hits@),
            entries@.len() == i,
            forall|j: int| 0 <= j < i ==> (#[trigger] spec_entry(model[j])) == Some(entries@[j]@),
        decreases hits.len() - i,
    {
        match entry_of(&hits[i]) {
            Some(entry) => {
                entries.push(entry);
            },
            None => {
                assert(spec_entry(model[i as int]) is None);
                return Err(LookupError::DecodeFailure);
            },
        }
        i = i + 1;
    }
    assert(entries_view(entries@) =~= model.map_values(|hit: Json| spec_entry(hit)->0));
    Ok(entries)
}

/// Decodes a parsed response document into its entries.
pub fn entries_of(document: &serde_json::Value) -> (r: Result<Vec<CatalogEntry>, LookupError>)
    ensures
        outcome_view(r) == spec_document_entries(json_value(*document)),
{
    if !document.is_object() {
        return Err(LookupError::DecodeFailure);
    }
    let hits = match member(document, "hits") {
        Some(value) => value.as_array(),
        None => None,
    };
    match hits {
        Some(hits) => entries_of_hits(hits),
        None => {
            let entries: Vec<CatalogEntry> = Vec::new();
            assert(entries_view(entries@) =~= Seq::<EntryView>::empty());
            Ok(entries)
        },
    }
}

/// Decodes a response body into its entries.
pub fn decode_hits(body: &str) -> (r: Result<Vec<CatalogEntry>, LookupError>)
    ensures
        outcome_view(r) == spec_decode(body@),
{
    match parse_document(body) {
        Ok(document) => entries_of(&document),
        Err(_) => Err(LookupError::DecodeFailure),
    }
}

/// Turns the response to a search request into the outcome of the lookup.
pub fn interpret_response(status: u16, body: &str) -> (r: Result<Vec<CatalogEntry>, LookupError>)
    ensures
        outcome_view(r) == spec_interpret(status, body@),
{
    if 200 <= status && status <= 299 {
        decode_hits(body)
    } else {
        Err(LookupError::RemoteFailure)
    }
}

/// Turns what came of a search request into the outcome of the lookup:
/// `None` stands for a request that got no response.
pub fn lookup_outcome(response: Option<Response>) -> (r: Result<Vec<CatalogEntry>, LookupError>)
    ensures
        outcome_view(r) == spec_outcome(response),
{
    match response {
        Some(response) => interpret_response(response.status, response.body.as_str()),
        None => Err(LookupError::RemoteFailure),
    }
}

} // verus!
