//! Catalog entries and the ways a lookup can fail.

use vstd::prelude::*;
use vstd::string::StringExecFns;

verus! {

/// One search hit of the remote catalog.
#[derive(Clone, Debug, PartialEq, Eq)]
pub struct CatalogEntry {
    /// Stable identifier of the entry.
    pub id: String,
    /// Title shown in the result list.
    pub title: String,
    /// Short description of the entry.
    pub description: String,
    /// How often the entry was downloaded.
    pub downloads: u64,
}

/// Mathematical value of a [`CatalogEntry`].
pub struct EntryView {
    pub id: Seq<char>,
    pub title: Seq<char>,
    pub description: Seq<char>,
    pub downloads: nat,
}

impl View for CatalogEntry {
    type V = EntryView;

    open spec fn view(&self) -> EntryView {
        EntryView {
            id: self.id@,
            title: self.title@,
            description: self.description@,
            downloads: self.downloads as nat,
        }
    }
}

/// The entries of a result list, each taken by its view, in list order.
pub open spec fn entries_view(entries: Seq<CatalogEntry>) -> Seq<EntryView> {
    entries.map_values(|e: CatalogEntry| e@)
}

/// Why a remote lookup produced no result list.
#[derive(Clone, Copy, Debug, PartialEq, Eq, Structural)]
pub enum LookupError {
    /// The request did not reach the catalog, or the catalog answered with a
    /// status outside the success range.
    RemoteFailure,
    /// The response body did not have the expected shape.
    DecodeFailure,
}

/// The status line that reports a failed lookup.
pub open spec fn spec_message(error: LookupError) -> Seq<char> {
    match error {
        LookupError::RemoteFailure => "lookup failed: the catalog could not be reached"@,
        LookupError::DecodeFailure => "lookup failed: the response could not be read"@,
    }
}

impl LookupError {
    /// The status line that reports this failure.
    pub fn message(&self) -> (text: String)
        ensures
            text@ == spec_message(*self),
    {
        match self {
            LookupError::RemoteFailure => String::from_str(
                "lookup failed: the catalog could not be reached",
            ),
            LookupError::DecodeFailure => String::from_str(
                "lookup failed: the response could not be read",
            ),
        }
    }
}

impl CatalogEntry {
    /// Builds an entry from its four attributes.
    pub fn new(id: String, title: String, description: String, downloads: u64) -> (entry: CatalogEntry)
        ensures
            entry.id == id,
            entry.title == title,
            entry.description == description,
            entry.downloads == downloads,
    {
        CatalogEntry { id, title, description, downloads }
    }
}

} // verus!
