//! Article records. A list query returns lightweight entries (id and title
//! only); the full record, with body text and optional annotations, is
//! fetched on demand by id and validated here.

use vstd::prelude::*;

use crate::error::APIError;
use crate::method::DetailQuery;

verus! {

/// A minimal identity record, as list queries return it: enough to ask for
/// the full record, not enough to render it.
#[derive(Clone, Debug, PartialEq, Eq, Default)]
pub struct ArticleSimple {
    pub id: String,
    pub title: String,
}

impl ArticleSimple {
    /// Derives the detail query that resolves this entry to its full record.
    pub fn show(&self) -> (q: DetailQuery)
        ensures
            q.id == self.id,
    {
        DetailQuery { id: self.id.clone() }
    }
}

/// A complete content record: body text plus the optional annotations
/// (notes, translation, commentary, audio reference).
#[derive(Clone, Debug, Default)]
pub struct Article {
    pub id: String,
    pub title: String,
    pub writer: String,
    pub content: String,
    pub remark: Option<String>,
    pub translation: Option<String>,
    pub shangxi: Option<String>,
    pub audio_url: Option<String>,
}

impl Article {
    /// Accepts a record that the remote returned for a detail query. A
    /// record keyed by a different id than the one requested is a schema
    /// mismatch, reported as `Decode`; the result of a successful lookup
    /// therefore always carries the requested id.
    pub fn from_fetch(query: &DetailQuery, record: Article) -> (r: Result<Article, APIError>)
        ensures
            record.id@ == query.id@ ==> (r matches Ok(a) && a == record),
            record.id@ != query.id@ ==> r == Err::<Article, APIError>(APIError::Decode),
            r matches Ok(a) ==> a.id@ == query.id@,
    {
        if record.id == query.id {
            Ok(record)
        } else {
            Err(APIError::Decode)
        }
    }
}

/// Resolving the same id twice yields records with the same id: the detail
/// lookup is keyed by id alone, and every accepted record echoes the id it
/// was asked for.
pub proof fn lemma_resolve_id_stable(query: DetailQuery, first: Article, second: Article)
    requires
        first.id@ == query.id@,
        second.id@ == query.id@,
    ensures
        first.id@ == second.id@,
{
}

} // verus!
