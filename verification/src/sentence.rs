//! The sentence collection: famous lines, each pointing back to the article
//! it was drawn from. Resolving a sentence to its origin is a composition:
//! search the article collection by the sentence's text, take the first
//! entry if any, then resolve that entry's detail. A search that matches
//! nothing is `NotFound` — empty content, not a transport failure.

use vstd::prelude::*;

use crate::art_list::ArtListResp;
use crate::art_list::list_accepted;
use crate::error::APIError;
use crate::method::DetailQuery;
use crate::method::ListQuery;
use crate::method::Method;
use crate::method::PageQuery;

verus! {

/// What `str::trim` returns: the string without its leading and trailing
/// whitespace. The result depends on the characters alone.
pub uninterp spec fn trimmed(s: Seq<char>) -> Seq<char>;

/// Relies on str::trim: removes leading and trailing whitespace, so the
/// result is never longer than the input.
#[verifier::external_body]
fn trim_str(s: &str) -> (r: &str)
    ensures
        r@ == trimmed(s@),
        r@.len() <= s@.len(),
{
    s.trim()
}

/// A sentence entry: its id, its text, and the work it is quoted from.
#[derive(Clone, Debug, PartialEq, Eq)]
pub struct Sentence {
    pub id: String,
    pub name: String,
    pub from: String,
}

impl Sentence {
    /// Derives the search that opens the resolve-by-content flow: the
    /// article collection queried by the sentence's trimmed text, page 1.
    pub fn retrive_orign_query(&self) -> (q: ListQuery)
        ensures
            q.page == 1,
            q.method matches Method::Keyword(k) && k@ == trimmed(self.name@),
            q.wf(),
    {
        let text = trim_str(self.name.as_str());
        ListQuery { method: Method::Keyword(text.to_owned()), page: 1 }
    }

    /// Decides the second step of the resolve-by-content flow from the
    /// search result: a search that matched nothing is `NotFound`, and
    /// otherwise the first entry is resolved by its id.
    pub fn retrive_orign(&self, search: &ArtListResp) -> (r: Result<DetailQuery, APIError>)
        ensures
            search.data@.len() == 0 ==> r == Err::<DetailQuery, APIError>(APIError::NotFound),
            search.data@.len() > 0 ==> (r matches Ok(q) && q.id == search.data@[0].id),
    {
        if search.data.len() == 0 {
            Err(APIError::NotFound)
        } else {
            Ok(DetailQuery { id: search.data[0].id.clone() })
        }
    }
}

/// One page of sentence entries, with the pagination counters.
#[derive(Clone, Debug)]
pub struct SentenceListResp {
    pub total: usize,
    pub pages: usize,
    pub page: usize,
    pub page_size: usize,
    pub data: Vec<Sentence>,
}

impl SentenceListResp {
    /// The envelope invariant: a 1-based page number, a positive page size,
    /// and no more items than one page holds.
    pub open spec fn wf(self) -> bool {
        &&& self.page >= 1
        &&& self.page_size >= 1
        &&& self.data@.len() <= self.page_size
    }

    /// The page number the previous-page query targets: one less than the
    /// current page, except at the first page, which targets itself.
    pub open spec fn spec_prev_page(self) -> int {
        if self.page == 1 {
            1
        } else {
            self.page - 1
        }
    }

    /// Derives the query for one page of the sentence collection.
    pub fn list(page: usize) -> (r: Result<PageQuery, APIError>)
        ensures
            page == 0 ==> r == Err::<PageQuery, APIError>(APIError::InvalidPage),
            page >= 1 ==> r == Ok::<PageQuery, APIError>(PageQuery { page }),
    {
        if page == 0 {
            Err(APIError::InvalidPage)
        } else {
            Ok(PageQuery { page })
        }
    }

    /// Builds the envelope for a sentence list response. A response that
    /// breaks the envelope shape is a schema mismatch, reported as `Decode`
    /// and never as `Transport`.
    pub fn from_fetch(
        query: PageQuery,
        total: usize,
        pages: usize,
        page: usize,
        page_size: usize,
        data: Vec<Sentence>,
    ) -> (r: Result<SentenceListResp, APIError>)
        requires
            query.wf(),
        ensures
            list_accepted(query.page as int, pages as int, page as int,
                page_size as int, data@.len() as int) ==> (r matches Ok(resp)
                && resp.total == total
                && resp.pages == pages
                && resp.page == page
                && resp.page_size == page_size
                && resp.data == data),
            !list_accepted(query.page as int, pages as int, page as int,
                page_size as int, data@.len() as int) ==> r == Err::<SentenceListResp, APIError>(
                APIError::Decode),
            r matches Ok(resp) ==> resp.wf() && resp.page == query.page,
            r matches Ok(resp) ==> (query.page > pages ==> resp.data@.len() == 0),
    {
        if page == query.page && page_size >= 1 && data.len() <= page_size && (query.page <= pages
            || data.len() == 0) {
            Ok(SentenceListResp { total, pages, page, page_size, data })
        } else {
            Err(APIError::Decode)
        }
    }

    /// Derives the query for the previous page. At the first page it
    /// re-requests page 1: an explicit no-op boundary, not an error.
    pub fn prev_page(&self) -> (q: PageQuery)
        requires
            self.wf(),
        ensures
            q.page == self.spec_prev_page(),
            q.wf(),
            self.page == 1 ==> q.page == 1,
    {
        let page = if self.page == 1 {
            1
        } else {
            self.page - 1
        };
        PageQuery { page }
    }

    /// Derives the query for the next page. There is no upper bound check:
    /// a query beyond the last page is valid and returns an empty page.
    pub fn next_page(&self) -> (q: PageQuery)
        requires
            self.wf(),
            self.page < usize::MAX,
        ensures
            q.page == self.page + 1,
            q.wf(),
    {
        PageQuery { page: self.page + 1 }
    }
}

} // verus!
