//! The article list envelope: one page of the filtered article collection,
//! together with the browsing method that produced it. The envelope is the
//! unit the page cursor navigates by; the next- and previous-page queries
//! are derived from it without external context.

use vstd::prelude::*;

use crate::article::ArticleSimple;
use crate::error::APIError;
use crate::method::DetailQuery;
use crate::method::ListQuery;
use crate::method::Method;

verus! {

/// The envelope shape the remote must return for a list query. `requested`
/// is the page number the query asked for; `pages`, `page`, `page_size` and
/// `data_len` come from the response. The remote echoes the requested page,
/// keeps a positive page size, never sends more items than one page holds,
/// and answers a request beyond the last page with an empty page rather
/// than a failure.
pub open spec fn list_accepted(
    requested: int,
    pages: int,
    page: int,
    page_size: int,
    data_len: int,
) -> bool {
    &&& page == requested
    &&& page_size >= 1
    &&& data_len <= page_size
    &&& requested <= pages || data_len == 0
}

/// One page of article list entries, with the pagination counters and the
/// browsing method the page was requested under.
#[derive(Clone, Debug)]
pub struct ArtListResp {
    pub total: usize,
    pub pages: usize,
    pub page: usize,
    pub page_size: usize,
    pub method: Method,
    pub data: Vec<ArticleSimple>,
}

impl ArtListResp {
    /// The envelope invariant: a 1-based page number, a positive page size,
    /// and no more items than one page holds. An empty `data` is a valid
    /// terminal state, not a failure.
    pub open spec fn wf(self) -> bool {
        &&& self.page >= 1
        &&& self.page_size >= 1
        &&& self.data@.len() <= self.page_size
    }

    /// The page number the previous-page query targets: one less than the
    /// current page, except at the first page, which targets itself.
    pub open spec fn spec_prev_page(self) -> int {
        if self.page == 1 {
            1
        } else {
            self.page - 1
        }
    }

    /// Derives the query for the whole collection in raw page order.
    pub fn list_by_page(page: usize) -> (r: Result<ListQuery, APIError>)
        ensures
            page == 0 ==> r == Err::<ListQuery, APIError>(APIError::InvalidPage),
            page >= 1 ==> (r matches Ok(q) && q.page == page && q.method == Method::Page && q.wf()),
    {
        if page == 0 {
            Err(APIError::InvalidPage)
        } else {
            Ok(ListQuery { method: Method::Page, page })
        }
    }

    /// Derives the query for the pages filtered by an author.
    pub fn list_by_writer(page: usize, writer: String) -> (r: Result<ListQuery, APIError>)
        ensures
            page == 0 ==> r == Err::<ListQuery, APIError>(APIError::InvalidPage),
            page >= 1 ==> (r matches Ok(q) && q.page == page && q.method == Method::Writer(writer)
                && q.wf()),
    {
        if page == 0 {
            Err(APIError::InvalidPage)
        } else {
            Ok(ListQuery { method: Method::Writer(writer), page })
        }
    }

    /// Derives the query for the pages filtered by an era.
    pub fn list_by_dynasty(page: usize, dynasty: String) -> (r: Result<ListQuery, APIError>)
        ensures
            page == 0 ==> r == Err::<ListQuery, APIError>(APIError::InvalidPage),
            page >= 1 ==> (r matches Ok(q) && q.page == page && q.method == Method::Dynasty(dynasty)
                && q.wf()),
    {
        if page == 0 {
            Err(APIError::InvalidPage)
        } else {
            Ok(ListQuery { method: Method::Dynasty(dynasty), page })
        }
    }

    /// Derives the query for the pages filtered by a keyword.
    pub fn list_by_keyword(page: usize, keyword: String) -> (r: Result<ListQuery, APIError>)
        ensures
            page == 0 ==> r == Err::<ListQuery, APIError>(APIError::InvalidPage),
            page >= 1 ==> (r matches Ok(q) && q.page == page && q.method == Method::Keyword(keyword)
                && q.wf()),
    {
        if page == 0 {
            Err(APIError::InvalidPage)
        } else {
            Ok(ListQuery { method: Method::Keyword(keyword), page })
        }
    }

    /// Builds the envelope for a list response, stamping the query's method
    /// into it. A response that breaks the envelope shape — a page number
    /// other than the requested one, a page size of zero, more items than
    /// one page holds, or a non-empty page beyond the last one — is a
    /// schema mismatch, reported as `Decode` and never as `Transport`.
    pub fn from_fetch(
        query: ListQuery,
        total: usize,
        pages: usize,
        page: usize,
        page_size: usize,
        data: Vec<ArticleSimple>,
    ) -> (r: Result<ArtListResp, APIError>)
        requires
            query.wf(),
        ensures
            list_accepted(query.page as int, pages as int, page as int, page_size as int,
                data@.len() as int) ==> (r matches Ok(resp)
                && resp.total == total
                && resp.pages == pages
                && resp.page == page
                && resp.page_size == page_size
                && resp.method == query.method
                && resp.data == data),
            !list_accepted(query.page as int, pages as int, page as int, page_size as int,
                data@.len() as int) ==> r == Err::<ArtListResp, APIError>(APIError::Decode),
            r matches Ok(resp) ==> resp.wf() && resp.page == query.page
                && resp.method == query.method,
            r matches Ok(resp) ==> (query.page > pages ==> resp.data@.len() == 0),
    {
        if page == query.page && page_size >= 1 && data.len() <= page_size && (query.page <= pages
            || data.len() == 0) {
            Ok(ArtListResp { total, pages, page, page_size, method: query.method, data })
        } else {
            Err(APIError::Decode)
        }
    }

    /// Derives the detail query that resolves an article id to its full
    /// record.
    pub fn show(art_id: &str) -> (q: DetailQuery)
        ensures
            q.id@ == art_id@,
    {
        DetailQuery { id: art_id.to_owned() }
    }

    /// Derives the query for the previous page under the same method. At
    /// the first page it re-requests page 1: an explicit no-op boundary,
    /// not an error.
    pub fn prev_page(&self) -> (q: ListQuery)
        requires
            self.wf(),
        ensures
            q.method == self.method,
            q.page == self.spec_prev_page(),
            q.wf(),
            self.page == 1 ==> q.page == 1,
    {
        let page = if self.page == 1 {
            1
        } else {
            self.page - 1
        };
        ListQuery { method: self.method.clone(), page }
    }

    /// Derives the query for the next page under the same method. There is
    /// no upper bound check: a query beyond the last page is valid and
    /// returns an empty page.
    pub fn next_page(&self) -> (q: ListQuery)
        requires
            self.wf(),
            self.page < usize::MAX,
        ensures
            q.method == self.method,
            q.page == self.page + 1,
            q.wf(),
    {
        ListQuery { method: self.method.clone(), page: self.page + 1 }
    }
}

/// Every accepted list envelope holds no more items than one page does, and
/// carries the page number that was requested.
pub proof fn lemma_fetch_page_shape(
    requested: int,
    pages: int,
    page: int,
    page_size: int,
    data_len: int,
)
    requires
        list_accepted(requested, pages, page, page_size, data_len),
    ensures
        data_len <= page_size,
        page == requested,
{
}

/// A request beyond the last page is answered with an empty page, not a
/// failure: whatever the counters say, an accepted envelope for a page
/// past `pages` holds no items.
pub proof fn lemma_beyond_last_page_is_empty(
    requested: int,
    pages: int,
    page: int,
    page_size: int,
    data_len: int,
)
    requires
        list_accepted(requested, pages, page, page_size, data_len),
        requested > pages,
    ensures
        data_len == 0,
{
}

/// The previous-page boundary is idempotent: from page 1 the previous-page
/// query targets page 1 again, and the envelope accepted for that query
/// carries page number 1.
pub proof fn lemma_prev_page_idempotent_at_first(current: ArtListResp, next: ArtListResp)
    requires
        current.wf(),
        current.page == 1,
        next.page == current.spec_prev_page(),
    ensures
        next.page == 1,
{
}

} // verus!
