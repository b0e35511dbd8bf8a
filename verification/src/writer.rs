//! The writer collection: authors with their portraits and introductions.
//! A writer's articles are the article collection filtered by the writer's
//! name.

use vstd::prelude::*;

use crate::art_list::ArtListResp;
use crate::art_list::list_accepted;
use crate::error::APIError;
use crate::method::DetailQuery;
use crate::method::ListQuery;
use crate::method::Method;
use crate::method::PageQuery;

verus! {

/// A writer record: id, name, and the optional portrait and introductions
/// (absent fields arrive as empty strings).
#[derive(Clone, Debug, PartialEq, Eq)]
pub struct Writer {
    pub id: String,
    pub name: String,
    pub head_img_url: String,
    pub simple_intro: String,
    pub detail_intro: String,
}

impl Writer {
    /// Derives the detail query that resolves this writer's full record.
    pub fn detail(&self) -> (q: DetailQuery)
        ensures
            q.id == self.id,
    {
        DetailQuery { id: self.id.clone() }
    }

    /// Derives the query for one page of this writer's articles: the
    /// article collection filtered by the writer's name.
    pub fn get_articles(&self, page: usize) -> (r: Result<ListQuery, APIError>)
        ensures
            page == 0 ==> r == Err::<ListQuery, APIError>(APIError::InvalidPage),
            page >= 1 ==> (r matches Ok(q) && q.page == page && q.method == Method::Writer(self.name)
                && q.wf()),
    {
        ArtListResp::list_by_writer(page, self.name.clone())
    }

    /// Accepts a record that the remote returned for a writer detail query.
    /// A record keyed by a different id than the one requested is a schema
    /// mismatch, reported as `Decode`.
    pub fn from_fetch(query: &DetailQuery, record: Writer) -> (r: Result<Writer, APIError>)
        ensures
            record.id@ == query.id@ ==> (r matches Ok(w) && w == record),
            record.id@ != query.id@ ==> r == Err::<Writer, APIError>(APIError::Decode),
            r matches Ok(w) ==> w.id@ == query.id@,
    {
        if record.id == query.id {
            Ok(record)
        } else {
            Err(APIError::Decode)
        }
    }
}

/// One page of writer records, with the pagination counters.
#[derive(Clone, Debug)]
pub struct WriterListResp {
    pub total: usize,
    pub pages: usize,
    pub page: usize,
    pub page_size: usize,
    pub data: Vec<Writer>,
}

impl WriterListResp {
    /// The envelope invariant: a 1-based page number, a positive page size,
    /// and no more items than one page holds.
    pub open spec fn wf(self) -> bool {
        &&& self.page >= 1
        &&& self.page_size >= 1
        &&& self.data@.len() <= self.page_size
    }

    /// The page number the previous-page query targets: one less than the
    /// current page, except at the first page, which targets itself.
    pub open spec fn spec_prev_page(self) -> int {
        if self.page == 1 {
            1
        } else {
            self.page - 1
        }
    }

    /// Derives the query for one page of the writer collection.
    pub fn list(page: usize) -> (r: Result<PageQuery, APIError>)
        ensures
            page == 0 ==> r == Err::<PageQuery, APIError>(APIError::InvalidPage),
            page >= 1 ==> r == Ok::<PageQuery, APIError>(PageQuery { page }),
    {
        if page == 0 {
            Err(APIError::InvalidPage)
        } else {
            Ok(PageQuery { page })
        }
    }

    /// Builds the envelope for a writer list response. A response that
    /// breaks the envelope shape is a schema mismatch, reported as `Decode`
    /// and never as `Transport`.
    pub fn from_fetch(
        query: PageQuery,
        total: usize,
        pages: usize,
        page: usize,
        page_size: usize,
        data: Vec<Writer>,
    ) -> (r: Result<WriterListResp, APIError>)
        requires
            query.wf(),
        ensures
            list_accepted(query.page as int, pages as int, page as int,
                page_size as int, data@.len() as int) ==> (r matches Ok(resp)
                && resp.total == total
                && resp.pages == pages
                && resp.page == page
                && resp.page_size == page_size
                && resp.data == data),
            !list_accepted(query.page as int, pages as int, page as int,
                page_size as int, data@.len() as int) ==> r == Err::<WriterListResp, APIError>(
                APIError::Decode),
            r matches Ok(resp) ==> resp.wf() && resp.page == query.page,
            r matches Ok(resp) ==> (query.page > pages ==> resp.data@.len() == 0),
    {
        if page == query.page && page_size >= 1 && data.len() <= page_size && (query.page <= pages
            || data.len() == 0) {
            Ok(WriterListResp { total, pages, page, page_size, data })
        } else {
            Err(APIError::Decode)
        }
    }

    /// Derives the query for the previous page. At the first page it
    /// re-requests page 1: an explicit no-op boundary, not an error.
    pub fn prev_page(&self) -> (q: PageQuery)
        requires
            self.wf(),
        ensures
            q.page == self.spec_prev_page(),
            q.wf(),
            self.page == 1 ==> q.page == 1,
    {
        let page = if self.page == 1 {
            1
        } else {
            self.page - 1
        };
        PageQuery { page }
    }

    /// Derives the query for the next page. There is no upper bound check:
    /// a query beyond the last page is valid and returns an empty page.
    pub fn next_page(&self) -> (q: PageQuery)
        requires
            self.wf(),
            self.page < usize::MAX,
        ensures
            q.page == self.page + 1,
            q.wf(),
    {
        PageQuery { page: self.page + 1 }
    }
}

} // verus!
