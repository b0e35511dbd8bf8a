//! The cursor: where the user is in the remote collection. It pairs the
//! last-fetched page envelope with a 0-based index into that page's items.
//! A session starts empty; the first successful query loads a page; every
//! page navigation replaces the page wholesale and resets the index; the
//! item steps move the index and leave the page alone.

use vstd::prelude::*;

use crate::art_list::ArtListResp;
use crate::article::ArticleSimple;
use crate::method::DetailQuery;

verus! {

/// The mutable session state: the currently loaded page, if any, and the
/// index of the selected item within it.
#[derive(Debug)]
pub struct CursorState {
    pub page: Option<ArtListResp>,
    pub index: usize,
}

impl CursorState {
    /// The cursor invariant: whatever page is loaded satisfies the
    /// envelope invariant.
    pub open spec fn wf(self) -> bool {
        self.page matches Some(p) ==> p.wf()
    }

    /// The entry the cursor stands on: the item at the current index, or
    /// nothing when no page is loaded or the index is past the page's
    /// items. An out-of-range index is a valid state, not a failure.
    pub open spec fn spec_current(self) -> Option<ArticleSimple> {
        match self.page {
            Some(p) => if self.index < p.data@.len() {
                Some(p.data@[self.index as int])
            } else {
                None
            },
            None => None,
        }
    }

    /// A fresh session: no page loaded, index at the start.
    pub fn new() -> (s: CursorState)
        ensures
            s.page is None,
            s.index == 0,
            s.wf(),
    {
        CursorState { page: None, index: 0 }
    }

    /// Replaces the current page wholesale and resets the index to the
    /// first item, as every successful page navigation does.
    pub fn load(&mut self, resp: ArtListResp)
        requires
            resp.wf(),
        ensures
            final(self).page == Some(resp),
            final(self).index == 0,
            final(self).wf(),
    {
        self.page = Some(resp);
        self.index = 0;
    }

    /// The entry the cursor stands on, if any.
    pub fn current_entry(&self) -> (r: Option<&ArticleSimple>)
        ensures
            match r {
                Some(e) => self.spec_current() == Some(*e),
                None => self.spec_current() is None,
            },
    {
        match &self.page {
            Some(p) => if self.index < p.data.len() {
                Some(&p.data[self.index])
            } else {
                None
            },
            None => None,
        }
    }

    /// The detail query for the entry the cursor stands on, or nothing
    /// when the cursor stands on no entry. The full record is fetched
    /// lazily from this query; the page itself holds entries only.
    pub fn current_query(&self) -> (r: Option<DetailQuery>)
        ensures
            match r {
                Some(q) => self.spec_current() matches Some(e) && q.id == e.id,
                None => self.spec_current() is None,
            },
    {
        match self.current_entry() {
            Some(entry) => Some(entry.show()),
            None => None,
        }
    }

    /// Steps the cursor to the next item. The index is not clamped to the
    /// page length and the page is never replaced: past the last item the
    /// cursor simply stands on no entry, and fetching the next page is the
    /// caller's explicit decision.
    pub fn advance(&mut self)
        requires
            old(self).index < usize::MAX,
        ensures
            final(self).page == old(self).page,
            final(self).index == old(self).index + 1,
            old(self).wf() ==> final(self).wf(),
    {
        self.index = self.index + 1;
    }

    /// Steps the cursor to the previous item. At the first item it reports
    /// the start explicitly and moves nothing: a signal, not an error.
    pub fn retreat(&mut self) -> (moved: bool)
        ensures
            final(self).page == old(self).page,
            moved == (old(self).index > 0),
            moved ==> final(self).index == old(self).index - 1,
            !moved ==> final(self).index == old(self).index,
            old(self).wf() ==> final(self).wf(),
    {
        if self.index == 0 {
            false
        } else {
            self.index = self.index - 1;
            true
        }
    }
}

/// Advancing past the last item of the loaded page leaves the cursor on no
/// entry, and on the same page: stepping over the end never fetches the
/// next page implicitly.
pub proof fn lemma_advance_past_end(pre: CursorState, post: CursorState)
    requires
        pre.page matches Some(p) && pre.index + 1 >= p.data@.len(),
        post.page == pre.page,
        post.index == pre.index + 1,
    ensures
        post.spec_current() is None,
        post.page == pre.page,
{
}

} // verus!
