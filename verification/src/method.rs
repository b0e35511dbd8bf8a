//! The browsing method: how the remote collection is currently filtered.
//! A method is fixed once a query executes; it is embedded in every list
//! envelope so that the next- and previous-page queries can be derived
//! without the caller re-specifying the filter.

use vstd::prelude::*;

verus! {

/// The active filter dimension: by raw page order, by author, by era, or by
/// keyword. Each filtering variant carries its filter value.
#[derive(Debug, PartialEq, Eq)]
pub enum Method {
    Page,
    Writer(String),
    Dynasty(String),
    Keyword(String),
}

impl Clone for Method {
    fn clone(&self) -> (r: Method)
        ensures
            r == *self,
    {
        match self {
            Method::Page => Method::Page,
            Method::Writer(w) => Method::Writer(w.clone()),
            Method::Dynasty(d) => Method::Dynasty(d.clone()),
            Method::Keyword(k) => Method::Keyword(k.clone()),
        }
    }
}

impl Default for Method {
    fn default() -> (r: Method)
        ensures
            r == Method::Page,
    {
        Method::Page
    }
}

/// A filtered list query: one page of the article collection, requested
/// under a browsing method. Page numbers are 1-based.
#[derive(Clone, Debug, PartialEq, Eq)]
pub struct ListQuery {
    pub method: Method,
    pub page: usize,
}

impl ListQuery {
    /// A query is well formed when its page number is positive.
    pub open spec fn wf(self) -> bool {
        self.page >= 1
    }
}

/// An unfiltered list query: one page of a collection that offers no filter
/// (the sentence and the writer collections).
#[derive(Clone, Copy, Debug, PartialEq, Eq, Structural)]
pub struct PageQuery {
    pub page: usize,
}

impl PageQuery {
    /// A query is well formed when its page number is positive.
    pub open spec fn wf(self) -> bool {
        self.page >= 1
    }
}

/// A detail query: a single record looked up by its identifier.
#[derive(Clone, Debug, PartialEq, Eq)]
pub struct DetailQuery {
    pub id: String,
}

} // verus!
