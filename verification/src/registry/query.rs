//! Listing queries and the pages they return.
use vstd::prelude::*;
use crate::ids::Uuid;

verus! {

/// One key of an ordering.
#[derive(Clone, Debug, PartialEq, Eq)]
pub struct OrderKey {
    pub field: String,
    pub descending: bool,
}

/// A listing query. Each clause is optional.
#[derive(Clone, Debug, PartialEq, Eq)]
pub struct ODataQuery {
    pub filter: Option<String>,
    /// A short hash of the filter, by which a cursor is held to the filter that it was
    /// made for.
    pub filter_hash: Option<String>,
    pub order: Vec<OrderKey>,
    pub limit: Option<u64>,
    pub cursor: Option<String>,
    pub select: Option<Vec<String>>,
}

impl Default for ODataQuery {
    fn default() -> (r: Self)
        ensures
            r.filter is None,
            r.filter_hash is None,
            r.order@.len() == 0,
            r.limit is None,
            r.cursor is None,
            r.select is None,
    {
        ODataQuery {
            filter: None,
            filter_hash: None,
            order: Vec::new(),
            limit: None,
            cursor: None,
            select: None,
        }
    }
}

impl ODataQuery {
    /// The query with a projection onto `fields`.
    pub fn with_select(self, fields: Vec<String>) -> (r: ODataQuery)
        ensures
            r == (ODataQuery { select: Some(fields), ..self }),
    {
        ODataQuery { select: Some(fields), ..self }
    }

    /// The query with a page size.
    pub fn with_limit(self, limit: u64) -> (r: ODataQuery)
        ensures
            r == (ODataQuery { limit: Some(limit), ..self }),
    {
        ODataQuery { limit: Some(limit), ..self }
    }

    /// The query with the hash of its filter.
    pub fn with_filter_hash(self, filter_hash: String) -> (r: ODataQuery)
        ensures
            r == (ODataQuery { filter_hash: Some(filter_hash), ..self }),
    {
        ODataQuery { filter_hash: Some(filter_hash), ..self }
    }

    /// The query with a filter.
    pub fn with_filter(self, filter: String) -> (r: ODataQuery)
        ensures
            r == (ODataQuery { filter: Some(filter), ..self }),
    {
        ODataQuery { filter: Some(filter), ..self }
    }
}

/// Where a page stands in its listing.
#[derive(Clone, Debug, PartialEq, Eq)]
pub struct PageInfo {
    pub next_cursor: Option<String>,
    pub prev_cursor: Option<String>,
    pub limit: u64,
}

/// One page of a listing.
#[derive(Clone, Debug, PartialEq)]
pub struct Page<T> {
    pub items: Vec<T>,
    pub page_info: PageInfo,
}

/// Which models a listing shows.
#[derive(Clone, Debug, PartialEq, Eq)]
pub enum ListVisibility {
    /// Live, approved models of the listed providers.
    Eval { allow_list: Vec<Uuid> },
    /// Every model, and those whose life has ended only where asked for.
    Management { include_deprecated: bool },
}

} // verus!
