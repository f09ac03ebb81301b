//! Pagination support for list endpoints, which page by cursor.

use vstd::prelude::*;
use vstd::std_specs::iter::IteratorSpec;
use crate::text::{clone_opt_text, opt_text_view, IntoText};

verus! {

/// One page of a list endpoint.
#[derive(Debug, Clone, PartialEq, Eq)]
pub struct List<T> {
    /// The object type, `list`.
    pub object: Option<String>,
    /// The items of the page.
    pub data: Vec<T>,
    /// Whether there are more items after this page.
    pub has_more: bool,
    /// The next page.
    pub next_page: Option<String>,
    /// The total number of items in the list.
    pub total_count: Option<u64>,
}

impl<T> List<T> {
    /// The page without items: object type `list`, nothing more to come and
    /// a total of zero.
    #[must_use]
    pub fn empty() -> (r: Self)
        ensures
            opt_text_view(r.object) == Some("list"@),
            r.data@ == Seq::<T>::empty(),
            !r.has_more,
            r.next_page is None,
            r.total_count == Some(0u64),
    {
        List {
            object: Some("list".to_owned()),
            data: Vec::new(),
            has_more: false,
            next_page: None,
            total_count: Some(0),
        }
    }

    /// Whether the page has no items.
    #[must_use]
    pub fn is_empty(&self) -> (r: bool)
        ensures
            r == (self.data@.len() == 0),
    {
        self.data.is_empty()
    }

    /// The number of items of the page.
    #[must_use]
    pub fn len(&self) -> (n: usize)
        ensures
            n == self.data@.len(),
    {
        self.data.len()
    }

    /// An iterator over the items of the page, in order.
    pub fn iter(&self) -> (it: core::slice::Iter<'_, T>)
        ensures
            it.remaining() == self.data@.as_ref(),
    {
        self.data.as_slice().iter()
    }
}

impl<T> IntoIterator for List<T> {
    type Item = T;

    type IntoIter = std::vec::IntoIter<T>;

    /// An iterator that hands out the items of the page, in order.
    fn into_iter(self) -> (it: std::vec::IntoIter<T>)
        ensures
            it.remaining() == self.data@,
    {
        self.data.into_iter()
    }
}

impl<'a, T> IntoIterator for &'a List<T> {
    type Item = &'a T;

    type IntoIter = core::slice::Iter<'a, T>;

    /// An iterator over the items of the page, in order.
    fn into_iter(self) -> (it: core::slice::Iter<'a, T>)
        ensures
            it.remaining() == self.data@.as_ref(),
    {
        self.data.as_slice().iter()
    }
}

impl<T> Default for List<T> {
    /// The page without items.
    fn default() -> (r: Self)
        ensures
            opt_text_view(r.object) == Some("list"@),
            r.data@ == Seq::<T>::empty(),
            !r.has_more,
            r.next_page is None,
            r.total_count == Some(0u64),
    {
        List::empty()
    }
}

/// The smallest number of resources a page can be limited to.
pub const MIN_LIMIT: u32 = 1;

/// The largest number of resources a page can be limited to.
pub const MAX_LIMIT: u32 = 100;

/// Baseline parameters of list endpoints.
#[derive(Debug)]
pub struct ListParams {
    /// The number of resources a page holds at most, from 1 to 100.
    pub limit: Option<u32>,
    /// A cursor: the identifier of the resource after which the page starts.
    pub after: Option<String>,
    /// A cursor: the identifier of the resource before which the page ends.
    pub before: Option<String>,
}

/// `limit`, brought into the range from 1 to 100.
pub open spec fn clamp_limit(limit: u32) -> u32 {
    if limit < MIN_LIMIT {
        MIN_LIMIT
    } else if limit > MAX_LIMIT {
        MAX_LIMIT
    } else {
        limit
    }
}

impl Clone for ListParams {
    fn clone(&self) -> (r: Self)
        ensures
            r.limit == self.limit,
            opt_text_view(r.after) == opt_text_view(self.after),
            opt_text_view(r.before) == opt_text_view(self.before),
    {
        ListParams {
            limit: self.limit,
            after: clone_opt_text(&self.after),
            before: clone_opt_text(&self.before),
        }
    }
}

impl Default for ListParams {
    /// No limit and no cursor.
    fn default() -> (r: Self)
        ensures
            r.limit is None,
            r.after is None,
            r.before is None,
    {
        ListParams::new()
    }
}

impl ListParams {
    /// No limit and no cursor.
    #[must_use]
    pub fn new() -> (r: Self)
        ensures
            r.limit is None,
            r.after is None,
            r.before is None,
    {
        ListParams { limit: None, after: None, before: None }
    }

    /// Sets the number of resources a page holds at most. A value below 1
    /// counts as 1, a value above 100 as 100.
    #[must_use]
    pub fn limit(self, limit: u32) -> (r: Self)
        ensures
            r == (ListParams { limit: Some(clamp_limit(limit)), ..self }),
    {
        let clamped = if limit < MIN_LIMIT {
            MIN_LIMIT
        } else if limit > MAX_LIMIT {
            MAX_LIMIT
        } else {
            limit
        };
        let mut r = self;
        r.limit = Some(clamped);
        r
    }

    /// Sets the identifier of the resource after which the page starts.
    #[must_use]
    pub fn after(self, id: impl IntoText) -> (r: Self)
        ensures
            opt_text_view(r.after) == Some(id.text()),
            r == (ListParams { after: r.after, ..self }),
    {
        let mut r = self;
        r.after = Some(id.into_text());
        r
    }

    /// Sets the identifier of the resource before which the page ends.
    #[must_use]
    pub fn before(self, id: impl IntoText) -> (r: Self)
        ensures
            opt_text_view(r.before) == Some(id.text()),
            r == (ListParams { before: r.before, ..self }),
    {
        let mut r = self;
        r.before = Some(id.into_text());
        r
    }
}

} // verus!
