//! Collecting a listing that the service hands out page by page.
use vstd::prelude::*;

verus! {

/// The items of a paged listing gathered so far, and where to go on.
pub struct PageCollector<T> {
    items: Vec<T>,
    next_token: Option<String>,
    done: bool,
}

impl<T> PageCollector<T> {
    /// The items gathered so far, in page order.
    pub closed spec fn spec_items(&self) -> Seq<T> {
        self.items@
    }

    /// The token of the page to ask for next.
    pub closed spec fn spec_next_token(&self) -> Option<String> {
        self.next_token
    }

    /// Whether the last page has been added.
    pub closed spec fn spec_done(&self) -> bool {
        self.done
    }

    /// A collector that has seen no page yet; the first page is asked for
    /// without a token.
    pub fn new() -> (r: PageCollector<T>)
        ensures
            r.spec_items() == Seq::<T>::empty(),
            r.spec_next_token() is None,
            !r.spec_done(),
    {
        PageCollector { items: Vec::new(), next_token: None, done: false }
    }

    /// Adds one page's items behind the earlier ones; the listing is
    /// complete when the page names no next page.
    pub fn add_page(&mut self, page: Vec<T>, next_page_token: Option<String>)
        requires
            !old(self).spec_done(),
        ensures
            final(self).spec_items() == old(self).spec_items() + page@,
            final(self).spec_next_token() == next_page_token,
            final(self).spec_done() == (next_page_token is None),
    {
        let mut page = page;
        self.items.append(&mut page);
        self.done = next_page_token.is_none();
        self.next_token = next_page_token;
    }

    /// The token of the page to ask for next.
    pub fn next_token(&self) -> (r: Option<&str>)
        ensures
            self.spec_next_token() is None ==> r is None,
            self.spec_next_token() is Some ==> r is Some && r->Some_0@ == self.spec_next_token()->Some_0@,
    {
        match &self.next_token {
            Some(t) => Some(t.as_str()),
            None => None,
        }
    }

    /// Whether the last page has been added.
    pub fn is_done(&self) -> (r: bool)
        ensures
            r == self.spec_done(),
    {
        self.done
    }

    /// The items of all pages, in page order.
    pub fn into_items(self) -> (r: Vec<T>)
        ensures
            r@ == self.spec_items(),
    {
        self.items
    }
}

} // verus!
