//! Listing a remote collection page by page.
//!
//! A [`PagedFetcher`] makes no request itself. It says which page to ask for
//! next, takes the batch that came back, and stops asking after the first
//! batch that is not exactly one page long.

use vstd::prelude::*;

verus! {

/// What a [`PagedFetcher`] stands for: the page size, the number of pages
/// received so far, and every item received, in order.
pub struct PagerView<T> {
    pub per_page: nat,
    pub page: nat,
    pub items: Seq<T>,
}

impl<T> PagerView<T> {
    /// The state before the first request.
    pub open spec fn fresh(per_page: nat) -> Self {
        PagerView { per_page, page: 0, items: Seq::empty() }
    }

    /// Whether another page is due: the items received so far fill exactly
    /// the pages received so far. (The second condition is the machine's
    /// limit on the page number.)
    pub open spec fn wants_page(self) -> bool {
        &&& self.items.len() == self.page * self.per_page
        &&& self.page < usize::MAX
    }

    /// The number of the page to ask for next, counted from 1.
    pub open spec fn next_page(self) -> Option<nat> {
        if self.wants_page() {
            Some(self.page + 1)
        } else {
            None
        }
    }

    /// The state after `batch` has come back. A batch that was not asked
    /// for changes nothing.
    pub open spec fn accept(self, batch: Seq<T>) -> Self {
        if self.wants_page() {
            PagerView { per_page: self.per_page, page: self.page + 1, items: self.items + batch }
        } else {
            self
        }
    }

    /// The state after the batches of `batches` have come back, one after another.
    pub open spec fn accept_all(self, batches: Seq<Seq<T>>) -> Self
        decreases batches.len(),
    {
        if batches.len() == 0 {
            self
        } else {
            self.accept_all(batches.drop_last()).accept(batches.last())
        }
    }
}

/// The pages of one remote listing, gathered in order.
pub struct PagedFetcher<T> {
    per_page: usize,
    page: usize,
    items: Vec<T>,
}

impl<T> View for PagedFetcher<T> {
    type V = PagerView<T>;

    closed spec fn view(&self) -> PagerView<T> {
        PagerView { per_page: self.per_page as nat, page: self.page as nat, items: self.items@ }
    }
}

impl<T> PagedFetcher<T> {
    /// A fetcher for pages of `per_page` items that has asked for nothing yet.
    pub fn new(per_page: usize) -> (r: Self)
        ensures
            r@ == PagerView::<T>::fresh(per_page as nat),
    {
        PagedFetcher { per_page, page: 0, items: Vec::new() }
    }

    /// The size of a full page.
    pub fn per_page(&self) -> (r: usize)
        ensures
            r == self@.per_page,
    {
        self.per_page
    }

    /// How many batches have been taken in, which is how many requests were answered.
    pub fn pages_received(&self) -> (r: usize)
        ensures
            r == self@.page,
    {
        self.page
    }

    /// The items received so far.
    pub fn items(&self) -> (r: &Vec<T>)
        ensures
            r@ == self@.items,
    {
        &self.items
    }

    /// The number of the page to ask for next, or `None` once a batch was
    /// shorter (or longer) than a page.
    pub fn next_page(&self) -> (r: Option<usize>)
        ensures
            match r {
                Some(p) => self@.next_page() == Some(p as nat),
                None => self@.next_page() is None,
            },
    {
        if self.page == usize::MAX {
            return None;
        }
        let received = self.items.len();
        match self.page.checked_mul(self.per_page) {
            Some(filled) => {
                if received == filled {
                    Some(self.page + 1)
                } else {
                    None
                }
            },
            None => None,
        }
    }

    /// Takes in the batch that answered the last request.
    pub fn accept(&mut self, batch: Vec<T>)
        ensures
            final(self)@ == old(self)@.accept(batch@),
    {
        if self.next_page().is_some() {
            let mut batch = batch;
            self.page = self.page + 1;
            self.items.append(&mut batch);
        }
    }

    /// Hands out everything that was received, whether or not the listing
    /// is complete.
    pub fn into_items(self) -> (r: Vec<T>)
        ensures
            r@ == self@.items,
    {
        self.items
    }

    /// The complete listing; `None` while another page is still to be asked for.
    pub fn finish(self) -> (r: Option<Vec<T>>)
        ensures
            r is Some <==> self@.next_page() is None,
            r matches Some(items) ==> items@ == self@.items,
    {
        if self.next_page().is_none() {
            Some(self.items)
        } else {
            None
        }
    }
}

/// Whether `pages` is what a remote listing answers page by page until the
/// fetcher stops asking: full pages, then one page of another length.
pub open spec fn is_complete_listing<T>(pages: Seq<Seq<T>>, per_page: nat) -> bool {
    &&& 0 < pages.len() <= usize::MAX
    &&& forall|i: int| 0 <= i < pages.len() - 1 ==> (#[trigger] pages[i]).len() == per_page
    &&& pages.last().len() != per_page
}

/// While every batch is exactly one page long the fetcher keeps asking: after
/// `n` full batches it has counted `n` pages, holds all their items in order,
/// and wants page `n + 1`.
pub proof fn lemma_full_batches_keep_asking<T>(per_page: nat, batches: Seq<Seq<T>>)
    requires
        batches.len() < usize::MAX,
        forall|i: int| 0 <= i < batches.len() ==> (#[trigger] batches[i]).len() == per_page,
    ensures
        PagerView::<T>::fresh(per_page).accept_all(batches).page == batches.len(),
        PagerView::<T>::fresh(per_page).accept_all(batches).per_page == per_page,
        PagerView::<T>::fresh(per_page).accept_all(batches).items == batches.flatten(),
        PagerView::<T>::fresh(per_page).accept_all(batches).next_page() == Some(batches.len() + 1),
    decreases batches.len(),
{
    if batches.len() > 0 {
        let before = batches.drop_last();
        lemma_full_batches_keep_asking(per_page, before);
        before.lemma_flatten_push(batches.last());
        assert(batches =~= before.push(batches.last()));
        let mid = PagerView::<T>::fresh(per_page).accept_all(before);
        assert((mid.page + 1) * per_page == mid.page * per_page + per_page) by (nonlinear_arith);
    }
}

/// The first batch whose length is not the page size ends the listing: the
/// fetcher has then made one request more than it received full batches, it
/// holds the items of all of them, and whatever is handed to it afterwards
/// changes nothing.
pub proof fn lemma_stops_after_first_short_batch<T>(
    per_page: nat,
    full: Seq<Seq<T>>,
    short: Seq<T>,
    later: Seq<T>,
)
    requires
        full.len() < usize::MAX,
        forall|i: int| 0 <= i < full.len() ==> (#[trigger] full[i]).len() == per_page,
        short.len() != per_page,
    ensures
        PagerView::<T>::fresh(per_page).accept_all(full.push(short)).page == full.len() + 1,
        PagerView::<T>::fresh(per_page).accept_all(full.push(short)).items == full.flatten() + short,
        PagerView::<T>::fresh(per_page).accept_all(full.push(short)).next_page() is None,
        PagerView::<T>::fresh(per_page).accept_all(full.push(short)).accept(later)
            == PagerView::<T>::fresh(per_page).accept_all(full.push(short)),
{
    lemma_full_batches_keep_asking(per_page, full);
    assert(full.push(short).drop_last() =~= full);
    let mid = PagerView::<T>::fresh(per_page).accept_all(full);
    assert((mid.page + 1) * per_page == mid.page * per_page + per_page) by (nonlinear_arith);
}

} // verus!
