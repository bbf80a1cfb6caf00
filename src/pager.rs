//! Collecting every page of a list: the pager names the cursor of each next
//! request, takes each page as it arrives, and is finished at the first page
//! without a cursor.

use vstd::prelude::*;
use vstd::string::StringExecFns;
use crate::envelope::{ListWrapper, PageV};
use crate::json::{entries_view, EntriesV};
use crate::resource::copy_entries;

verus! {

/// The items gathered so far, the cursor of the last page, how many pages
/// were taken, and whether the list is complete.
#[derive(Debug)]
pub struct Pager {
    pub items: Vec<String>,
    pub next: Option<String>,
    pub pages: usize,
    pub finished: bool,
}

/// The model of a [`Pager`].
pub struct PagerV {
    pub items: Seq<Seq<char>>,
    pub next: Option<Seq<char>>,
    pub pages: nat,
    pub finished: bool,
}

impl View for Pager {
    type V = PagerV;

    open spec fn view(&self) -> PagerV {
        PagerV {
            items: self.items@.map_values(|s: String| s@),
            next: match self.next {
                Some(s) => Some(s@),
                None => None,
            },
            pages: self.pages as nat,
            finished: self.finished,
        }
    }
}

/// A pager before the first request.
pub open spec fn pager_start() -> PagerV {
    PagerV { items: Seq::empty(), next: None, pages: 0, finished: false }
}

/// A pager after taking page `p`.
pub open spec fn pager_step(s: PagerV, p: PageV) -> PagerV {
    PagerV { items: s.items + p.data, next: p.next, pages: s.pages + 1, finished: p.next is None }
}

/// The request a pager asks for next: none once finished, the first page
/// without a cursor, and after that the page at the last cursor.
pub open spec fn pending_request(s: PagerV) -> Option<Option<Seq<char>>> {
    if s.finished {
        None
    } else if s.pages == 0 {
        Some(None)
    } else {
        Some(s.next)
    }
}

/// A pager after taking `pages` in order.
pub open spec fn run_pages(pages: Seq<PageV>) -> PagerV
    decreases pages.len(),
{
    if pages.len() == 0 {
        pager_start()
    } else {
        pager_step(run_pages(pages.take(pages.len() - 1)), pages.last())
    }
}

/// The items of `pages`, one page after another.
pub open spec fn concat_pages(pages: Seq<PageV>) -> Seq<Seq<char>>
    decreases pages.len(),
{
    if pages.len() == 0 {
        Seq::empty()
    } else {
        concat_pages(pages.take(pages.len() - 1)) + pages.last().data
    }
}

/// Pages linked by cursors: every page but the last has one, the last none.
pub open spec fn linked(pages: Seq<PageV>) -> bool {
    &&& pages.len() > 0
    &&& forall|i: int| 0 <= i < pages.len() - 1 ==> (#[trigger] pages[i]).next is Some
    &&& pages.last().next is None
}

/// Given n pages linked by cursors, the pager asks for exactly n pages:
/// the first without a cursor, each later one at the cursor of the page
/// before it; after the n-th, which has no cursor, it asks for nothing more,
/// and it holds the items of all pages in order.
pub proof fn lemma_pagination_complete(pages: Seq<PageV>)
    requires
        linked(pages),
    ensures
        run_pages(pages).items == concat_pages(pages),
        run_pages(pages).pages == pages.len(),
        pending_request(run_pages(pages)) is None,
        pending_request(run_pages(pages.take(0))) == Some(None::<Seq<char>>),
        forall|k: int|
            0 < k < pages.len() ==> pending_request(#[trigger] run_pages(pages.take(k))) == Some(
                pages[k - 1].next,
            ),
    decreases pages.len(),
{
    lemma_run_pages(pages);
    assert(pages.take(0) =~= Seq::<PageV>::empty());
    assert forall|k: int| 0 < k < pages.len() implies pending_request(
        #[trigger] run_pages(pages.take(k)),
    ) == Some(pages[k - 1].next) by {
        let t = pages.take(k);
        lemma_run_pages(t);
        assert(t.take(t.len() - 1) =~= pages.take(k - 1));
        assert(t.last() == pages[k - 1]);
    }
}

/// Running a pager over any pages gathers their items in order and counts them.
pub proof fn lemma_run_pages(pages: Seq<PageV>)
    ensures
        run_pages(pages).items == concat_pages(pages),
        run_pages(pages).pages == pages.len(),
        pages.len() > 0 ==> run_pages(pages).finished == (pages.last().next is None),
        pages.len() > 0 ==> run_pages(pages).next == pages.last().next,
    decreases pages.len(),
{
    if pages.len() > 0 {
        lemma_run_pages(pages.take(pages.len() - 1));
    }
}

/// The query of a page request: the list's own query, with the cursor added
/// as `offset` after the first page.
pub open spec fn page_query_of(base: EntriesV, offset: Option<Seq<char>>) -> EntriesV {
    match offset {
        Some(o) => base.push(("offset"@, o)),
        None => base,
    }
}

/// Builds the query of a page request.
pub fn page_query(base: &Vec<(String, String)>, offset: &Option<String>) -> (r: Vec<(String, String)>)
    ensures
        entries_view(r@) == page_query_of(
            entries_view(base@),
            match offset {
                Some(o) => Some(o@),
                None => None,
            },
        ),
{
    let mut q = copy_entries(base);
    match offset {
        Some(o) => {
            let ghost q0 = q@;
            q.push((String::from_str("offset"), o.clone()));
            assert(entries_view(q@) =~= entries_view(q0).push(("offset"@, o@)));
        },
        None => {},
    }
    q
}

impl Pager {
    /// A pager before its first request.
    pub fn new() -> (r: Pager)
        ensures
            r@ == pager_start(),
    {
        let r = Pager { items: Vec::new(), next: None, pages: 0, finished: false };
        assert(r@.items =~= Seq::<Seq<char>>::empty());
        r
    }

    /// The cursor of the next request: `None` once finished, `Some(None)` for
    /// the first page, `Some(Some(offset))` after it.
    pub fn pending(&self) -> (r: Option<Option<String>>)
        ensures
            match r {
                None => pending_request(self@) is None,
                Some(None) => pending_request(self@) == Some(None::<Seq<char>>),
                Some(Some(o)) => pending_request(self@) == Some(Some(o@)),
            },
    {
        if self.finished {
            None
        } else if self.pages == 0 {
            Some(None)
        } else {
            match &self.next {
                Some(o) => Some(Some(o.clone())),
                None => Some(None),
            }
        }
    }

    /// Whether the last page taken had no cursor.
    pub fn is_finished(&self) -> (r: bool)
        ensures
            r == self@.finished,
    {
        self.finished
    }

    /// Takes the next page.
    pub fn record(&mut self, page: ListWrapper)
        requires
            !old(self)@.finished,
            old(self).pages < usize::MAX,
        ensures
            final(self)@ == pager_step(old(self)@, page@),
    {
        let ghost pv = page@;
        let ghost before = self.items@.map_values(|s: String| s@);
        let ListWrapper { data, next_page } = page;
        let mut data = data;
        self.items.append(&mut data);
        assert(self.items@.map_values(|s: String| s@) =~= before + pv.data);
        self.next = match next_page {
            Some(p) => Some(p.offset),
            None => None,
        };
        self.finished = self.next.is_none();
        self.pages = self.pages + 1;
    }

    /// The items of every page taken, in order.
    pub fn into_items(self) -> (r: Vec<String>)
        ensures
            r@.map_values(|s: String| s@) == self@.items,
    {
        self.items
    }
}

} // verus!
