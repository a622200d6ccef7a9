use vstd::prelude::*;

use crate::link::{next_link, opt_str_view, opt_view, parse_next_link};

verus! {

/// One page taken in: an empty page ends the walk, as does a page whose
/// `link` header names no next page; the kept items are appended.
pub open spec fn page_step<T>(
    items: Seq<T>,
    page_empty: bool,
    kept: Seq<T>,
    link: Option<Seq<char>>,
) -> (Seq<T>, Option<Seq<char>>) {
    if page_empty {
        (items, None)
    } else {
        (items + kept, next_link(link))
    }
}

/// A walk over cursor-linked pages: the URL still to fetch, and the items
/// gathered so far.
pub struct Pager<T> {
    next: Option<String>,
    items: Vec<T>,
}

impl<T> Pager<T> {
    /// The items gathered so far.
    pub closed spec fn gathered(&self) -> Seq<T> {
        self.items@
    }

    /// The URL of the page still to fetch, if any.
    pub closed spec fn cursor(&self) -> Option<Seq<char>> {
        opt_view(self.next)
    }

    /// A walk that starts at `start`.
    pub fn new(start: String) -> (r: Self)
        ensures
            r.gathered() == Seq::<T>::empty(),
            r.cursor() == Some(start@),
    {
        Pager { next: Some(start), items: Vec::new() }
    }

    /// The URL of the page to fetch next, if the walk goes on.
    pub fn next_url(&self) -> (r: Option<String>)
        ensures
            opt_view(r) == self.cursor(),
    {
        match &self.next {
            Some(u) => Some(u.clone()),
            None => None,
        }
    }

    /// Whether the walk is over.
    pub fn is_done(&self) -> (r: bool)
        ensures
            r == (self.cursor() is None),
    {
        self.next.is_none()
    }

    /// Takes in a fetched page: whether it held any item, the items of it to
    /// keep, and its `link` header.
    pub fn advance(&mut self, link: Option<&str>, page_empty: bool, kept: Vec<T>)
        ensures
            (final(self).gathered(), final(self).cursor()) == page_step(
                old(self).gathered(),
                page_empty,
                kept@,
                opt_str_view(link),
            ),
    {
        if page_empty {
            self.next = None;
            return;
        }
        let mut kept = kept;
        self.items.append(&mut kept);
        self.next = parse_next_link(link);
    }

    /// Ends the walk, handing out what it gathered.
    pub fn into_items(self) -> (r: Vec<T>)
        ensures
            r@ == self.gathered(),
    {
        self.items
    }
}

/// The page that an upstream holding `all`, `size` items a page, serves from
/// offset `pos`.
pub open spec fn served<T>(all: Seq<T>, size: nat, pos: nat) -> Seq<T> {
    if pos + size <= all.len() {
        all.subrange(pos as int, (pos + size) as int)
    } else if pos <= all.len() {
        all.subrange(pos as int, all.len() as int)
    } else {
        Seq::empty()
    }
}

/// A walk driven against that upstream from offset `pos` and page number `k`,
/// page `k` carrying the `link` header `links(k)`: the items gathered, the
/// number of fetches, and the offset reached.
pub open spec fn drive<T>(
    items: Seq<T>,
    all: Seq<T>,
    size: nat,
    links: spec_fn(nat) -> Option<Seq<char>>,
    pos: nat,
    k: nat,
) -> (Seq<T>, nat, nat)
    decreases all.len() - pos,
{
    let page = served(all, size, pos);
    let (gathered, cursor) = page_step(items, page.len() == 0, page, links(k));
    if cursor is None || pos >= all.len() {
        (gathered, 1, pos + page.len())
    } else {
        let (g, c, e) = drive(gathered, all, size, links, pos + page.len(), k + 1);
        (g, c + 1, e)
    }
}

proof fn lemma_drive<T>(
    items: Seq<T>,
    all: Seq<T>,
    size: nat,
    links: spec_fn(nat) -> Option<Seq<char>>,
    pos: nat,
    k: nat,
)
    requires
        size > 0,
        pos <= all.len(),
    ensures
        ({
            let (g, c, e) = drive(items, all, size, links, pos, k);
            &&& pos <= e <= all.len()
            &&& g == items + all.subrange(pos as int, e as int)
            &&& c >= 1
            &&& (c <= 1 || (c - 2) * size < all.len() - pos)
            &&& ((forall|j: nat| next_link(#[trigger] links(j)) is Some) ==> e == all.len())
        }),
    decreases all.len() - pos,
{
    let page = served(all, size, pos);
    let (gathered, cursor) = page_step(items, page.len() == 0, page, links(k));
    if cursor is None || pos >= all.len() {
        assert(items + all.subrange(pos as int, pos as int) =~= items);
        if page.len() > 0 {
            assert(gathered == items + all.subrange(pos as int, (pos + page.len()) as int));
        }
        if forall|j: nat| next_link(#[trigger] links(j)) is Some {
            assert(next_link(links(k)) is Some);
        }
    } else {
        let next = pos + page.len();
        lemma_drive(gathered, all, size, links, next, k + 1);
        let (g, c, e) = drive(gathered, all, size, links, next, k + 1);
        assert(g == gathered + all.subrange(next as int, e as int));
        assert(all.subrange(pos as int, next as int) + all.subrange(next as int, e as int)
            =~= all.subrange(pos as int, e as int));
        assert(g =~= items + all.subrange(pos as int, e as int));
        let cc = c + 1;
        assert(drive(items, all, size, links, pos, k) == (g, cc, e));
        if c < 2 {
            assert((cc - 2) * size < all.len() - pos);
        }
        if c >= 2 {
            assert((c - 2) * size < all.len() - next);
            if page.len() == size {
                assert((cc - 2) * size == (c - 2) * size + size) by (nonlinear_arith)
                    requires
                        cc == c + 1,
                ;
            } else {
                assert(next == all.len());
                assert(false);
            }
        }
    }
}

/// A walk over an upstream that holds `all` and serves it `size` items a page
/// fetches at most `ceil(all.len() / size) + 1` pages, whatever the `link`
/// headers; what it gathers is the fetched pages' items in page order, which
/// is all of `all` when every page links to a next one.
pub proof fn lemma_pagination_bounded<T>(
    all: Seq<T>,
    size: nat,
    links: spec_fn(nat) -> Option<Seq<char>>,
)
    requires
        size > 0,
    ensures
        ({
            let (g, c, e) = drive(Seq::<T>::empty(), all, size, links, 0, 0);
            &&& c <= (all.len() + size - 1) / (size as int) + 1
            &&& e <= all.len()
            &&& g == all.subrange(0, e as int)
            &&& ((forall|j: nat| next_link(#[trigger] links(j)) is Some) ==> g == all)
        }),
{
    lemma_drive(Seq::<T>::empty(), all, size, links, 0, 0);
    let (g, c, e) = drive(Seq::<T>::empty(), all, size, links, 0, 0);
    assert(Seq::<T>::empty() + all.subrange(0, e as int) =~= all.subrange(0, e as int));
    if c >= 2 {
        let m = (c - 1) as int;
        let n = all.len() as int;
        let s = size as int;
        assert((m - 1) * s < n);
        assert(m * s <= n + s - 1) by (nonlinear_arith)
            requires
                (m - 1) * s < n,
        ;
        assert(m <= (n + s - 1) / s) by (nonlinear_arith)
            requires
                m * s <= n + s - 1,
                s > 0,
        ;
    } else {
        assert(0 <= (all.len() + size - 1) / (size as int)) by (nonlinear_arith)
            requires
                size > 0,
        ;
    }
    if forall|j: nat| next_link(#[trigger] links(j)) is Some {
        assert(all.subrange(0, all.len() as int) =~= all);
    }
}

} // verus!
