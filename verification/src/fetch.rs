//! The fan-out fetcher's collection step: every fetched page flattened into
//! one item collection.

use vstd::prelude::*;
use crate::item::Data;

verus! {

/// The views of a sequence of pages.
pub open spec fn page_views(pages: Seq<Vec<Data>>) -> Seq<Seq<Data>> {
    pages.map_values(|p: Vec<Data>| p@)
}

/// Concatenates every fetched page into one flat item collection, keeping the
/// order within each page and the order the pages were handed in.
pub fn flatten_pages(pages: Vec<Vec<Data>>) -> (r: Vec<Data>)
    ensures
        r@ == page_views(pages@).flatten(),
{
    let ghost orig = pages@;
    let mut pages = pages;
    let mut out: Vec<Data> = Vec::new();
    proof {
        assert(out@ + page_views(pages@).flatten() =~= page_views(orig).flatten());
    }
    while pages.len() > 0
        invariant
            out@ + page_views(pages@).flatten() == page_views(orig).flatten(),
        decreases pages@.len(),
    {
        let ghost prev_pages = pages@;
        let ghost prev_out = out@;
        let mut first = pages.remove(0);
        let ghost fv = first@;
        out.append(&mut first);
        proof {
            assert(page_views(prev_pages).len() > 0);
            assert(page_views(prev_pages).first() == fv);
            assert(page_views(pages@) =~= page_views(prev_pages).drop_first());
            assert(out@ + page_views(pages@).flatten() =~= prev_out + page_views(
                prev_pages,
            ).flatten());
        }
    }
    proof {
        assert(page_views(pages@).flatten() =~= Seq::<Data>::empty());
        assert(out@ =~= page_views(orig).flatten());
    }
    out
}

/// Total number of items across a sequence of pages.
pub open spec fn total_items(pages: Seq<Seq<Data>>) -> nat
    decreases pages.len(),
{
    if pages.len() == 0 {
        0
    } else {
        pages.first().len() + total_items(pages.drop_first())
    }
}

/// Law: flattening yields exactly the items of every page — the flat
/// collection's length is the sum of the page lengths.
pub proof fn lemma_flatten_counts_every_page(pages: Seq<Seq<Data>>)
    ensures
        pages.flatten().len() == total_items(pages),
    decreases pages.len(),
{
    if pages.len() > 0 {
        lemma_flatten_counts_every_page(pages.drop_first());
    }
}

/// Law: a page with an empty data array contributes zero items — leaving that
/// page out of the fetch yields the same flat collection.
pub proof fn lemma_empty_page_contributes_nothing(pages: Seq<Seq<Data>>, i: int)
    requires
        0 <= i < pages.len(),
        pages[i].len() == 0,
    ensures
        pages.remove(i).flatten() == pages.flatten(),
    decreases pages.len(),
{
    if i == 0 {
        assert(pages[0] =~= Seq::<Data>::empty());
        assert(pages.remove(0) =~= pages.drop_first());
        assert(pages.first() + pages.drop_first().flatten() =~= pages.drop_first().flatten());
    } else {
        lemma_empty_page_contributes_nothing(pages.drop_first(), i - 1);
        assert(pages.remove(i).drop_first() =~= pages.drop_first().remove(i - 1));
        assert(pages.remove(i).first() == pages.first());
        assert(pages.remove(i).len() > 0);
        assert(pages.remove(i).flatten() == pages.remove(i).first() + pages.remove(
            i,
        ).drop_first().flatten());
        assert(pages.flatten() == pages.first() + pages.drop_first().flatten());
    }
}

} // verus!
