//! A tree of results as a flat list of pages.

use vstd::prelude::*;
use crate::results::{ScrapedResults, Selections};
use crate::urls::PageUrl;

verus! {

/// A singular "result" that is typically fit into a flat vector of results.
#[derive(Debug)]
pub struct FlatResult<'a> {
    /// The URL which was parsed.
    pub url: &'a PageUrl,
    /// The raw data extracted from the CSS selectors specified.
    pub data: &'a Selections,
    /// The values of the properties, derived from `data`.
    pub props: &'a Vec<(String, serde_json::Value)>,
}

/// The page at the root of `r` without its children.
pub open spec fn flat_of<'a>(r: &'a ScrapedResults) -> FlatResult<'a> {
    FlatResult { url: &r.url, data: &r.selections, props: &r.properties }
}

/// The pages of the tree `r`, each before the pages below it, siblings in
/// their order.
pub open spec fn flattened<'a>(r: &'a ScrapedResults) -> Seq<FlatResult<'a>>
    decreases r,
{
    seq![flat_of(r)] + flattened_all(r.children@)
}

/// The pages of the trees `rs`, tree after tree.
pub open spec fn flattened_all<'a>(rs: Seq<ScrapedResults>) -> Seq<FlatResult<'a>>
    decreases rs,
{
    if rs.len() == 0 {
        Seq::empty()
    } else {
        flattened_all(rs.drop_last()) + flattened(&rs.last())
    }
}

/// Whether no child of `r` has children of its own.
pub open spec fn is_shallow(r: ScrapedResults) -> bool {
    forall|i: int| 0 <= i < r.children@.len() ==> (#[trigger] r.children@[i]).children@.len() == 0
}

/// Trees without children flatten to their roots, in order.
pub proof fn lemma_flattened_leaves(rs: Seq<ScrapedResults>)
    requires
        forall|i: int| 0 <= i < rs.len() ==> (#[trigger] rs[i]).children@.len() == 0,
    ensures
        flattened_all(rs).len() == rs.len(),
        forall|i: int| 0 <= i < rs.len() ==> #[trigger] flattened_all(rs)[i] == flat_of(&rs[i]),
    decreases rs.len(),
{
    if rs.len() > 0 {
        lemma_flattened_leaves(rs.drop_last());
        assert(rs.last().children@.len() == 0);
        assert(flattened_all(rs.last().children@) =~= Seq::empty());
        assert(flattened(&rs.last()) =~= seq![flat_of(&rs.last())]);
        assert forall|i: int| 0 <= i < rs.len() implies #[trigger] flattened_all(rs)[i] == flat_of(
            &rs[i],
        ) by {
            if i < rs.len() - 1 {
                assert(rs.drop_last()[i] == rs[i]);
            }
        }
    }
}

/// A tree that is at most one level deep flattens to its root followed by
/// its children in their order: one page more than it has children.
pub proof fn lemma_flatten_one_level(r: &ScrapedResults)
    requires
        is_shallow(*r),
    ensures
        flattened(r).len() == 1 + r.children@.len(),
        flattened(r)[0] == flat_of(r),
        forall|i: int|
            0 <= i < r.children@.len() ==> #[trigger] flattened(r)[i + 1] == flat_of(
                &r.children@[i],
            ),
{
    lemma_flattened_leaves(r.children@);
    assert forall|i: int| 0 <= i < r.children@.len() implies #[trigger] flattened(r)[i + 1]
        == flat_of(&r.children@[i]) by {
        assert(flattened(r)[i + 1] == flattened_all(r.children@)[i]);
    }
}

impl<'a> FlatResult<'a> {
    /// Flattens results from their hierarchical structure to a vector: the
    /// page itself first, then the pages below it.
    pub fn flatten(r: &'a ScrapedResults) -> (flat: Vec<FlatResult<'a>>)
        ensures
            flat@ == flattened(r),
            flat@.len() >= 1,
            flat@[0] == flat_of(r),
            is_shallow(*r) ==> {
                &&& flat@.len() == 1 + r.children@.len()
                &&& forall|i: int|
                    0 <= i < r.children@.len() ==> #[trigger] flat@[i + 1] == flat_of(
                        &r.children@[i],
                    )
            },
        decreases r,
    {
        let mut flat: Vec<FlatResult<'a>> = Vec::new();
        flat.push(FlatResult { url: &r.url, data: &r.selections, props: &r.properties });
        let mut i: usize = 0;
        assert(r.children@.take(0) =~= Seq::empty());
        while i < r.children.len()
            invariant
                i <= r.children.len(),
                flat@ == seq![flat_of(r)] + flattened_all(r.children@.take(i as int)),
            decreases r.children.len() - i,
        {
            let mut below = FlatResult::flatten(&r.children[i]);
            proof {
                assert(r.children@.take(i + 1).drop_last() =~= r.children@.take(i as int));
                assert(r.children@.take(i + 1).last() == r.children@[i as int]);
            }
            flat.append(&mut below);
            i = i + 1;
        }
        proof {
            assert(r.children@.take(r.children.len() as int) =~= r.children@);
            if is_shallow(*r) {
                lemma_flatten_one_level(r);
            }
        }
        flat
    }
}

} // verus!
