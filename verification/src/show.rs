//! Which of the results the command line shows.

use vstd::prelude::*;
use crate::results::{found_in, Found, ScrapedResults};
use crate::text::{pieces, split};

verus! {

/// What is shown for one key: the key and what a lookup finds under it, or
/// nothing where the results hold no such key.
pub open spec fn shown_for<'a>(doc: &'a ScrapedResults, key: Seq<char>) -> Option<
    (Seq<char>, Found<'a>),
> {
    match found_in(doc, key) {
        Some(found) => Some((key, found)),
        None => None,
    }
}

/// What is shown for a list of keys: an entry for each key that the results
/// hold, in the order of the keys.
pub open spec fn shown_among<'a>(doc: &'a ScrapedResults, keys: Seq<Seq<char>>) -> Seq<
    (Seq<char>, Found<'a>),
> {
    keys.filter_map(|key: Seq<char>| shown_for(doc, key))
}

/// What is shown of `doc` on request `wanted`, a list of keys with commas
/// between them: nothing without a request.
pub open spec fn shown_of<'a>(doc: &'a ScrapedResults, wanted: Option<Seq<char>>) -> Seq<
    (Seq<char>, Found<'a>),
> {
    match wanted {
        Some(list) => shown_among(doc, pieces(list, ',')),
        None => Seq::empty(),
    }
}

/// The entries of `shown` with each key as a sequence of characters.
pub open spec fn shown_view<'a>(shown: Seq<(String, Found<'a>)>) -> Seq<(Seq<char>, Found<'a>)> {
    shown.map_values(|entry: (String, Found<'a>)| (entry.0@, entry.1))
}

/// Chooses the selections and properties which are to be put out: those
/// that `wanted` names, keys with commas between them, and that the results
/// hold. A key that the results do not hold is passed over.
pub fn show<'a>(doc: &'a ScrapedResults, wanted: &Option<String>) -> (shown: Vec<
    (String, Found<'a>),
>)
    ensures
        shown_view(shown@) == shown_of(doc, wanted.deep_view()),
{
    let mut shown: Vec<(String, Found<'a>)> = Vec::new();
    match wanted {
        None => {
            assert(shown_view(shown@) =~= Seq::empty());
        },
        Some(list) => {
            let keys = split(list.as_str(), ',');
            let ghost all = keys.deep_view();
            let ghost pick = |key: Seq<char>| shown_for(doc, key);
            let mut i: usize = 0;
            assert(shown_view(shown@) =~= all.take(0).filter_map(pick));
            while i < keys.len()
                invariant
                    i <= keys.len(),
                    all == keys.deep_view(),
                    pick == |key: Seq<char>| shown_for(doc, key),
                    shown_view(shown@) == all.take(i as int).filter_map(pick),
                decreases keys.len() - i,
            {
                let ghost before = shown_view(shown@);
                proof {
                    all.lemma_filter_map_take_succ(pick, i as int);
                    assert(all[i as int] == keys[i as int]@);
                }
                match doc.get(keys[i].as_str()) {
                    Ok(found) => {
                        shown.push((keys[i].clone(), found));
                        assert(shown_view(shown@) =~= before.push((all[i as int], found)));
                    },
                    Err(_) => {},
                }
                i = i + 1;
            }
            assert(all.take(keys.len() as int) =~= all);
        },
    }
    shown
}

} // verus!
