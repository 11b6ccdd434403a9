//! The filtered list: the subsequence of the catalog whose entries match
//! the search needle, in catalog order.

use vstd::prelude::*;
use crate::command::{command_matches, Command};
use crate::text::{contains_seq, lower_of};

verus! {

/// The entries of `catalog` that match `needle`, in their catalog order.
pub open spec fn filter_matching(catalog: Seq<Command>, needle: Seq<char>) -> Seq<Command>
    decreases catalog.len(),
{
    if catalog.len() == 0 {
        Seq::empty()
    } else {
        let rest = filter_matching(catalog.drop_last(), needle);
        if command_matches(catalog.last(), needle) {
            rest.push(catalog.last())
        } else {
            rest
        }
    }
}

/// For each entry of the filtered list, the catalog index it came from.
pub open spec fn filter_sources(catalog: Seq<Command>, needle: Seq<char>) -> Seq<int>
    decreases catalog.len(),
{
    if catalog.len() == 0 {
        Seq::empty()
    } else {
        let rest = filter_sources(catalog.drop_last(), needle);
        if command_matches(catalog.last(), needle) {
            rest.push(catalog.len() - 1)
        } else {
            rest
        }
    }
}

/// Every entry of the filtered list matches the needle, and the filtered
/// list preserves the catalog's relative order: entry `k` of the filtered
/// list is the catalog entry at source index `k`, and the source indices
/// are strictly increasing.
pub proof fn lemma_filter_preserves_order(catalog: Seq<Command>, needle: Seq<char>)
    ensures
        filter_sources(catalog, needle).len() == filter_matching(catalog, needle).len(),
        forall|k: int|
            0 <= k < filter_matching(catalog, needle).len() ==> {
                let src = #[trigger] filter_sources(catalog, needle)[k];
                &&& 0 <= src < catalog.len()
                &&& catalog[src] == filter_matching(catalog, needle)[k]
                &&& command_matches(filter_matching(catalog, needle)[k], needle)
            },
        forall|k1: int, k2: int|
            0 <= k1 < k2 < filter_sources(catalog, needle).len() ==> #[trigger] filter_sources(
                catalog,
                needle,
            )[k1] < #[trigger] filter_sources(catalog, needle)[k2],
    decreases catalog.len(),
{
    if catalog.len() > 0 {
        lemma_filter_preserves_order(catalog.drop_last(), needle);
        assert forall|k: int|
            0 <= k < filter_matching(catalog.drop_last(), needle).len() implies catalog.drop_last()[
            #[trigger] filter_sources(catalog.drop_last(), needle)[k]] == catalog[filter_sources(
            catalog.drop_last(),
            needle,
        )[k]] by {}
    }
}

/// An empty needle is contained in every string, so filtering by it keeps
/// the whole catalog.
pub proof fn lemma_filter_empty_needle(catalog: Seq<Command>, needle: Seq<char>)
    requires
        needle.len() == 0,
    ensures
        filter_matching(catalog, needle) == catalog,
    decreases catalog.len(),
{
    if catalog.len() > 0 {
        lemma_filter_empty_needle(catalog.drop_last(), needle);
        assert(lower_of(catalog.last().title@).subrange(0, 0 + needle.len() as int) =~= needle);
        assert(contains_seq(lower_of(catalog.last().title@), needle));
        assert(filter_matching(catalog, needle) =~= catalog);
    } else {
        assert(filter_matching(catalog, needle) =~= catalog);
    }
}

} // verus!
