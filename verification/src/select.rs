//! Choosing the one vault entry that belongs to a registry.
//!
//! The vault's own URL filter may match more broadly (by host or base
//! domain), so the listed items are re-filtered here for an exact URI match,
//! and more than one exact match is refused rather than auto-resolved.

use vstd::prelude::*;

use crate::error::CredentialError;
use crate::model::{VaultItem, VaultItemView};
use crate::text::str_eq;

verus! {

/// Whether one of the item's URIs equals the registry index URL exactly.
pub open spec fn uri_matches(item: VaultItemView, url: Seq<char>) -> bool {
    exists|k: int| 0 <= k < item.login.uris.len() && item.login.uris[k].uri == url
}

/// The views of a listed item sequence.
pub open spec fn views_of(items: Seq<VaultItem>) -> Seq<VaultItemView> {
    items.map_values(|it: VaultItem| it@)
}

/// The subsequence of items whose URIs match the index URL exactly, in
/// listing order.
pub open spec fn matching(items: Seq<VaultItemView>, url: Seq<char>) -> Seq<VaultItemView> {
    items.filter(|it: VaultItemView| uri_matches(it, url))
}

/// Whether one of the item's URIs equals `url` exactly.
pub fn item_matches(item: &VaultItem, url: &str) -> (r: bool)
    ensures
        r == uri_matches(item@, url@),
{
    let mut k: usize = 0;
    let n = item.login.uris.len();
    while k < n
        invariant
            n == item.login.uris@.len(),
            k <= n,
            forall|j: int| 0 <= j < k ==> item.login.uris@[j]@.uri != url@,
        decreases n - k,
    {
        if str_eq(item.login.uris[k].uri.as_str(), url) {
            proof {
                assert(item@.login.uris[k as int].uri == url@);
            }
            return true;
        }
        k = k + 1;
    }
    proof {
        assert forall|j: int|
            0 <= j < item@.login.uris.len() implies item@.login.uris[j].uri != url@ by {
            assert(item@.login.uris[j] == item.login.uris@[j]@);
        }
    }
    false
}

/// Keeps only the items with an exact URI match and decides the search:
/// no match is "not found", exactly one is returned, two or more are a
/// data-hygiene error naming the index URL, never auto-resolved.
pub fn select_item(items: &Vec<VaultItem>, index_url: &str) -> (r: Result<
    Option<VaultItem>,
    CredentialError,
>)
    ensures
        match r {
            Ok(found) => match found {
                None => matching(views_of(items@), index_url@).len() == 0,
                Some(item) => matching(views_of(items@), index_url@).len() == 1 && item@
                    == matching(views_of(items@), index_url@)[0],
            },
            Err(e) => e matches CredentialError::AmbiguousEntry(u) && u@ == index_url@ && matching(
                views_of(items@),
                index_url@,
            ).len() >= 2,
        },
{
    let ghost all = views_of(items@);
    let ghost pred = |it: VaultItemView| uri_matches(it, index_url@);
    let mut found: Option<usize> = None;
    let mut i: usize = 0;
    proof {
        reveal(Seq::filter);
        assert(all.take(0).filter(pred) =~= Seq::<VaultItemView>::empty());
    }
    while i < items.len()
        invariant
            i <= items.len(),
            all == views_of(items@),
            pred == (|it: VaultItemView| uri_matches(it, index_url@)),
            all.len() == items@.len(),
            forall|k: int| 0 <= k < all.len() ==> all[k] == items@[k]@,
            match found {
                None => all.take(i as int).filter(pred).len() == 0,
                Some(j) => j < i && all.take(i as int).filter(pred).len() == 1 && all.take(
                    i as int,
                ).filter(pred)[0] == all[j as int],
            },
        decreases items.len() - i,
    {
        let is_match = item_matches(&items[i], index_url);
        proof {
            reveal(Seq::filter);
            assert(all.take(i + 1).drop_last() =~= all.take(i as int));
            assert(all.take(i + 1).last() == all[i as int]);
        }
        if is_match {
            if found.is_some() {
                proof {
                    assert(all.take(i + 1).filter(pred).len() == 2);
                    all.take(i + 1).lemma_filter_len(pred);
                    lemma_filter_take_len(all, pred, i + 1);
                }
                return Err(CredentialError::AmbiguousEntry(index_url.to_owned()));
            }
            found = Some(i);
        }
        i = i + 1;
    }
    proof {
        assert(all.take(items@.len() as int) =~= all);
    }
    match found {
        None => Ok(None),
        Some(j) => Ok(Some(items[j].duplicate())),
    }
}

/// When no item matches the index URL, the search finds nothing.
pub proof fn lemma_no_match(items: Seq<VaultItemView>, url: Seq<char>)
    requires
        forall|j: int| 0 <= j < items.len() ==> !uri_matches(items[j], url),
    ensures
        matching(items, url).len() == 0,
    decreases items.len(),
{
    reveal(Seq::filter);
    if items.len() > 0 {
        assert(forall|j: int|
            0 <= j < items.drop_last().len() ==> items.drop_last()[j] == items[j]);
        lemma_no_match(items.drop_last(), url);
    }
}

/// When exactly one item (the one at index `i`) has a URI equal to the
/// queried index URL, the search's exact re-filter keeps that item and no
/// other.
pub proof fn lemma_unique_match(items: Seq<VaultItemView>, url: Seq<char>, i: int)
    requires
        0 <= i < items.len(),
        uri_matches(items[i], url),
        forall|j: int| 0 <= j < items.len() && j != i ==> !uri_matches(items[j], url),
    ensures
        matching(items, url) == seq![items[i]],
    decreases items.len(),
{
    reveal(Seq::filter);
    if i == items.len() - 1 {
        assert(forall|j: int|
            0 <= j < items.drop_last().len() ==> items.drop_last()[j] == items[j]);
        lemma_no_match(items.drop_last(), url);
        assert(matching(items, url) =~= seq![items[i]]);
    } else {
        assert(forall|j: int|
            0 <= j < items.drop_last().len() ==> items.drop_last()[j] == items[j]);
        lemma_unique_match(items.drop_last(), url, i);
        assert(!uri_matches(items.last(), url));
        assert(matching(items, url) =~= seq![items[i]]);
    }
}

/// When two distinct items both have a URI equal to the queried index URL,
/// the search's re-filter keeps at least two, so the search is refused as
/// ambiguous rather than auto-resolved.
pub proof fn lemma_two_matches(items: Seq<VaultItemView>, url: Seq<char>, i: int, j: int)
    requires
        0 <= i < j < items.len(),
        uri_matches(items[i], url),
        uri_matches(items[j], url),
    ensures
        matching(items, url).len() >= 2,
    decreases items.len(),
{
    reveal(Seq::filter);
    if j == items.len() - 1 {
        lemma_match_in_filter(items.drop_last(), url, i);
    } else {
        assert(forall|k: int|
            0 <= k < items.drop_last().len() ==> items.drop_last()[k] == items[k]);
        lemma_two_matches(items.drop_last(), url, i, j);
    }
}

/// A matching item keeps the re-filter non-empty.
pub proof fn lemma_match_in_filter(items: Seq<VaultItemView>, url: Seq<char>, i: int)
    requires
        0 <= i < items.len(),
        uri_matches(items[i], url),
    ensures
        matching(items, url).len() >= 1,
    decreases items.len(),
{
    reveal(Seq::filter);
    if i < items.len() - 1 {
        assert(forall|k: int|
            0 <= k < items.drop_last().len() ==> items.drop_last()[k] == items[k]);
        lemma_match_in_filter(items.drop_last(), url, i);
    }
}

/// A longer prefix never filters to fewer elements.
proof fn lemma_filter_take_len<A>(s: Seq<A>, pred: spec_fn(A) -> bool, i: int)
    requires
        0 <= i <= s.len(),
    ensures
        s.filter(pred).len() >= s.take(i).filter(pred).len(),
    decreases s.len() - i,
{
    reveal(Seq::filter);
    if i < s.len() {
        lemma_filter_take_len(s, pred, i + 1);
        assert(s.take(i + 1).drop_last() =~= s.take(i));
    } else {
        assert(s.take(i) =~= s);
    }
}

} // verus!
