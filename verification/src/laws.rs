//! What holds of the store and of its fields across calls, proved from
//! what the contracts of the operations say.

use vstd::prelude::*;
use crate::ident::ProductId;
use crate::input::{digits_of, is_digit, spec_stock};
use crate::inventory::{
    first_match_at, lists, no_match, with_created, with_deleted, with_updated,
};
use crate::price::is_positive_bits;
use crate::product::{ProductDtoView, ProductView};
use crate::text::{lowercase, matches_ignoring_case};
use crate::timestamp::Timestamp;

verus! {

/// Two products created one after the other never share an identifier:
/// where each creation found its identifier unused, the two identifiers
/// differ, the store holds both products as they were made, and it has
/// grown by exactly two.
pub proof fn lemma_creations_never_collide(
    before: Map<ProductId, ProductView>,
    first: ProductView,
    second: ProductView,
)
    requires
        !before.contains_key(first.id),
        !with_created(before, first).contains_key(second.id),
    ensures
        first.id != second.id,
        ({
            let after = with_created(with_created(before, first), second);
            &&& after.contains_key(first.id) && after[first.id] == first
            &&& after.contains_key(second.id) && after[second.id] == second
            &&& before.dom().finite() ==> after.dom().len() == before.dom().len() + 2
        }),
{
}

/// A creation adds the new product and touches no other: every product
/// that was there is still there, as it was.
pub proof fn lemma_creation_keeps_the_others(
    before: Map<ProductId, ProductView>,
    made: ProductView,
)
    requires
        !before.contains_key(made.id),
    ensures
        ({
            let after = with_created(before, made);
            &&& after.contains_key(made.id) && after[made.id] == made
            &&& forall|other: ProductId| #[trigger]
                before.contains_key(other) ==> after.contains_key(other) && after[other]
                    == before[other]
            &&& before.dom().finite() ==> after.dom().len() == before.dom().len() + 1
        }),
{
}

/// An update of a product that is there changes that product and no
/// other: the store names the same products as before, every other
/// product is as it was, and the updated one has its old identifier, the
/// four new values and the new time of last change.
pub proof fn lemma_update_changes_one_product(
    before: Map<ProductId, ProductView>,
    id: ProductId,
    data: ProductDtoView,
    now: Timestamp,
)
    requires
        before.contains_key(id),
    ensures
        ({
            let after = with_updated(before, id, data, now);
            &&& after.dom() == before.dom()
            &&& forall|other: ProductId|
                other != id && #[trigger] before.contains_key(other) ==> after[other]
                    == before[other]
            &&& after[id].id == id
            &&& after[id].name == data.name
            &&& after[id].brand == data.brand
            &&& after[id].price == data.price
            &&& after[id].stock == data.stock
            &&& after[id].updated_at == now
        }),
{
    let after = with_updated(before, id, data, now);
    assert(after.dom() =~= before.dom());
}

/// An update that is made later than the last change of the product moves
/// its time of last change forward.
pub proof fn lemma_update_advances_time(
    before: Map<ProductId, ProductView>,
    id: ProductId,
    data: ProductDtoView,
    now: Timestamp,
)
    requires
        before.contains_key(id),
        now.is_after(before[id].updated_at),
    ensures
        with_updated(before, id, data, now)[id].updated_at.is_after(before[id].updated_at),
{
}

/// An update of a product that is not there leaves the store unchanged.
pub proof fn lemma_update_of_unknown_changes_nothing(
    before: Map<ProductId, ProductView>,
    id: ProductId,
    data: ProductDtoView,
    now: Timestamp,
)
    requires
        !before.contains_key(id),
    ensures
        with_updated(before, id, data, now) == before,
{
}

/// Deleting a product that is there takes out that product and no other,
/// so that the store has one product less; deleting it once more finds
/// nothing and leaves the store as it is.
pub proof fn lemma_delete_removes_exactly_one(before: Map<ProductId, ProductView>, id: ProductId)
    requires
        before.contains_key(id),
    ensures
        ({
            let after = with_deleted(before, id);
            &&& !after.contains_key(id)
            &&& forall|other: ProductId|
                other != id && #[trigger] before.contains_key(other) ==> after.contains_key(other)
                    && after[other] == before[other]
            &&& before.dom().finite() ==> after.dom().len() == before.dom().len() - 1
            &&& with_deleted(after, id) == after
        }),
{
    let after = with_deleted(before, id);
    assert(with_deleted(after, id) =~= after);
}

/// Deleting a product that is not there leaves the store unchanged.
pub proof fn lemma_delete_of_unknown_changes_nothing(
    before: Map<ProductId, ProductView>,
    id: ProductId,
)
    requires
        !before.contains_key(id),
    ensures
        with_deleted(before, id) == before,
{
    assert(with_deleted(before, id) =~= before);
}

/// Two listings of one store show the same set of products, and equally
/// many of them.
pub proof fn lemma_listings_agree(
    one: Seq<ProductView>,
    other: Seq<ProductView>,
    store: Map<ProductId, ProductView>,
)
    requires
        lists(one, store),
        lists(other, store),
    ensures
        one.to_set() == other.to_set(),
        one.len() == other.len(),
{
    assert forall|p: ProductView| one.to_set().contains(p) <==> other.to_set().contains(p) by {
        if one.contains(p) {
            let i = choose|i: int| 0 <= i < one.len() && one[i] == p;
            assert(store.contains_key(one[i].id));
            assert(other.contains(store[p.id]));
        }
        if other.contains(p) {
            let i = choose|i: int| 0 <= i < other.len() && other[i] == p;
            assert(store.contains_key(other[i].id));
            assert(one.contains(store[p.id]));
        }
    }
    assert(one.to_set() =~= other.to_set());
}

/// A search looks at every product of the store: it finds nothing exactly
/// when no product of the store has a matching name, and what it finds is
/// a product of the store.
pub proof fn lemma_search_covers_the_store(
    listing: Seq<ProductView>,
    store: Map<ProductId, ProductView>,
    query: Seq<char>,
)
    requires
        lists(listing, store),
    ensures
        no_match(listing, query) <==> forall|id: ProductId| #[trigger]
            store.contains_key(id) ==> !matches_ignoring_case(store[id].name, query),
        forall|at: int|
            first_match_at(listing, query, at) ==> store.contains_key((#[trigger] listing[at]).id)
                && store[listing[at].id] == listing[at],
{
    if no_match(listing, query) {
        assert forall|id: ProductId| #[trigger] store.contains_key(id) implies !matches_ignoring_case(
            store[id].name,
            query,
        ) by {
            let i = choose|i: int| 0 <= i < listing.len() && listing[i] == store[id];
            assert(!matches_ignoring_case(listing[i].name, query));
        }
    }
    if forall|id: ProductId| #[trigger]
        store.contains_key(id) ==> !matches_ignoring_case(store[id].name, query) {
        assert forall|i: int| 0 <= i < listing.len() implies !matches_ignoring_case(
            (#[trigger] listing[i]).name,
            query,
        ) by {
            assert(store.contains_key(listing[i].id));
        }
    }
}

/// A search does not tell apart texts that differ in the case of their
/// letters only, in the name or in what is searched for.
pub proof fn lemma_search_ignores_case(
    name: Seq<char>,
    other_name: Seq<char>,
    query: Seq<char>,
    other_query: Seq<char>,
)
    requires
        lowercase(name) == lowercase(other_name),
        lowercase(query) == lowercase(other_query),
    ensures
        matches_ignoring_case(name, query) == matches_ignoring_case(other_name, other_query),
{
}

/// No price is zero or negative: the pattern of zero and every pattern
/// with the sign bit set, negative zero among them, is rejected.
pub proof fn lemma_price_rejects_zero_and_negative(bits: u32)
    requires
        bits == 0 || bits >= 0x8000_0000u32,
    ensures
        !is_positive_bits(bits),
{
}

/// No stock count is negative or fractional: a text with a character that
/// is neither a digit nor a plus sign at its head writes none.
pub proof fn lemma_stock_rejects_other_characters(text: Seq<char>, at: int)
    requires
        0 <= at < text.len(),
        !is_digit(text[at]),
        !(at == 0 && text[0] == '+'),
    ensures
        spec_stock(text) is None,
{
    let digits = digits_of(text);
    if text[0] == '+' {
        assert(digits[at - 1] == text[at]);
    } else {
        assert(digits[at] == text[at]);
    }
}

} // verus!
