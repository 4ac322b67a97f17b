//! The product store and its operations.

use std::collections::HashMap;
use vstd::prelude::*;
use vstd::std_specs::hash::{into_iter, spec_hash_map_iter};
use vstd::std_specs::iter::IteratorSpec;
use crate::brand::Brand;
use crate::ident::{is_random_tagged, random_id, ProductId};
use crate::price::Price;
use crate::product::{Product, ProductDto, ProductDtoView, ProductView};
use crate::text::{contains_ignoring_case, matches_ignoring_case};
use crate::timestamp::{local_now, Timestamp};

verus! {

broadcast use vstd::std_specs::hash::group_hash_axioms;

/// Why the store took no new product.
#[derive(Clone, Copy, Debug, PartialEq, Eq, Structural)]
pub enum StoreError {
    /// The identifier of the new product is that of a product already in
    /// the store.
    DuplicateId,
    /// The local time could not be read.
    ClockUnavailable,
}

/// The product that `create_with` makes of its arguments.
pub open spec fn new_product(
    id: ProductId,
    now: Timestamp,
    name: Seq<char>,
    brand: Brand,
    price: Price,
    stock: u16,
) -> ProductView {
    ProductView { id, name, brand, price, stock, updated_at: now }
}

/// The store `store` with the product `made` added under its identifier.
pub open spec fn with_created(
    store: Map<ProductId, ProductView>,
    made: ProductView,
) -> Map<ProductId, ProductView> {
    store.insert(made.id, made)
}

/// The store `store` after an update of the product `id` with the values
/// `data` at the time `now`: the product is replaced where the store holds
/// it, and a store that does not hold it is left as it is.
pub open spec fn with_updated(
    store: Map<ProductId, ProductView>,
    id: ProductId,
    data: ProductDtoView,
    now: Timestamp,
) -> Map<ProductId, ProductView> {
    if store.contains_key(id) {
        store.insert(id, data.applied(id, now))
    } else {
        store
    }
}

/// The store `store` without the product `id`.
pub open spec fn with_deleted(
    store: Map<ProductId, ProductView>,
    id: ProductId,
) -> Map<ProductId, ProductView> {
    store.remove(id)
}

/// Whether `store` holds a product under an identifier that is marked as
/// randomly generated: only such a product can stand in the way of a new
/// one, whose identifier is marked so too.
pub open spec fn holds_random_identifier(store: Map<ProductId, ProductView>) -> bool {
    exists|id: ProductId| is_random_tagged(id.0) && #[trigger] store.contains_key(id)
}

/// The products of `products`, each as its view, in the same order.
pub open spec fn views(products: Seq<Product>) -> Seq<ProductView> {
    products.map_values(|p: Product| p@)
}

/// Whether `listing` shows the products of `store`: it has as many entries
/// as the store has products, every entry is a product of the store under
/// its own identifier, no identifier occurs twice, and every product of the
/// store occurs.
pub open spec fn lists(listing: Seq<ProductView>, store: Map<ProductId, ProductView>) -> bool {
    &&& store.dom().finite()
    &&& listing.len() == store.dom().len()
    &&& forall|i: int|
        0 <= i < listing.len() ==> store.contains_key((#[trigger] listing[i]).id)
            && store[listing[i].id] == listing[i]
    &&& forall|i: int, j: int|
        0 <= i < j < listing.len() ==> (#[trigger] listing[i]).id != (#[trigger] listing[j]).id
    &&& forall|id: ProductId| #[trigger] store.contains_key(id) ==> listing.contains(store[id])
}

/// Whether the entry of `listing` at `at` is the first whose name holds
/// `query`, the case of letters ignored.
pub open spec fn first_match_at(listing: Seq<ProductView>, query: Seq<char>, at: int) -> bool {
    &&& 0 <= at < listing.len()
    &&& matches_ignoring_case(listing[at].name, query)
    &&& forall|i: int| 0 <= i < at ==> !matches_ignoring_case((#[trigger] listing[i]).name, query)
}

/// Whether no entry of `listing` has a name that holds `query`, the case of
/// letters ignored.
pub open spec fn no_match(listing: Seq<ProductView>, query: Seq<char>) -> bool {
    forall|i: int|
        0 <= i < listing.len() ==> !matches_ignoring_case((#[trigger] listing[i]).name, query)
}

/// What a search by name came to.
#[derive(Clone, Debug, PartialEq)]
pub enum SearchOutcome {
    /// The store holds no product at all.
    NoProducts,
    /// The first product, in the order of the store, whose name holds the
    /// text searched for.
    Found(Product),
    /// The store holds products, and none with that text in its name.
    NotFound,
}

/// What the store keeps of a product: everything but the identifier, which
/// is the key under which the record lies.
struct Record {
    name: String,
    brand: Brand,
    price: Price,
    stock: u16,
    updated_at: Timestamp,
}

impl Record {
    /// The product that this record is when it lies under `id`.
    spec fn under(self, id: ProductId) -> ProductView {
        ProductView {
            id,
            name: self.name@,
            brand: self.brand,
            price: self.price,
            stock: self.stock,
            updated_at: self.updated_at,
        }
    }

    fn to_product(&self, id: ProductId) -> (r: Product)
        ensures
            r@ == self.under(id),
    {
        Product {
            id,
            name: self.name.clone(),
            brand: self.brand,
            price: self.price,
            stock: self.stock,
            updated_at: self.updated_at,
        }
    }
}

/// The products of a store, each under its own identifier.
pub struct Inventory {
    products: HashMap<u128, Record>,
}

impl View for Inventory {
    type V = Map<ProductId, ProductView>;

    closed spec fn view(&self) -> Map<ProductId, ProductView> {
        Map::new(
            |id: ProductId| self.products@.contains_key(id.0),
            |id: ProductId| self.products@[id.0].under(id),
        )
    }
}

impl Inventory {
    /// The products of the store in the order in which the store hands them
    /// out. The order is that in which the underlying hash map is walked: it
    /// stays the same for as long as the store is not changed, and nothing
    /// else is known of it.
    pub closed spec fn listing(&self) -> Seq<ProductView> {
        into_iter(spec_hash_map_iter(&self.products)).map_values(
            |entry: (u128, Record)| entry.1.under(ProductId(entry.0)),
        )
    }

    /// An empty store.
    pub fn new() -> (r: Inventory)
        ensures
            r@ == Map::<ProductId, ProductView>::empty(),
    {
        let r = Inventory { products: HashMap::new() };
        assert(r@ =~= Map::<ProductId, ProductView>::empty());
        r
    }

    /// Whether the store holds a product with the identifier `id`.
    pub fn contains(&self, id: ProductId) -> (r: bool)
        ensures
            r == self@.contains_key(id),
    {
        self.products.contains_key(&id.0)
    }

    /// Adds a product with the identifier `id`, made at `now`, and gives
    /// it back. Where the store already holds a product with that
    /// identifier, nothing is added and the store stays as it is. The
    /// values are taken as they come: the store does not judge them.
    pub fn create_with(
        &mut self,
        id: ProductId,
        now: Timestamp,
        name: &str,
        brand: Brand,
        price: Price,
        stock: u16,
    ) -> (r: Result<Product, StoreError>)
        ensures
            old(self)@.contains_key(id) ==> (r matches Err(StoreError::DuplicateId) && final(self)@
                == old(self)@),
            !old(self)@.contains_key(id) ==> (r matches Ok(p) && p@ == new_product(
                id,
                now,
                name@,
                brand,
                price,
                stock,
            ) && final(self)@ == with_created(old(self)@, p@)),
    {
        if self.products.contains_key(&id.0) {
            return Err(StoreError::DuplicateId);
        }
        let record = Record { name: name.to_owned(), brand, price, stock, updated_at: now };
        let made = record.to_product(id);
        self.products.insert(id.0, record);
        assert(self@ =~= old(self)@.insert(id, made@));
        Ok(made)
    }

    /// Adds a product under a randomly generated identifier, made at the
    /// local time of the call, and gives it back. Where the local time
    /// cannot be read, or the identifier is one that the store already
    /// holds, nothing is added and the store stays as it is. The second can
    /// happen only in a store that holds a randomly generated identifier:
    /// in any other store the call fails for want of a clock or not at all.
    pub fn create(&mut self, name: &str, brand: Brand, price: Price, stock: u16) -> (r: Result<
        Product,
        StoreError,
    >)
        ensures
            r is Err ==> final(self)@ == old(self)@,
            r matches Err(StoreError::DuplicateId) ==> holds_random_identifier(old(self)@),
            r matches Ok(p) ==> ({
                &&& is_random_tagged(p.id.0)
                &&& !old(self)@.contains_key(p.id)
                &&& p@ == new_product(p.id, p.updated_at, name@, brand, price, stock)
                &&& final(self)@ == with_created(old(self)@, p@)
            }),
    {
        let id = random_id();
        match local_now() {
            Some(now) => {
                let outcome = self.create_with(id, now, name, brand, price, stock);
                assert(outcome is Err ==> is_random_tagged(id.0) && old(self)@.contains_key(id));
                outcome
            },
            None => Err(StoreError::ClockUnavailable),
        }
    }

    /// Replaces name, brand, price and stock of the product with the
    /// identifier `id` by the values of `new_data` and sets its time of last
    /// change to `now`. A store without such a product stays as it is, and
    /// the caller is not told.
    pub fn update_with(&mut self, id: ProductId, new_data: ProductDto, now: Timestamp)
        ensures
            final(self)@ == with_updated(old(self)@, id, new_data@, now),
    {
        if self.products.contains_key(&id.0) {
            let changed = Record {
                name: new_data.name,
                brand: new_data.brand,
                price: new_data.price,
                stock: new_data.stock,
                updated_at: now,
            };
            self.products.insert(id.0, changed);
            assert(self@ =~= old(self)@.insert(id, new_data@.applied(id, now)));
        }
    }

    /// Replaces name, brand, price and stock of the product with the
    /// identifier `id` by the values of `new_data` and sets its time of last
    /// change to the local time of the call. A store without such a product
    /// stays as it is, and the call succeeds all the same. Where the product
    /// is there and the local time cannot be read, the store stays as it is.
    pub fn update(&mut self, id: ProductId, new_data: ProductDto) -> (r: Result<(), StoreError>)
        ensures
            !old(self)@.contains_key(id) ==> r is Ok,
            r matches Err(e) ==> (e == StoreError::ClockUnavailable && final(self)@ == old(self)@),
            r is Ok ==> final(self)@ == with_updated(
                old(self)@,
                id,
                new_data@,
                final(self)@[id].updated_at,
            ),
    {
        if !self.contains(id) {
            return Ok(());
        }
        match local_now() {
            Some(now) => {
                self.update_with(id, new_data, now);
                Ok(())
            },
            None => Err(StoreError::ClockUnavailable),
        }
    }

    /// Takes the product with the identifier `id` out of the store and
    /// says whether there was one.
    pub fn delete(&mut self, id: ProductId) -> (r: bool)
        ensures
            r == old(self)@.contains_key(id),
            final(self)@ == with_deleted(old(self)@, id),
    {
        let removed = self.products.remove(&id.0);
        assert(self@ =~= old(self)@.remove(id));
        removed.is_some()
    }

    /// A store holds finitely many products.
    pub proof fn lemma_finitely_many(&self)
        ensures
            self@.dom().finite(),
    {
        self.lemma_as_many_as_keys();
    }

    /// The store holds finitely many products: one for each key of the
    /// hash map.
    proof fn lemma_as_many_as_keys(&self)
        ensures
            self@.dom().finite(),
            self@.dom().len() == self.products@.dom().len(),
    {
        let keys = self.products@.dom();
        let named = |raw: u128| ProductId(raw);
        assert(keys.map(named) =~= self@.dom()) by {
            assert forall|id: ProductId| self@.dom().contains(id) implies keys.map(named).contains(
                id,
            ) by {
                assert(keys.contains(id.0) && named(id.0) == id);
            }
        }
        assert(vstd::relations::injective_on(named, keys));
        vstd::set_lib::lemma_map_size(keys, self@.dom(), named);
    }

    /// The order in which the hash map is walked shows the products of the
    /// store, once the map has been asked for its entries.
    proof fn lemma_listing_lists(&self)
        requires
            spec_hash_map_iter(&self.products).remaining().unref() == into_iter(
                spec_hash_map_iter(&self.products),
            ),
            spec_hash_map_iter(&self.products).remaining().no_duplicates(),
        ensures
            lists(self.listing(), self@),
            self.listing().len() == 0 <==> self@ == Map::<ProductId, ProductView>::empty(),
    {
        let walked = spec_hash_map_iter(&self.products).remaining();
        let listing = self.listing();
        self.lemma_as_many_as_keys();
        assert forall|i: int| 0 <= i < listing.len() implies self@.contains_key(
            (#[trigger] listing[i]).id,
        ) && self@[listing[i].id] == listing[i] by {
            assert(self.products@.contains_key(*walked[i].0));
        }
        assert forall|i: int, j: int| 0 <= i < j < listing.len() implies (
        #[trigger] listing[i]).id != (#[trigger] listing[j]).id by {
            assert(self.products@.contains_key(*walked[i].0));
            assert(self.products@.contains_key(*walked[j].0));
            if *walked[i].0 == *walked[j].0 {
                assert(walked[i] == walked[j]);
            }
        }
        assert forall|id: ProductId| #[trigger] self@.contains_key(id) implies listing.contains(
            self@[id],
        ) by {
            let raw = id.0;
            assert(self.products@.contains_key(raw));
            let at = choose|i: int|
                0 <= i < walked.len() && walked[i] == (&raw, &self.products@[raw]);
            assert(listing[at] == self@[id]);
        }
        if listing.len() == 0 {
            assert(self@ =~= Map::<ProductId, ProductView>::empty());
        } else {
            assert(self@.contains_key(listing[0].id));
        }
    }

    /// All products of the store, in the order of `listing`, or `None` for
    /// a store that holds no product.
    pub fn see_all(&self) -> (r: Option<Vec<Product>>)
        ensures
            r is None <==> self@ == Map::<ProductId, ProductView>::empty(),
            r matches Some(found) ==> views(found@) == self.listing(),
            lists(self.listing(), self@),
    {
        let mut found: Vec<Product> = Vec::new();
        for entry in it: self.products.iter()
            invariant
                it.snapshot@ == spec_hash_map_iter(&self.products),
                it.seq().no_duplicates(),
                found@.len() == it.index(),
                forall|i: int|
                    0 <= i < found@.len() ==> (#[trigger] found@[i])@ == it.seq()[i].1.under(
                        ProductId(*it.seq()[i].0),
                    ),
        {
            let (raw, record) = entry;
            found.push(record.to_product(ProductId(*raw)));
        }
        proof {
            self.lemma_listing_lists();
            assert(views(found@) =~= self.listing());
        }
        if found.len() == 0 {
            None
        } else {
            Some(found)
        }
    }

    /// Looks for `query` in the names of the products, the case of letters
    /// ignored, and gives the first product in the order of `listing` whose
    /// name holds it. Later products with such a name are passed over.
    pub fn search_by_name(&self, query: &str) -> (r: SearchOutcome)
        ensures
            lists(self.listing(), self@),
            r is NoProducts <==> self@ == Map::<ProductId, ProductView>::empty(),
            r is NotFound <==> self.listing().len() > 0 && no_match(self.listing(), query@),
            r matches SearchOutcome::Found(p) ==> exists|at: int|
                first_match_at(self.listing(), query@, at) && p@ == self.listing()[at],
    {
        let mut any = false;
        let ghost mut seen: int = 0;
        for entry in it: self.products.iter()
            invariant
                it.snapshot@ == spec_hash_map_iter(&self.products),
                it.seq().no_duplicates(),
                seen == it.index(),
                any <==> seen > 0,
                forall|i: int|
                    0 <= i < seen ==> !matches_ignoring_case(
                        (#[trigger] spec_hash_map_iter(&self.products).remaining()[i]).1.name@,
                        query@,
                    ),
        {
            let (raw, record) = entry;
            any = true;
            proof {
                seen = seen + 1;
            }
            if contains_ignoring_case(record.name.as_str(), query) {
                let hit = record.to_product(ProductId(*raw));
                proof {
                    self.lemma_listing_lists();
                    let walked = spec_hash_map_iter(&self.products).remaining();
                    let at = seen - 1;
                    assert(self.listing()[at] == hit@);
                    assert forall|i: int| 0 <= i < at implies !matches_ignoring_case(
                        (#[trigger] self.listing()[i]).name,
                        query@,
                    ) by {
                        assert(!matches_ignoring_case(walked[i].1.name@, query@));
                    }
                    assert(first_match_at(self.listing(), query@, at));
                }
                return SearchOutcome::Found(hit);
            }
        }
        proof {
            self.lemma_listing_lists();
            let walked = spec_hash_map_iter(&self.products).remaining();
            assert(seen == self.listing().len());
            assert forall|i: int| 0 <= i < self.listing().len() implies !matches_ignoring_case(
                (#[trigger] self.listing()[i]).name,
                query@,
            ) by {
                assert(!matches_ignoring_case(walked[i].1.name@, query@));
            }
        }
        if any {
            SearchOutcome::NotFound
        } else {
            SearchOutcome::NoProducts
        }
    }
}

} // verus!
