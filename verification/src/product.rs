//! Product records and the values that replace their fields.

use vstd::prelude::*;
use crate::brand::Brand;
use crate::ident::ProductId;
use crate::price::Price;
use crate::timestamp::Timestamp;

verus! {

/// One inventory item.
#[derive(Clone, Debug, PartialEq)]
pub struct Product {
    pub id: ProductId,
    pub name: String,
    pub brand: Brand,
    pub price: Price,
    pub stock: u16,
    pub updated_at: Timestamp,
}

/// What a product is, with its name as a sequence of characters.
pub ghost struct ProductView {
    pub id: ProductId,
    pub name: Seq<char>,
    pub brand: Brand,
    pub price: Price,
    pub stock: u16,
    pub updated_at: Timestamp,
}

impl View for Product {
    type V = ProductView;

    open spec fn view(&self) -> ProductView {
        ProductView {
            id: self.id,
            name: self.name@,
            brand: self.brand,
            price: self.price,
            stock: self.stock,
            updated_at: self.updated_at,
        }
    }
}

/// The replacement values of an update: everything of a product but its
/// identifier and its time of last change.
#[derive(Clone, Debug, PartialEq)]
pub struct ProductDto {
    pub name: String,
    pub brand: Brand,
    pub price: Price,
    pub stock: u16,
}

/// The values of an update, with the name as a sequence of characters.
pub ghost struct ProductDtoView {
    pub name: Seq<char>,
    pub brand: Brand,
    pub price: Price,
    pub stock: u16,
}

impl View for ProductDto {
    type V = ProductDtoView;

    open spec fn view(&self) -> ProductDtoView {
        ProductDtoView {
            name: self.name@,
            brand: self.brand,
            price: self.price,
            stock: self.stock,
        }
    }
}

impl ProductDtoView {
    /// The product that these values make of the one named `id`, changed
    /// at `now`.
    pub open spec fn applied(self, id: ProductId, now: Timestamp) -> ProductView {
        ProductView {
            id,
            name: self.name,
            brand: self.brand,
            price: self.price,
            stock: self.stock,
            updated_at: now,
        }
    }
}

} // verus!
