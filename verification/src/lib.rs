//! An in-memory product inventory: a keyed store of product records with
//! create, list, search, update and delete, together with the validation of
//! the field values that enter it.

pub mod brand;
pub mod ident;
pub mod input;
pub mod inventory;
pub mod laws;
pub mod price;
pub mod product;
pub mod text;
pub mod timestamp;
