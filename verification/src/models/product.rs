//! Catalog rows and the payloads that create and change them.

use vstd::prelude::*;
use crate::decimal::Decimal;

verus! {

/// A product on offer.
#[derive(Clone, Debug, PartialEq, Eq)]
pub struct Product {
    pub id: u128,
    /// The vendor who owns the product.
    pub vendor_id: u128,
    pub name: String,
    pub description: Option<String>,
    pub price: Decimal,
    /// Pieces on the shelf; never negative.
    pub stock: i32,
    pub category: Option<String>,
    /// When the store wrote the row first, in microseconds since the epoch.
    pub created_at: Option<i64>,
    /// When the store wrote the row last, in microseconds since the epoch.
    pub updated_at: Option<i64>,
}

/// What a vendor sends to put a product on offer.
#[derive(Clone, Debug, PartialEq, Eq)]
pub struct CreateProduct {
    pub name: String,
    pub description: Option<String>,
    pub price: Decimal,
    pub stock: i32,
    pub category: Option<String>,
}

/// What a vendor sends to change a product: each field that is present
/// replaces the stored one.
#[derive(Clone, Debug, PartialEq, Eq)]
pub struct UpdateProduct {
    pub name: Option<String>,
    pub description: Option<String>,
    pub price: Option<Decimal>,
    pub stock: Option<i32>,
    pub category: Option<String>,
}

} // verus!
