//! Cart rows.

use vstd::prelude::*;

verus! {

/// One product in one user's cart. There is at most one row for a user and a
/// product, and a row that exists holds at least one piece.
#[derive(Clone, Copy, Debug, PartialEq, Eq, Structural)]
pub struct CartItem {
    pub product_id: u128,
    pub quantity: i32,
    pub user_id: u128,
}

} // verus!
