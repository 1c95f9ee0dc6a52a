//! Carts: one row for each product a user has picked, counting the pieces.

use vstd::prelude::*;
use crate::controllers::auth_guard::AuthUser;
use crate::error::{ApiError, ErrorKind};
use crate::models::cart::CartItem;

verus! {

/// The product that a cart request names.
#[derive(Clone, Copy, Debug, PartialEq, Eq, Structural)]
pub struct UpdateCartItem {
    pub product_id: u128,
}

/// Puts one more piece of a product into the caller's cart. `existing` is
/// the caller's cart row for that product, if there is one.
///
/// The row to store comes back: the first piece makes a row of one, each
/// further piece counts the row up by one. A row that cannot count further
/// is an internal failure, and nothing is to be stored.
pub fn add_cart_item(auth_user: &AuthUser, product_id: u128, existing: Option<CartItem>) -> (result:
    Result<CartItem, ApiError>)
    ensures
        match result {
            Ok(row) => {
                &&& row.user_id == auth_user.user_id
                &&& row.product_id == product_id
                &&& match existing {
                    Some(held) => held.quantity < i32::MAX && row.quantity == held.quantity + 1,
                    None => row.quantity == 1,
                }
                &&& (existing matches Some(held) ==> held.quantity >= 1) ==> row.quantity >= 1
            },
            Err(e) => {
                &&& existing matches Some(held)
                &&& held.quantity == i32::MAX
                &&& e.says(ErrorKind::Internal, "Failed to add item to cart"@)
            },
        },
{
    let quantity: i32 = match existing {
        Some(held) => match held.quantity.checked_add(1) {
            Some(quantity) => quantity,
            None => {
                return Err(ApiError::with_text(ErrorKind::Internal, "Failed to add item to cart"));
            },
        },
        None => 1,
    };
    Ok(CartItem { product_id, quantity, user_id: auth_user.user_id })
}

/// Takes one piece of a product out of a cart. `existing` is the cart row
/// for that product, if there is one.
///
/// A row of more than one piece comes back counted down by one, to be
/// stored. Otherwise nothing comes back: the row, if there is one, is to be
/// removed, so that no row is ever left with less than one piece.
pub fn remove_cart_item(existing: Option<CartItem>) -> (kept: Option<CartItem>)
    ensures
        match existing {
            Some(held) if held.quantity > 1 => kept == Some(
                CartItem { quantity: (held.quantity - 1) as i32, ..held },
            ),
            _ => kept is None,
        },
        kept matches Some(row) ==> row.quantity >= 1,
{
    match existing {
        Some(held) => {
            if held.quantity > 1 {
                Some(
                    CartItem {
                        product_id: held.product_id,
                        quantity: held.quantity - 1,
                        user_id: held.user_id,
                    },
                )
            } else {
                None
            }
        },
        None => None,
    }
}

/// The rows of a cart that are a user's own, in the order given.
pub open spec fn rows_of(rows: Seq<CartItem>, user_id: u128) -> Seq<CartItem>
    decreases rows.len(),
{
    if rows.len() == 0 {
        Seq::empty()
    } else if rows.last().user_id == user_id {
        rows_of(rows.drop_last(), user_id).push(rows.last())
    } else {
        rows_of(rows.drop_last(), user_id)
    }
}

/// Shows the caller their cart: of the rows given, those that are their
/// own and no others, in the order given.
pub fn get_cart_items(auth_user: &AuthUser, rows: &Vec<CartItem>) -> (own: Vec<CartItem>)
    ensures
        own@ == rows_of(rows@, auth_user.user_id),
{
    let mut own: Vec<CartItem> = Vec::new();
    let mut i: usize = 0;
    assert(rows@.take(0) =~= Seq::<CartItem>::empty());
    while i < rows.len()
        invariant
            i <= rows@.len(),
            own@ == rows_of(rows@.take(i as int), auth_user.user_id),
        decreases rows@.len() - i,
    {
        proof {
            let next = rows@.take(i + 1);
            assert(next.drop_last() =~= rows@.take(i as int));
            assert(next.last() == rows@[i as int]);
        }
        if rows[i].user_id == auth_user.user_id {
            own.push(rows[i]);
        }
        i = i + 1;
    }
    assert(rows@.take(i as int) =~= rows@);
    own
}

/// The rows that are left of all carts when one user's cart is emptied.
pub open spec fn rows_without(rows: Seq<CartItem>, user_id: u128) -> Seq<CartItem>
    decreases rows.len(),
{
    if rows.len() == 0 {
        Seq::empty()
    } else if rows.last().user_id == user_id {
        rows_without(rows.drop_last(), user_id)
    } else {
        rows_without(rows.drop_last(), user_id).push(rows.last())
    }
}

/// Emptying a user's cart leaves that user no row and every other user
/// the rows they had.
pub proof fn lemma_emptied_cart(rows: Seq<CartItem>, user_id: u128, other: u128)
    ensures
        rows_of(rows_without(rows, user_id), user_id) == Seq::<CartItem>::empty(),
        other != user_id ==> rows_of(rows_without(rows, user_id), other) == rows_of(rows, other),
    decreases rows.len(),
{
    if rows.len() > 0 {
        lemma_emptied_cart(rows.drop_last(), user_id, other);
        if rows.last().user_id != user_id {
            let kept = rows_without(rows.drop_last(), user_id).push(rows.last());
            assert(kept.drop_last() =~= rows_without(rows.drop_last(), user_id));
            assert(kept.last() == rows.last());
        }
    }
}

} // verus!
