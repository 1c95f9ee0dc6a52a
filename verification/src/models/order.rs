//! Orders, their items, and the shapes in which they travel.

use vstd::prelude::*;
use crate::decimal::Decimal;
use crate::text::same_text;

verus! {

/// How far an order has come.
#[derive(Clone, Copy, Debug, PartialEq, Eq, Structural)]
pub enum OrderStatus {
    Pending,
    Shipped,
    Delivered,
}

impl OrderStatus {
    /// The status that `text` names, if it names one.
    pub open spec fn named(text: Seq<char>) -> Option<OrderStatus> {
        if text == "pending"@ {
            Some(OrderStatus::Pending)
        } else if text == "shipped"@ {
            Some(OrderStatus::Shipped)
        } else if text == "delivered"@ {
            Some(OrderStatus::Delivered)
        } else {
            None
        }
    }

    /// The name under which the status is stored and sent.
    pub open spec fn name(self) -> Seq<char> {
        match self {
            OrderStatus::Pending => "pending"@,
            OrderStatus::Shipped => "shipped"@,
            OrderStatus::Delivered => "delivered"@,
        }
    }

    /// Reads a status from its name. Any other text names no status.
    pub fn parse(text: &str) -> (status: Option<OrderStatus>)
        ensures
            status == OrderStatus::named(text@),
    {
        if same_text(text, "pending") {
            Some(OrderStatus::Pending)
        } else if same_text(text, "shipped") {
            Some(OrderStatus::Shipped)
        } else if same_text(text, "delivered") {
            Some(OrderStatus::Delivered)
        } else {
            None
        }
    }

    /// The name under which the status is stored and sent.
    pub fn as_str(self) -> (name: &'static str)
        ensures
            name@ == self.name(),
    {
        match self {
            OrderStatus::Pending => "pending",
            OrderStatus::Shipped => "shipped",
            OrderStatus::Delivered => "delivered",
        }
    }

    /// A status is read back from its own name.
    pub proof fn lemma_name_round_trip(status: OrderStatus)
        ensures
            OrderStatus::named(status.name()) == Some(status),
    {
        reveal_strlit("pending");
        reveal_strlit("shipped");
        reveal_strlit("delivered");
        assert("pending"@[0] != "shipped"@[0]);
        assert("pending"@[0] != "delivered"@[0]);
        assert("shipped"@[0] != "delivered"@[0]);
    }
}

/// A customer's order.
#[derive(Clone, Copy, Debug, PartialEq, Eq, Structural)]
pub struct Order {
    pub id: u128,
    /// The customer who placed it.
    pub user_id: u128,
    /// The sum over its items of price times quantity, as it was when placed.
    pub total: Decimal,
    pub status: OrderStatus,
    /// When the store wrote the row, in microseconds since the epoch.
    pub created_at: Option<i64>,
}

/// One product in an order, with the price it had when the order was placed.
#[derive(Clone, Copy, Debug, PartialEq, Eq, Structural)]
pub struct OrderItem {
    pub id: u128,
    pub order_id: u128,
    pub product_id: u128,
    pub vendor_id: u128,
    pub quantity: i32,
    pub price: Decimal,
}

/// An order with its items, as it is shown to one who may see it.
#[derive(Clone, Debug, PartialEq, Eq)]
pub struct OrderDetails {
    pub id: u128,
    pub user_id: u128,
    pub total: Decimal,
    pub status: OrderStatus,
    pub created_at: Option<i64>,
    pub items: Vec<OrderItemDetails>,
}

/// An order item together with its product's name and its own subtotal.
#[derive(Clone, Debug, PartialEq, Eq)]
pub struct OrderItemDetails {
    pub id: u128,
    pub product_id: u128,
    pub product_name: String,
    pub vendor_id: u128,
    pub quantity: i32,
    pub price: Decimal,
    /// `price` times `quantity`.
    pub subtotal: Decimal,
}

/// What a customer sends to place an order: nothing, the cart says it all.
#[derive(Clone, Copy, Debug, PartialEq, Eq, Structural)]
pub struct CreateOrderRequest {
}

/// What a vendor sends to move an order on.
#[derive(Clone, Debug, PartialEq, Eq)]
pub struct UpdateOrderStatus {
    /// One of `pending`, `shipped`, `delivered`.
    pub status: String,
}

/// A cart row joined with the product it names, as read when an order is placed.
#[derive(Clone, Debug, PartialEq, Eq)]
pub struct CartItemWithProduct {
    pub product_id: u128,
    pub quantity: i32,
    pub user_id: u128,
    pub product_name: String,
    pub price: Decimal,
    pub vendor_id: u128,
    pub stock: i32,
}

/// What the customer is told about the order just placed.
#[derive(Clone, Debug, PartialEq, Eq)]
pub struct OrderCreationResponse {
    pub order_id: u128,
    pub total: Decimal,
    pub status: OrderStatus,
    pub message: String,
}

/// One line of an order listing.
#[derive(Clone, Copy, Debug, PartialEq, Eq, Structural)]
pub struct OrderSummary {
    pub id: u128,
    pub total: Decimal,
    pub status: OrderStatus,
    pub created_at: Option<i64>,
    /// How many items the order holds.
    pub item_count: Option<i64>,
}

} // verus!
