//! Orders: placing one from a cart, showing, cancelling and moving it on.

use vstd::prelude::*;
use vstd::arithmetic::power::{lemma_pow0, pow};
use crate::controllers::auth_guard::AuthUser;
use crate::controllers::cart::{lemma_emptied_cart, rows_of, rows_without};
use crate::decimal::{Decimal, ExactDecimal};
use crate::error::{ApiError, ErrorKind};
use crate::ident::new_id;
use crate::models::cart::CartItem;
use crate::models::order::{
    CartItemWithProduct, Order, OrderCreationResponse, OrderDetails, OrderItem, OrderItemDetails,
    OrderStatus, OrderSummary, UpdateOrderStatus,
};
use crate::models::user::Role;
use crate::stock::{
    lemma_net_change_cancels, lemma_net_change_of_single, lemma_net_change_of_untouched,
    lemma_stock_after_adds_net_change, net_change, stock_after, StockChange,
};
use crate::text::{integer_text, integer_to_text};

verus! {

/// The query string of an order listing.
#[derive(Clone, Copy, Debug, PartialEq, Eq, Structural)]
pub struct OrderQueryParams {
    /// `?vendor=true` asks for the vendor's view.
    pub vendor: Option<bool>,
}

/// An order item that is about to be stored; the store gives it its id.
#[derive(Clone, Copy, Debug, PartialEq, Eq, Structural)]
pub struct NewOrderItem {
    pub order_id: u128,
    pub product_id: u128,
    pub vendor_id: u128,
    pub quantity: i32,
    /// The product's price at this moment; the item keeps it for good.
    pub price: Decimal,
}

/// Everything that placing an order writes, to be stored as one unit, and
/// the answer to the customer.
#[derive(Clone, Debug, PartialEq, Eq)]
pub struct OrderPlacement {
    /// The order row.
    pub order: Order,
    /// One item for each cart row, in the cart's order.
    pub items: Vec<NewOrderItem>,
    /// What leaves the shelves: one change for each cart row.
    pub stock_changes: Vec<StockChange>,
    /// The user whose cart rows are all removed.
    pub emptied_cart_of: u128,
    pub response: OrderCreationResponse,
}

/// Whether the shelf holds as many pieces as the cart row asks for.
pub open spec fn in_stock(item: CartItemWithProduct) -> bool {
    item.stock >= item.quantity
}

/// Whether `at` is the first cart row that asks for more than the shelf holds.
pub open spec fn is_first_short(cart: Seq<CartItemWithProduct>, at: int) -> bool {
    &&& 0 <= at < cart.len()
    &&& !in_stock(cart[at])
    &&& forall|j: int| 0 <= j < at ==> in_stock(#[trigger] cart[j])
}

/// What one cart row costs: its price times its quantity.
pub open spec fn line_total(item: CartItemWithProduct) -> ExactDecimal {
    item.price@.times(item.quantity as int)
}

/// What a cart costs: the sum of its rows' costs, taken in the cart's order.
pub open spec fn order_total(cart: Seq<CartItemWithProduct>) -> ExactDecimal
    decreases cart.len(),
{
    if cart.len() == 0 {
        ExactDecimal::zero()
    } else {
        order_total(cart.drop_last()).plus(line_total(cart.last()))
    }
}

/// Whether a cart's cost can be summed up row by row without any row's cost
/// or any running sum leaving what a [`Decimal`] holds.
pub open spec fn total_computable(cart: Seq<CartItemWithProduct>) -> bool
    decreases cart.len(),
{
    cart.len() == 0 || {
        &&& total_computable(cart.drop_last())
        &&& line_total(cart.last()).representable()
        &&& Decimal::addable(order_total(cart.drop_last()), line_total(cart.last()))
    }
}

/// The order item that a cart row turns into.
pub open spec fn ordered_item(item: CartItemWithProduct, order_id: u128) -> NewOrderItem {
    NewOrderItem {
        order_id,
        product_id: item.product_id,
        vendor_id: item.vendor_id,
        quantity: item.quantity,
        price: item.price,
    }
}

/// The order items that a cart turns into.
pub open spec fn ordered_items(cart: Seq<CartItemWithProduct>, order_id: u128) -> Seq<NewOrderItem> {
    Seq::new(cart.len(), |i: int| ordered_item(cart[i], order_id))
}

/// What an order takes from the shelves: each cart row's quantity, from its product.
pub open spec fn stock_taken(cart: Seq<CartItemWithProduct>) -> Seq<StockChange> {
    Seq::new(
        cart.len(),
        |i: int| StockChange { product_id: cart[i].product_id, delta: (-cart[i].quantity) as i64 },
    )
}

/// What a customer is told when a cart row asks for more than there is.
pub open spec fn insufficient_stock_message(item: CartItemWithProduct) -> Seq<char> {
    "Insufficient stock for product "@ + item.product_name@ + ". Requested: "@ + integer_text(
        item.quantity as int,
    ) + ", Available: "@ + integer_text(item.stock as int)
}

fn insufficient_stock(item: &CartItemWithProduct) -> (e: ApiError)
    ensures
        e.says(ErrorKind::Conflict, insufficient_stock_message(*item)),
{
    let mut message = "Insufficient stock for product ".to_owned();
    message.append(item.product_name.as_str());
    message.append(". Requested: ");
    message.append(integer_to_text(item.quantity as i64).as_str());
    message.append(", Available: ");
    message.append(integer_to_text(item.stock as i64).as_str());
    ApiError::new(ErrorKind::Conflict, message)
}

/// A cart whose cost can be summed up has prefixes whose cost can be summed up.
proof fn lemma_prefix_total_computable(cart: Seq<CartItemWithProduct>, length: int)
    requires
        0 <= length <= cart.len(),
        total_computable(cart),
    ensures
        total_computable(cart.take(length)),
    decreases cart.len(),
{
    if length == cart.len() {
        assert(cart.take(length) =~= cart);
    } else {
        lemma_prefix_total_computable(cart.drop_last(), length);
        assert(cart.drop_last().take(length) =~= cart.take(length));
    }
}

/// The cost of a cart, or `None` when it cannot be summed up.
fn sum_cart(cart_items: &Vec<CartItemWithProduct>) -> (total: Option<Decimal>)
    ensures
        match total {
            Some(t) => total_computable(cart_items@) && t@ == order_total(cart_items@),
            None => !total_computable(cart_items@),
        },
{
    let mut total = Decimal::zero();
    let mut i: usize = 0;
    assert(cart_items@.take(0) =~= Seq::<CartItemWithProduct>::empty());
    while i < cart_items.len()
        invariant
            i <= cart_items@.len(),
            total_computable(cart_items@.take(i as int)),
            total@ == order_total(cart_items@.take(i as int)),
        decreases cart_items@.len() - i,
    {
        let item = &cart_items[i];
        proof {
            let next = cart_items@.take(i + 1);
            assert(next.drop_last() =~= cart_items@.take(i as int));
            assert(next.last() == cart_items@[i as int]);
            if total_computable(cart_items@) {
                lemma_prefix_total_computable(cart_items@, i + 1);
            }
        }
        let line = match item.price.checked_mul_int(item.quantity) {
            Some(line) => line,
            None => { return None; },
        };
        total = match total.checked_add(line) {
            Some(sum) => sum,
            None => { return None; },
        };
        i = i + 1;
    }
    assert(cart_items@.take(i as int) =~= cart_items@);
    Some(total)
}

/// What placing an order for `order_id` from `cart` comes to, told of a
/// result: the placement in full, or the one refusal that is due.
pub open spec fn is_placement_of(
    result: Result<OrderPlacement, ApiError>,
    auth_user: AuthUser,
    cart: Seq<CartItemWithProduct>,
    order_id: u128,
) -> bool {
    match result {
        Ok(placed) => {
            &&& auth_user.role == Role::Customer
            &&& cart.len() > 0
            &&& forall|i: int| 0 <= i < cart.len() ==> in_stock(#[trigger] cart[i])
            &&& total_computable(cart)
            &&& placed.order.id == order_id
            &&& placed.order.user_id == auth_user.user_id
            &&& placed.order.total@ == order_total(cart)
            &&& placed.order.status == OrderStatus::Pending
            &&& placed.order.created_at.is_none()
            &&& placed.items@ == ordered_items(cart, order_id)
            &&& placed.stock_changes@ == stock_taken(cart)
            &&& placed.emptied_cart_of == auth_user.user_id
            &&& placed.response.order_id == order_id
            &&& placed.response.total == placed.order.total
            &&& placed.response.status == OrderStatus::Pending
            &&& placed.response.message@ == "Order created successfully! Payment processed."@
        },
        Err(e) => {
            ||| {
                &&& auth_user.role != Role::Customer
                &&& e.says(ErrorKind::Forbidden, "Only customers can create orders"@)
            }
            ||| {
                &&& auth_user.role == Role::Customer
                &&& cart.len() == 0
                &&& e.says(
                    ErrorKind::BadRequest,
                    "Cart is empty. Add items to cart before creating an order"@,
                )
            }
            ||| {
                &&& auth_user.role == Role::Customer
                &&& exists|at: int|
                    #[trigger] is_first_short(cart, at) && e.says(
                        ErrorKind::Conflict,
                        insufficient_stock_message(cart[at]),
                    )
            }
            ||| {
                &&& auth_user.role == Role::Customer
                &&& cart.len() > 0
                &&& forall|i: int| 0 <= i < cart.len() ==> in_stock(#[trigger] cart[i])
                &&& !total_computable(cart)
                &&& e.says(ErrorKind::Internal, "Order total is out of range"@)
            }
        },
    }
}

/// The rows of a cart that are a user's own, in the order given.
pub open spec fn own_rows(cart: Seq<CartItemWithProduct>, user_id: u128) -> Seq<CartItemWithProduct>
    decreases cart.len(),
{
    if cart.len() == 0 {
        Seq::empty()
    } else if cart.last().user_id == user_id {
        own_rows(cart.drop_last(), user_id).push(cart.last())
    } else {
        own_rows(cart.drop_last(), user_id)
    }
}

fn rows_of_user(cart_items: &Vec<CartItemWithProduct>, user_id: u128) -> (own: Vec<CartItemWithProduct>)
    ensures
        own@ == own_rows(cart_items@, user_id),
{
    let mut own: Vec<CartItemWithProduct> = Vec::new();
    let mut i: usize = 0;
    assert(cart_items@.take(0) =~= Seq::<CartItemWithProduct>::empty());
    while i < cart_items.len()
        invariant
            i <= cart_items@.len(),
            own@ == own_rows(cart_items@.take(i as int), user_id),
        decreases cart_items@.len() - i,
    {
        let item = &cart_items[i];
        proof {
            let next = cart_items@.take(i + 1);
            assert(next.drop_last() =~= cart_items@.take(i as int));
            assert(next.last() == cart_items@[i as int]);
        }
        if item.user_id == user_id {
            own.push(
                CartItemWithProduct {
                    product_id: item.product_id,
                    quantity: item.quantity,
                    user_id: item.user_id,
                    product_name: item.product_name.clone(),
                    price: item.price,
                    vendor_id: item.vendor_id,
                    stock: item.stock,
                },
            );
        }
        i = i + 1;
    }
    assert(cart_items@.take(i as int) =~= cart_items@);
    own
}

/// Places an order for `order_id` from the rows of the caller's cart, each
/// joined with its product as it is now. Rows that are another user's are
/// no part of the caller's cart and play no part.
///
/// Only a customer may order, and only from a cart that is not empty. The
/// first row that asks for more pieces than its product has in stock refuses
/// the whole order and is named in the refusal. Otherwise the order is
/// pending, costs the exact sum of price times quantity, holds one item for
/// each row at the row's price, takes each row's quantity from the stock and
/// empties the cart. A refusal writes nothing.
pub fn place_order(
    auth_user: &AuthUser,
    cart_items: &Vec<CartItemWithProduct>,
    order_id: u128,
) -> (result: Result<OrderPlacement, ApiError>)
    ensures
        is_placement_of(result, *auth_user, own_rows(cart_items@, auth_user.user_id), order_id),
{
    let own = rows_of_user(cart_items, auth_user.user_id);
    place_rows(auth_user, &own, order_id)
}

/// Whether the caller may place orders at all, which only a customer may:
/// this is decided before any cart is read.
pub fn may_create_order(auth_user: &AuthUser) -> (result: Result<(), ApiError>)
    ensures
        match result {
            Ok(_) => auth_user.role == Role::Customer,
            Err(e) => auth_user.role != Role::Customer && e.says(
                ErrorKind::Forbidden,
                "Only customers can create orders"@,
            ),
        },
{
    match auth_user.role {
        Role::Customer => Ok(()),
        Role::Vendor => Err(
            ApiError::with_text(ErrorKind::Forbidden, "Only customers can create orders"),
        ),
    }
}

fn place_rows(
    auth_user: &AuthUser,
    cart_items: &Vec<CartItemWithProduct>,
    order_id: u128,
) -> (result: Result<OrderPlacement, ApiError>)
    ensures
        is_placement_of(result, *auth_user, cart_items@, order_id),
{
    match may_create_order(auth_user) {
        Ok(_) => {},
        Err(refusal) => {
            return Err(refusal);
        },
    }
    let count = cart_items.len();
    if count == 0 {
        return Err(
            ApiError::with_text(
                ErrorKind::BadRequest,
                "Cart is empty. Add items to cart before creating an order",
            ),
        );
    }
    let mut i: usize = 0;
    while i < count
        invariant
            i <= count,
            count == cart_items@.len(),
            auth_user.role == Role::Customer,
            forall|j: int| 0 <= j < i ==> in_stock(#[trigger] cart_items@[j]),
        decreases count - i,
    {
        let item = &cart_items[i];
        if item.stock < item.quantity {
            let refusal = insufficient_stock(item);
            assert(is_first_short(cart_items@, i as int) && refusal.says(
                ErrorKind::Conflict,
                insufficient_stock_message(cart_items@[i as int]),
            ));
            return Err(refusal);
        }
        i = i + 1;
    }
    let total = match sum_cart(cart_items) {
        Some(total) => total,
        None => {
            return Err(ApiError::with_text(ErrorKind::Internal, "Order total is out of range"));
        },
    };
    let mut items: Vec<NewOrderItem> = Vec::new();
    let mut stock_changes: Vec<StockChange> = Vec::new();
    let mut k: usize = 0;
    while k < count
        invariant
            k <= count,
            count == cart_items@.len(),
            items@ == ordered_items(cart_items@.take(k as int), order_id),
            stock_changes@ == stock_taken(cart_items@.take(k as int)),
        decreases count - k,
    {
        let item = &cart_items[k];
        items.push(
            NewOrderItem {
                order_id,
                product_id: item.product_id,
                vendor_id: item.vendor_id,
                quantity: item.quantity,
                price: item.price,
            },
        );
        stock_changes.push(StockChange { product_id: item.product_id, delta: -(item.quantity as i64) });
        k = k + 1;
        assert(items@ =~= ordered_items(cart_items@.take(k as int), order_id));
        assert(stock_changes@ =~= stock_taken(cart_items@.take(k as int)));
    }
    assert(cart_items@.take(k as int) =~= cart_items@);
    let order = Order {
        id: order_id,
        user_id: auth_user.user_id,
        total,
        status: OrderStatus::Pending,
        created_at: None,
    };
    let response = OrderCreationResponse {
        order_id,
        total,
        status: OrderStatus::Pending,
        message: "Order created successfully! Payment processed.".to_owned(),
    };
    Ok(OrderPlacement { order, items, stock_changes, emptied_cart_of: auth_user.user_id, response })
}

/// Places an order from the rows of the caller's cart under a fresh
/// identifier. See [`place_order`], which does the work for a given one.
pub fn create_order(auth_user: &AuthUser, cart_items: &Vec<CartItemWithProduct>) -> (result: Result<
    OrderPlacement,
    ApiError,
>)
    ensures
        exists|order_id: u128|
            is_placement_of(result, *auth_user, own_rows(cart_items@, auth_user.user_id), order_id),
{
    let order_id = new_id();
    let result = place_order(auth_user, cart_items, order_id);
    assert(is_placement_of(result, *auth_user, own_rows(cart_items@, auth_user.user_id), order_id));
    result
}

/// What the items of an order cost together: the sum of price times
/// quantity, taken in the items' order.
pub open spec fn items_total(items: Seq<NewOrderItem>) -> ExactDecimal
    decreases items.len(),
{
    if items.len() == 0 {
        ExactDecimal::zero()
    } else {
        items_total(items.drop_last()).plus(items.last().price@.times(items.last().quantity as int))
    }
}

/// The total of an order is the sum over its own items of price times
/// quantity, each at the price that the item keeps.
pub proof fn lemma_total_is_sum_over_items(cart: Seq<CartItemWithProduct>, order_id: u128)
    ensures
        items_total(ordered_items(cart, order_id)) == order_total(cart),
    decreases cart.len(),
{
    if cart.len() > 0 {
        lemma_total_is_sum_over_items(cart.drop_last(), order_id);
        assert(ordered_items(cart, order_id).drop_last() =~= ordered_items(cart.drop_last(), order_id));
    }
}

/// Whether a cart is of a size that leaves no doubt about its total: at
/// most 2^30 rows, all prices written with the same number of fractional
/// digits, and no price of more than 2^64 units either way.
pub open spec fn is_modest(cart: Seq<CartItemWithProduct>) -> bool {
    &&& cart.len() <= 0x4000_0000
    &&& forall|i: int| 0 <= i < cart.len() ==> (#[trigger] cart[i]).price.scale == cart[0].price.scale
    &&& forall|i: int|
        0 <= i < cart.len() ==> -0x1_0000_0000_0000_0000 <= (#[trigger] cart[i]).price.units
            <= 0x1_0000_0000_0000_0000
}

/// The total of a modest cart can be summed up, so that nothing but the
/// caller's role, an empty cart or a short row stands in the way of its
/// order.
pub proof fn lemma_modest_carts_have_totals(cart: Seq<CartItemWithProduct>)
    requires
        is_modest(cart),
    ensures
        total_computable(cart),
        cart.len() > 0 ==> order_total(cart).scale == cart[0].price.scale,
        -cart.len() * 0x8000_0000_0000_0000_0000_0000 <= order_total(cart).units <= cart.len()
            * 0x8000_0000_0000_0000_0000_0000,
    decreases cart.len(),
{
    if cart.len() > 0 {
        let rest = cart.drop_last();
        let row = cart.last();
        assert forall|i: int| 0 <= i < rest.len() implies (#[trigger] rest[i]).price.scale
            == rest[0].price.scale by {
            assert(rest[i] == cart[i]);
            assert(rest[0] == cart[0]);
        }
        assert forall|i: int| 0 <= i < rest.len() implies -0x1_0000_0000_0000_0000 <= (
        #[trigger] rest[i]).price.units <= 0x1_0000_0000_0000_0000 by {
            assert(rest[i] == cart[i]);
        }
        lemma_modest_carts_have_totals(rest);
        assert(row == cart[cart.len() - 1]);
        let units = row.price.units as int;
        let quantity = row.quantity as int;
        assert(-0x8000_0000_0000_0000_0000_0000 <= units * quantity
            <= 0x8000_0000_0000_0000_0000_0000) by (nonlinear_arith)
            requires
                -0x1_0000_0000_0000_0000 <= units <= 0x1_0000_0000_0000_0000,
                -0x8000_0000 <= quantity <= 0x8000_0000,
        ;
        let before = order_total(rest);
        let line = line_total(row);
        let scale = row.price.scale as nat;
        lemma_pow0(10);
        assert(line.units_at(scale) == line.units) by (nonlinear_arith)
            requires
                line.units_at(scale) == line.units * 1,
        ;
        if rest.len() == 0 {
            assert(before.units_at(scale) == 0) by (nonlinear_arith)
                requires
                    before.units == 0,
                    before.units_at(scale) == before.units * pow(10, (scale - before.scale) as nat),
            ;
        } else {
            assert(rest[0] == cart[0]);
            assert(before.units_at(scale) == before.units) by (nonlinear_arith)
                requires
                    before.units_at(scale) == before.units * 1,
            ;
        }
    }
}

/// A customer's order from a cart that is not empty, all of whose rows are
/// in stock, goes through: it costs the sum of price times quantity, takes
/// each row's quantity from its product and empties the cart. (A cost that
/// no [`Decimal`] holds is the one thing that can still stand in the way.)
pub proof fn lemma_stocked_cart_is_ordered(
    result: Result<OrderPlacement, ApiError>,
    auth_user: AuthUser,
    cart: Seq<CartItemWithProduct>,
    order_id: u128,
)
    requires
        is_placement_of(result, auth_user, cart, order_id),
        auth_user.role == Role::Customer,
        cart.len() > 0,
        forall|i: int| 0 <= i < cart.len() ==> in_stock(#[trigger] cart[i]),
        total_computable(cart),
    ensures
        result matches Ok(placed) && placed.order.total@ == order_total(cart)
            && placed.order.status == OrderStatus::Pending && placed.stock_changes@ == stock_taken(
            cart,
        ) && placed.emptied_cart_of == auth_user.user_id,
{
}

/// An order that goes through leaves its customer with an empty cart and
/// every other user with the cart they had.
pub proof fn lemma_order_empties_the_cart(
    result: Result<OrderPlacement, ApiError>,
    auth_user: AuthUser,
    cart: Seq<CartItemWithProduct>,
    order_id: u128,
    rows: Seq<CartItem>,
    other: u128,
)
    requires
        is_placement_of(result, auth_user, cart, order_id),
        result is Ok,
    ensures
        rows_of(rows_without(rows, result->Ok_0.emptied_cart_of), auth_user.user_id) == Seq::<
            CartItem,
        >::empty(),
        other != auth_user.user_id ==> rows_of(
            rows_without(rows, result->Ok_0.emptied_cart_of),
            other,
        ) == rows_of(rows, other),
{
    lemma_emptied_cart(rows, auth_user.user_id, other);
}

/// A customer's order from a cart with a row that asks for more than
/// there is in stock is a conflict, and it comes with nothing to write.
pub proof fn lemma_short_row_refuses_order(
    result: Result<OrderPlacement, ApiError>,
    auth_user: AuthUser,
    cart: Seq<CartItemWithProduct>,
    order_id: u128,
    short: int,
)
    requires
        is_placement_of(result, auth_user, cart, order_id),
        auth_user.role == Role::Customer,
        0 <= short < cart.len(),
        !in_stock(cart[short]),
    ensures
        result matches Err(e) && e.kind == ErrorKind::Conflict,
{
}

/// A customer's order from an empty cart is a bad request, and it comes
/// with nothing to write.
pub proof fn lemma_empty_cart_refuses_order(
    result: Result<OrderPlacement, ApiError>,
    auth_user: AuthUser,
    cart: Seq<CartItemWithProduct>,
    order_id: u128,
)
    requires
        is_placement_of(result, auth_user, cart, order_id),
        auth_user.role == Role::Customer,
        cart.len() == 0,
    ensures
        result matches Err(e) && e.kind == ErrorKind::BadRequest,
{
}

/// What cancelling an order returns to the shelves: each item's quantity, to its product.
pub open spec fn stock_returned(items: Seq<OrderItem>) -> Seq<StockChange> {
    Seq::new(
        items.len(),
        |i: int| StockChange { product_id: items[i].product_id, delta: items[i].quantity as i64 },
    )
}

/// Whether no two rows of the cart name the same product.
pub open spec fn one_row_per_product(cart: Seq<CartItemWithProduct>) -> bool {
    forall|i: int, j: int|
        0 <= i < j < cart.len() ==> (#[trigger] cart[i]).product_id != (#[trigger] cart[j]).product_id
}

/// Whether each cart row shows the stock that `levels` holds for its product.
pub open spec fn shows_stock_of(cart: Seq<CartItemWithProduct>, levels: Map<u128, int>) -> bool {
    forall|i: int|
        0 <= i < cart.len() ==> levels.dom().contains((#[trigger] cart[i]).product_id)
            && levels[cart[i].product_id] == cart[i].stock
}

/// An order takes from each product in the cart exactly the quantity asked
/// for, leaves every other product as it was, and, when every row was in
/// stock, leaves no product with less than nothing.
pub proof fn lemma_order_takes_exactly_what_was_asked(
    levels: Map<u128, int>,
    cart: Seq<CartItemWithProduct>,
)
    requires
        one_row_per_product(cart),
        shows_stock_of(cart, levels),
    ensures
        stock_after(levels, stock_taken(cart)).dom() =~= levels.dom(),
        forall|i: int|
            0 <= i < cart.len() ==> stock_after(levels, stock_taken(cart))[(
            #[trigger] cart[i]).product_id] == cart[i].stock - cart[i].quantity,
        forall|p: u128|
            levels.dom().contains(p) && (forall|i: int|
                0 <= i < cart.len() ==> (#[trigger] cart[i]).product_id != p)
                ==> #[trigger] stock_after(levels, stock_taken(cart))[p] == levels[p],
        (forall|i: int| 0 <= i < cart.len() ==> in_stock(#[trigger] cart[i])) ==> forall|i: int|
            0 <= i < cart.len() ==> stock_after(levels, stock_taken(cart))[(
            #[trigger] cart[i]).product_id] >= 0,
{
    let taken = stock_taken(cart);
    lemma_stock_after_adds_net_change(levels, taken);
    assert forall|i: int| 0 <= i < cart.len() implies stock_after(levels, taken)[(
    #[trigger] cart[i]).product_id] == cart[i].stock - cart[i].quantity by {
        assert forall|k: int| 0 <= k < taken.len() && k != i implies (#[trigger] taken[k]).product_id
            != taken[i].product_id by {
            if k < i {
                assert(cart[k].product_id != cart[i].product_id);
            } else {
                assert(cart[i].product_id != cart[k].product_id);
            }
        }
        lemma_net_change_of_single(taken, i);
    }
    assert forall|p: u128|
        levels.dom().contains(p) && (forall|i: int|
            0 <= i < cart.len() ==> (#[trigger] cart[i]).product_id != p) implies #[trigger] stock_after(
        levels,
        taken,
    )[p] == levels[p] by {
        assert forall|k: int| 0 <= k < taken.len() implies (#[trigger] taken[k]).product_id != p by {
            assert(cart[k].product_id != p);
        }
        lemma_net_change_of_untouched(taken, p);
    }
}

/// The items that belong to an order, in the order given.
pub open spec fn items_of(items: Seq<OrderItem>, order_id: u128) -> Seq<OrderItem>
    decreases items.len(),
{
    if items.len() == 0 {
        Seq::empty()
    } else if items.last().order_id == order_id {
        items_of(items.drop_last(), order_id).push(items.last())
    } else {
        items_of(items.drop_last(), order_id)
    }
}

/// Items that all belong to one order are that order's items.
pub proof fn lemma_items_of_own_order(items: Seq<OrderItem>, order_id: u128)
    requires
        forall|i: int| 0 <= i < items.len() ==> (#[trigger] items[i]).order_id == order_id,
    ensures
        items_of(items, order_id) == items,
    decreases items.len(),
{
    if items.len() > 0 {
        lemma_items_of_own_order(items.drop_last(), order_id);
        assert(items.drop_last().push(items.last()) =~= items);
    }
}

/// Whether stored items are what a cart turned into when it was ordered
/// under `order_id`: one item for each row, of the row's product and
/// quantity, in the cart's order.
pub open spec fn stored_from(items: Seq<OrderItem>, cart: Seq<CartItemWithProduct>, order_id: u128) -> bool {
    &&& items.len() == cart.len()
    &&& forall|i: int|
        0 <= i < cart.len() ==> (#[trigger] items[i]).order_id == order_id && items[i].product_id
            == cart[i].product_id && items[i].quantity == cart[i].quantity
}

/// Cancelling an order returns to the shelves exactly what placing it took:
/// the stock of every product is what it was before the order.
pub proof fn lemma_cancelling_restores_stock(
    levels: Map<u128, int>,
    cart: Seq<CartItemWithProduct>,
    items: Seq<OrderItem>,
    order_id: u128,
)
    requires
        stored_from(items, cart, order_id),
    ensures
        stock_after(
            stock_after(levels, stock_taken(cart)),
            stock_returned(items_of(items, order_id)),
        ) == levels,
{
    lemma_items_of_own_order(items, order_id);
    let taken = stock_taken(cart);
    let returned = stock_returned(items);
    let placed = stock_after(levels, taken);
    let cancelled = stock_after(placed, returned);
    lemma_stock_after_adds_net_change(levels, taken);
    lemma_stock_after_adds_net_change(placed, returned);
    assert forall|p: u128| levels.dom().contains(p) implies #[trigger] cancelled[p] == levels[p] by {
        assert forall|i: int| 0 <= i < taken.len() implies (#[trigger] taken[i]).product_id
            == returned[i].product_id && taken[i].delta + returned[i].delta == 0 by {
            assert(items[i].product_id == cart[i].product_id);
        }
        lemma_net_change_cancels(taken, returned, p);
        assert(placed[p] == levels[p] + net_change(taken, p));
        assert(cancelled[p] == placed[p] + net_change(returned, p));
    }
    assert(cancelled =~= levels);
}

/// What cancelling an order writes, to be stored as one unit: the stock
/// goes back first, then the order goes, and its items with it.
#[derive(Clone, Debug, PartialEq, Eq)]
pub struct OrderRemoval {
    /// The order to remove.
    pub order_id: u128,
    /// What returns to the shelves: one change for each item of the order.
    pub stock_changes: Vec<StockChange>,
}

/// What a customer is told when the order is too far along to be cancelled.
pub open spec fn not_pending_message(status: OrderStatus) -> Seq<char> {
    "Cannot delete order with status '"@ + status.name()
        + "'. Only pending orders can be deleted"@
}

/// What cancelling an order comes to, told of a result: what is to be
/// written, or the one refusal that is due.
pub open spec fn is_removal_of(
    result: Result<OrderRemoval, ApiError>,
    auth_user: AuthUser,
    order: Option<Order>,
    items: Seq<OrderItem>,
) -> bool {
    match result {
        Ok(removal) => {
            &&& auth_user.role == Role::Customer
            &&& order matches Some(o)
            &&& o.user_id == auth_user.user_id
            &&& o.status == OrderStatus::Pending
            &&& removal.order_id == o.id
            &&& removal.stock_changes@ == stock_returned(items_of(items, o.id))
        },
        Err(e) => {
            ||| {
                &&& auth_user.role != Role::Customer
                &&& e.says(ErrorKind::Forbidden, "Only customers can delete orders"@)
            }
            ||| {
                &&& auth_user.role == Role::Customer
                &&& order is None
                &&& e.says(ErrorKind::NotFound, "Order not found"@)
            }
            ||| {
                &&& auth_user.role == Role::Customer
                &&& order matches Some(o)
                &&& o.user_id != auth_user.user_id
                &&& e.says(ErrorKind::Forbidden, "You don't have permission to delete this order"@)
            }
            ||| {
                &&& auth_user.role == Role::Customer
                &&& order matches Some(o)
                &&& o.user_id == auth_user.user_id
                &&& o.status != OrderStatus::Pending
                &&& e.says(ErrorKind::Conflict, not_pending_message(o.status))
            }
        },
    }
}

/// Cancels an order, given the stored order of that id, if there is one,
/// and stored order items, of which those of this order count.
///
/// Only a customer may cancel, only an order of their own, and only while it
/// is pending. Then the quantity of every item of the order returns to its
/// product's stock and the order is removed. A refusal writes nothing.
pub fn delete_order_by_id(auth_user: &AuthUser, order: Option<Order>, items: &Vec<OrderItem>) -> (result:
    Result<OrderRemoval, ApiError>)
    ensures
        is_removal_of(result, *auth_user, order, items@),
{
    match auth_user.role {
        Role::Customer => {},
        Role::Vendor => {
            return Err(ApiError::with_text(ErrorKind::Forbidden, "Only customers can delete orders"));
        },
    }
    let order = match order {
        Some(order) => order,
        None => {
            return Err(ApiError::with_text(ErrorKind::NotFound, "Order not found"));
        },
    };
    if order.user_id != auth_user.user_id {
        return Err(
            ApiError::with_text(ErrorKind::Forbidden, "You don't have permission to delete this order"),
        );
    }
    match order.status {
        OrderStatus::Pending => {},
        _ => {
            let mut message = "Cannot delete order with status '".to_owned();
            message.append(order.status.as_str());
            message.append("'. Only pending orders can be deleted");
            return Err(ApiError::new(ErrorKind::Conflict, message));
        },
    }
    let count = items.len();
    let mut stock_changes: Vec<StockChange> = Vec::new();
    let mut k: usize = 0;
    assert(items@.take(0) =~= Seq::<OrderItem>::empty());
    while k < count
        invariant
            k <= count,
            count == items@.len(),
            stock_changes@ == stock_returned(items_of(items@.take(k as int), order.id)),
        decreases count - k,
    {
        let item = &items[k];
        proof {
            let next = items@.take(k + 1);
            assert(next.drop_last() =~= items@.take(k as int));
            assert(next.last() == items@[k as int]);
        }
        if item.order_id == order.id {
            stock_changes.push(StockChange { product_id: item.product_id, delta: item.quantity as i64 });
        }
        k = k + 1;
        assert(stock_changes@ =~= stock_returned(items_of(items@.take(k as int), order.id)));
    }
    assert(items@.take(k as int) =~= items@);
    Ok(OrderRemoval { order_id: order.id, stock_changes })
}

/// A customer who places an order and then cancels it, with nothing
/// happening to it in between, is not refused: the order removed is the
/// one just placed, and the stock of every product is what it was before.
pub proof fn lemma_placed_order_is_cancelled(
    placed: Result<OrderPlacement, ApiError>,
    auth_user: AuthUser,
    cart: Seq<CartItemWithProduct>,
    order_id: u128,
    stored: Order,
    items: Seq<OrderItem>,
    removed: Result<OrderRemoval, ApiError>,
    levels: Map<u128, int>,
)
    requires
        is_placement_of(placed, auth_user, cart, order_id),
        placed is Ok,
        stored == (Order { created_at: stored.created_at, ..placed->Ok_0.order }),
        stored_from(items, cart, order_id),
        is_removal_of(removed, auth_user, Some(stored), items),
    ensures
        removed is Ok,
        removed->Ok_0.order_id == order_id,
        stock_after(
            stock_after(levels, placed->Ok_0.stock_changes@),
            removed->Ok_0.stock_changes@,
        ) == levels,
{
    lemma_cancelling_restores_stock(levels, cart, items, order_id);
}

/// Whether the caller may see the order: a customer their own, a vendor one
/// that holds at least one item of theirs. `vendor_item_count` is the number
/// of the order's items that belong to the caller as a vendor.
pub open spec fn may_view(auth_user: AuthUser, order: Order, vendor_item_count: i64) -> bool {
    match auth_user.role {
        Role::Customer => order.user_id == auth_user.user_id,
        Role::Vendor => vendor_item_count >= 1,
    }
}

/// A customer is refused every order but their own; a vendor is refused an
/// order that holds no item of theirs and is let see one that holds any.
pub proof fn lemma_strangers_are_refused(auth_user: AuthUser, order: Order, vendor_item_count: i64)
    ensures
        auth_user.role == Role::Customer && order.user_id != auth_user.user_id ==> !may_view(
            auth_user,
            order,
            vendor_item_count,
        ),
        auth_user.role == Role::Vendor && vendor_item_count <= 0 ==> !may_view(
            auth_user,
            order,
            vendor_item_count,
        ),
        auth_user.role == Role::Vendor && vendor_item_count >= 1 ==> may_view(
            auth_user,
            order,
            vendor_item_count,
        ),
{
}

/// Whether the caller may see the order. See [`may_view`].
pub fn can_view(auth_user: &AuthUser, order: &Order, vendor_item_count: i64) -> (allowed: bool)
    ensures
        allowed == may_view(*auth_user, *order, vendor_item_count),
{
    match auth_user.role {
        Role::Customer => order.user_id == auth_user.user_id,
        Role::Vendor => vendor_item_count >= 1,
    }
}

/// An order item joined with the name of its product, as read for display.
#[derive(Clone, Debug, PartialEq, Eq)]
pub struct OrderItemRow {
    pub id: u128,
    pub product_id: u128,
    pub product_name: String,
    pub vendor_id: u128,
    pub quantity: i32,
    pub price: Decimal,
}

/// Whether `detail` shows `row`: the same fields, and the subtotal of price
/// times quantity.
pub open spec fn shows_row(detail: OrderItemDetails, row: OrderItemRow) -> bool {
    &&& detail.id == row.id
    &&& detail.product_id == row.product_id
    &&& detail.product_name@ == row.product_name@
    &&& detail.vendor_id == row.vendor_id
    &&& detail.quantity == row.quantity
    &&& detail.price == row.price
    &&& detail.subtotal@ == row.price@.times(row.quantity as int)
}

/// Whether the subtotal of every row can be held.
pub open spec fn subtotals_representable(rows: Seq<OrderItemRow>) -> bool {
    forall|i: int|
        0 <= i < rows.len() ==> (#[trigger] rows[i]).price@.times(rows[i].quantity as int).representable()
}

/// The order that was looked up, or that there is none: this is decided
/// before anything else about the order is read.
pub fn found_order(order: Option<Order>) -> (result: Result<Order, ApiError>)
    ensures
        match result {
            Ok(found) => order == Some(found),
            Err(e) => order is None && e.says(ErrorKind::NotFound, "Order not found"@),
        },
{
    match order {
        Some(found) => Ok(found),
        None => Err(ApiError::with_text(ErrorKind::NotFound, "Order not found")),
    }
}

/// Whether the caller may see the order (see [`may_view`]): this is
/// decided before the order's items are read.
pub fn may_view_order(auth_user: &AuthUser, order: &Order, vendor_item_count: i64) -> (result: Result<
    (),
    ApiError,
>)
    ensures
        match result {
            Ok(_) => may_view(*auth_user, *order, vendor_item_count),
            Err(e) => !may_view(*auth_user, *order, vendor_item_count) && e.says(
                ErrorKind::Forbidden,
                "You don't have permission to view this order"@,
            ),
        },
{
    if can_view(auth_user, order, vendor_item_count) {
        Ok(())
    } else {
        Err(ApiError::with_text(ErrorKind::Forbidden, "You don't have permission to view this order"))
    }
}

/// What showing an order comes to, told of a result: the order with its
/// items, or the one refusal that is due.
pub open spec fn is_showing_of(
    result: Result<OrderDetails, ApiError>,
    auth_user: AuthUser,
    order: Option<Order>,
    vendor_item_count: i64,
    rows: Seq<OrderItemRow>,
) -> bool {
    match result {
        Ok(details) => {
            &&& order matches Some(o)
            &&& may_view(auth_user, o, vendor_item_count)
            &&& subtotals_representable(rows)
            &&& details.id == o.id
            &&& details.user_id == o.user_id
            &&& details.total == o.total
            &&& details.status == o.status
            &&& details.created_at == o.created_at
            &&& details.items@.len() == rows.len()
            &&& forall|i: int| 0 <= i < rows.len() ==> shows_row(#[trigger] details.items@[i], rows[i])
        },
        Err(e) => {
            ||| {
                &&& order is None
                &&& e.says(ErrorKind::NotFound, "Order not found"@)
            }
            ||| {
                &&& order matches Some(o)
                &&& !may_view(auth_user, o, vendor_item_count)
                &&& e.says(ErrorKind::Forbidden, "You don't have permission to view this order"@)
            }
            ||| {
                &&& order matches Some(o)
                &&& may_view(auth_user, o, vendor_item_count)
                &&& !subtotals_representable(rows)
                &&& e.says(ErrorKind::Internal, "Order subtotal is out of range"@)
            }
        },
    }
}

/// Shows an order with its items, given the stored order of that id, if
/// there is one, the number of its items that are the caller's as a vendor,
/// and its items joined with their products' names.
///
/// An order that is not there is not found; one that the caller may not see
/// (see [`may_view`]) is forbidden. Each item is shown with its subtotal.
pub fn get_order_by_id(
    auth_user: &AuthUser,
    order: Option<Order>,
    vendor_item_count: i64,
    order_items: &Vec<OrderItemRow>,
) -> (result: Result<OrderDetails, ApiError>)
    ensures
        is_showing_of(result, *auth_user, order, vendor_item_count, order_items@),
{
    let found = match found_order(order) {
        Ok(found) => found,
        Err(refusal) => {
            return Err(refusal);
        },
    };
    match may_view_order(auth_user, &found, vendor_item_count) {
        Ok(_) => {},
        Err(refusal) => {
            return Err(refusal);
        },
    }
    let count = order_items.len();
    let mut items: Vec<OrderItemDetails> = Vec::new();
    let mut k: usize = 0;
    while k < count
        invariant
            k <= count,
            count == order_items@.len(),
            order == Some(found),
            may_view(*auth_user, found, vendor_item_count),
            items@.len() == k,
            forall|i: int| 0 <= i < k ==> shows_row(#[trigger] items@[i], order_items@[i]),
            forall|i: int|
                0 <= i < k ==> (#[trigger] order_items@[i]).price@.times(
                    order_items@[i].quantity as int,
                ).representable(),
        decreases count - k,
    {
        let row = &order_items[k];
        let subtotal = match row.price.checked_mul_int(row.quantity) {
            Some(subtotal) => subtotal,
            None => {
                assert(!order_items@[k as int].price@.times(
                    order_items@[k as int].quantity as int,
                ).representable());
                return Err(ApiError::with_text(ErrorKind::Internal, "Order subtotal is out of range"));
            },
        };
        items.push(
            OrderItemDetails {
                id: row.id,
                product_id: row.product_id,
                product_name: row.product_name.clone(),
                vendor_id: row.vendor_id,
                quantity: row.quantity,
                price: row.price,
                subtotal,
            },
        );
        k = k + 1;
    }
    Ok(
        OrderDetails {
            id: found.id,
            user_id: found.user_id,
            total: found.total,
            status: found.status,
            created_at: found.created_at,
            items,
        },
    )
}

/// Items whose prices are of no more than 2^64 units either way have
/// subtotals that can be held, so that nothing but a missing order or a
/// missing permission stands in the way of showing them.
pub proof fn lemma_modest_rows_have_subtotals(rows: Seq<OrderItemRow>)
    requires
        forall|i: int|
            0 <= i < rows.len() ==> -0x1_0000_0000_0000_0000 <= (#[trigger] rows[i]).price.units
                <= 0x1_0000_0000_0000_0000,
    ensures
        subtotals_representable(rows),
{
    assert forall|i: int| 0 <= i < rows.len() implies (#[trigger] rows[i]).price@.times(
        rows[i].quantity as int,
    ).representable() by {
        let units = rows[i].price.units as int;
        let quantity = rows[i].quantity as int;
        assert(-0x8000_0000_0000_0000_0000_0000 <= units * quantity
            <= 0x8000_0000_0000_0000_0000_0000) by (nonlinear_arith)
            requires
                -0x1_0000_0000_0000_0000 <= units <= 0x1_0000_0000_0000_0000,
                -0x8000_0000 <= quantity <= 0x8000_0000,
        ;
    }
}

/// A vendor is shown an order that holds at least one item of theirs, and
/// a customer their own: it comes with its id, owner, total and status. (A
/// subtotal that no [`Decimal`] holds is the one thing that can still stand
/// in the way.)
pub proof fn lemma_who_may_view_is_shown(
    result: Result<OrderDetails, ApiError>,
    auth_user: AuthUser,
    order: Order,
    vendor_item_count: i64,
    rows: Seq<OrderItemRow>,
)
    requires
        is_showing_of(result, auth_user, Some(order), vendor_item_count, rows),
        (auth_user.role == Role::Vendor && vendor_item_count >= 1) || (auth_user.role
            == Role::Customer && order.user_id == auth_user.user_id),
        subtotals_representable(rows),
    ensures
        result matches Ok(details) && details.id == order.id && details.user_id == order.user_id
            && details.total == order.total && details.status == order.status,
{
}

/// A customer who asks for another customer's order, and a vendor who asks
/// for an order that holds no item of theirs, are refused as forbidden.
pub proof fn lemma_who_may_not_view_is_refused(
    result: Result<OrderDetails, ApiError>,
    auth_user: AuthUser,
    order: Order,
    vendor_item_count: i64,
    rows: Seq<OrderItemRow>,
)
    requires
        is_showing_of(result, auth_user, Some(order), vendor_item_count, rows),
        (auth_user.role == Role::Vendor && vendor_item_count <= 0) || (auth_user.role
            == Role::Customer && order.user_id != auth_user.user_id),
    ensures
        result matches Err(e) && e.kind == ErrorKind::Forbidden,
{
}

/// What a vendor is told when the new status is none of the three.
pub open spec fn invalid_status_message(status: Seq<char>) -> Seq<char> {
    "Invalid status '"@ + status + "'. Valid statuses are: pending, shipped, delivered"@
}

/// The status that a vendor asks to move an order to: only a vendor may
/// ask, and only for one of the three. This is decided before anything is
/// read.
pub fn requested_status(auth_user: &AuthUser, payload: &UpdateOrderStatus) -> (result: Result<
    OrderStatus,
    ApiError,
>)
    ensures
        match result {
            Ok(status) => auth_user.role == Role::Vendor && OrderStatus::named(payload.status@)
                == Some(status),
            Err(e) => {
                ||| auth_user.role != Role::Vendor && e.says(
                    ErrorKind::Forbidden,
                    "Only vendors can update order status"@,
                )
                ||| auth_user.role == Role::Vendor && OrderStatus::named(payload.status@) is None
                    && e.says(ErrorKind::BadRequest, invalid_status_message(payload.status@))
            },
        },
{
    match auth_user.role {
        Role::Vendor => {},
        Role::Customer => {
            return Err(ApiError::with_text(ErrorKind::Forbidden, "Only vendors can update order status"));
        },
    }
    match OrderStatus::parse(payload.status.as_str()) {
        Some(status) => Ok(status),
        None => {
            let mut message = "Invalid status '".to_owned();
            message.append(payload.status.as_str());
            message.append("'. Valid statuses are: pending, shipped, delivered");
            Err(ApiError::new(ErrorKind::BadRequest, message))
        },
    }
}

/// Whether a vendor may move an order on, which takes at least one item of
/// theirs in it: this is decided before the order itself is read.
pub fn may_update_order(vendor_item_count: i64) -> (result: Result<(), ApiError>)
    ensures
        match result {
            Ok(_) => vendor_item_count >= 1,
            Err(e) => vendor_item_count < 1 && e.says(
                ErrorKind::Forbidden,
                "You don't have permission to update this order. No products from your store in this order"@,
            ),
        },
{
    if vendor_item_count < 1 {
        Err(
            ApiError::with_text(
                ErrorKind::Forbidden,
                "You don't have permission to update this order. No products from your store in this order",
            ),
        )
    } else {
        Ok(())
    }
}

/// Moves an order to a new status, given the number of its items that are
/// the caller's as a vendor and the stored order of that id, if there is one.
///
/// Only a vendor may do so, the new status must be one of `pending`,
/// `shipped` and `delivered`, and the order must hold at least one item of
/// the vendor. Any status may follow any other. The order comes back with
/// the new status and is otherwise unchanged; nothing else is written.
pub fn update_order_by_id(
    auth_user: &AuthUser,
    payload: &UpdateOrderStatus,
    vendor_item_count: i64,
    order: Option<Order>,
) -> (result: Result<Order, ApiError>)
    ensures
        match result {
            Ok(updated) => {
                &&& auth_user.role == Role::Vendor
                &&& OrderStatus::named(payload.status@) matches Some(status)
                &&& vendor_item_count >= 1
                &&& order matches Some(o)
                &&& updated == Order { status, ..o }
            },
            Err(e) => {
                ||| {
                    &&& auth_user.role != Role::Vendor
                    &&& e.says(ErrorKind::Forbidden, "Only vendors can update order status"@)
                }
                ||| {
                    &&& auth_user.role == Role::Vendor
                    &&& OrderStatus::named(payload.status@) is None
                    &&& e.says(ErrorKind::BadRequest, invalid_status_message(payload.status@))
                }
                ||| {
                    &&& auth_user.role == Role::Vendor
                    &&& OrderStatus::named(payload.status@) is Some
                    &&& vendor_item_count < 1
                    &&& e.says(
                        ErrorKind::Forbidden,
                        "You don't have permission to update this order. No products from your store in this order"@,
                    )
                }
                ||| {
                    &&& auth_user.role == Role::Vendor
                    &&& OrderStatus::named(payload.status@) is Some
                    &&& vendor_item_count >= 1
                    &&& order is None
                    &&& e.says(ErrorKind::NotFound, "Order not found"@)
                }
            },
        },
{
    let status = match requested_status(auth_user, payload) {
        Ok(status) => status,
        Err(refusal) => {
            return Err(refusal);
        },
    };
    match may_update_order(vendor_item_count) {
        Ok(_) => {},
        Err(refusal) => {
            return Err(refusal);
        },
    }
    match order {
        Some(order) => Ok(
            Order {
                id: order.id,
                user_id: order.user_id,
                total: order.total,
                status,
                created_at: order.created_at,
            },
        ),
        None => Err(ApiError::with_text(ErrorKind::NotFound, "Order not found")),
    }
}

/// Whether an order holds at least one item of a vendor.
pub open spec fn holds_item_of(items: Seq<OrderItem>, order_id: u128, vendor_id: u128) -> bool {
    exists|i: int|
        0 <= i < items.len() && (#[trigger] items[i]).order_id == order_id && items[i].vendor_id
            == vendor_id
}

/// How many of the items belong to an order.
pub open spec fn item_count(items: Seq<OrderItem>, order_id: u128) -> nat
    decreases items.len(),
{
    if items.len() == 0 {
        0
    } else if items.last().order_id == order_id {
        item_count(items.drop_last(), order_id) + 1
    } else {
        item_count(items.drop_last(), order_id)
    }
}

/// Whether an order stands in the caller's listing: a vendor who asks for
/// the vendor's view is shown the orders that hold an item of theirs;
/// everybody else is shown the orders they placed.
pub open spec fn is_listed(
    auth_user: AuthUser,
    params: OrderQueryParams,
    order: Order,
    items: Seq<OrderItem>,
) -> bool {
    if auth_user.role == Role::Vendor && params.vendor == Some(true) {
        holds_item_of(items, order.id, auth_user.user_id)
    } else {
        order.user_id == auth_user.user_id
    }
}

/// The line that lists an order.
pub open spec fn summary_of(order: Order, items: Seq<OrderItem>) -> OrderSummary {
    OrderSummary {
        id: order.id,
        total: order.total,
        status: order.status,
        created_at: order.created_at,
        item_count: if item_count(items, order.id) <= i64::MAX {
            Some(item_count(items, order.id) as i64)
        } else {
            None
        },
    }
}

/// The caller's listing: a line for each order that [`is_listed`], in the
/// order in which the orders are given.
pub open spec fn listing(
    auth_user: AuthUser,
    params: OrderQueryParams,
    orders: Seq<Order>,
    items: Seq<OrderItem>,
) -> Seq<OrderSummary>
    decreases orders.len(),
{
    if orders.len() == 0 {
        Seq::empty()
    } else if is_listed(auth_user, params, orders.last(), items) {
        listing(auth_user, params, orders.drop_last(), items).push(summary_of(orders.last(), items))
    } else {
        listing(auth_user, params, orders.drop_last(), items)
    }
}

fn vendor_has_item(items: &Vec<OrderItem>, order_id: u128, vendor_id: u128) -> (found: bool)
    ensures
        found == holds_item_of(items@, order_id, vendor_id),
{
    let mut i: usize = 0;
    while i < items.len()
        invariant
            i <= items@.len(),
            forall|j: int|
                0 <= j < i ==> !((#[trigger] items@[j]).order_id == order_id && items@[j].vendor_id
                    == vendor_id),
        decreases items@.len() - i,
    {
        if items[i].order_id == order_id && items[i].vendor_id == vendor_id {
            return true;
        }
        i = i + 1;
    }
    false
}

fn count_items(items: &Vec<OrderItem>, order_id: u128) -> (count: usize)
    ensures
        count == item_count(items@, order_id),
{
    let mut count: usize = 0;
    let mut i: usize = 0;
    assert(items@.take(0) =~= Seq::<OrderItem>::empty());
    while i < items.len()
        invariant
            i <= items@.len(),
            count <= i,
            count == item_count(items@.take(i as int), order_id),
        decreases items@.len() - i,
    {
        proof {
            let next = items@.take(i + 1);
            assert(next.drop_last() =~= items@.take(i as int));
            assert(next.last() == items@[i as int]);
        }
        if items[i].order_id == order_id {
            count = count + 1;
        }
        i = i + 1;
    }
    assert(items@.take(i as int) =~= items@);
    count
}

/// Lists orders to the caller, given the stored orders, newest first, and
/// the stored order items.
///
/// A customer is shown the orders they placed and no others. A vendor who
/// asks for the vendor's view is shown the orders that hold at least one
/// item of theirs. Each line counts the order's items. The lines keep the
/// order in which the orders are given.
pub fn get_all_orders(
    auth_user: &AuthUser,
    params: &OrderQueryParams,
    orders: &Vec<Order>,
    items: &Vec<OrderItem>,
) -> (lines: Vec<OrderSummary>)
    ensures
        lines@ == listing(*auth_user, *params, orders@, items@),
{
    let vendor_view = match (auth_user.role, params.vendor) {
        (Role::Vendor, Some(true)) => true,
        _ => false,
    };
    let mut lines: Vec<OrderSummary> = Vec::new();
    let mut i: usize = 0;
    assert(orders@.take(0) =~= Seq::<Order>::empty());
    while i < orders.len()
        invariant
            i <= orders@.len(),
            vendor_view == (auth_user.role == Role::Vendor && params.vendor == Some(true)),
            lines@ == listing(*auth_user, *params, orders@.take(i as int), items@),
        decreases orders@.len() - i,
    {
        let order = &orders[i];
        proof {
            let next = orders@.take(i + 1);
            assert(next.drop_last() =~= orders@.take(i as int));
            assert(next.last() == orders@[i as int]);
        }
        let listed = if vendor_view {
            vendor_has_item(items, order.id, auth_user.user_id)
        } else {
            order.user_id == auth_user.user_id
        };
        if listed {
            let count = count_items(items, order.id);
            lines.push(
                OrderSummary {
                    id: order.id,
                    total: order.total,
                    status: order.status,
                    created_at: order.created_at,
                    item_count: if count as u64 <= i64::MAX as u64 {
                        Some(count as i64)
                    } else {
                        None
                    },
                },
            );
        }
        i = i + 1;
    }
    assert(orders@.take(i as int) =~= orders@);
    lines
}

/// A listing shows a customer no order but their own.
pub proof fn lemma_customer_listing_is_own(
    auth_user: AuthUser,
    params: OrderQueryParams,
    orders: Seq<Order>,
    items: Seq<OrderItem>,
)
    requires
        auth_user.role == Role::Customer,
    ensures
        forall|k: int|
            0 <= k < listing(auth_user, params, orders, items).len() ==> exists|i: int|
                0 <= i < orders.len() && (#[trigger] orders[i]).user_id == auth_user.user_id
                    && orders[i].id == (#[trigger] listing(auth_user, params, orders, items)[k]).id,
    decreases orders.len(),
{
    if orders.len() > 0 {
        let shorter = orders.drop_last();
        lemma_customer_listing_is_own(auth_user, params, shorter, items);
        let before = listing(auth_user, params, shorter, items);
        let all = listing(auth_user, params, orders, items);
        assert forall|k: int| 0 <= k < all.len() implies exists|i: int|
            0 <= i < orders.len() && (#[trigger] orders[i]).user_id == auth_user.user_id
                && orders[i].id == (#[trigger] all[k]).id by {
            if k < before.len() {
                assert(all[k] == before[k]);
                let i = choose|i: int|
                    0 <= i < shorter.len() && (#[trigger] shorter[i]).user_id == auth_user.user_id
                        && shorter[i].id == before[k].id;
                assert(orders[i] == shorter[i]);
            } else {
                assert(orders[orders.len() - 1] == orders.last());
            }
        }
    }
}

} // verus!
