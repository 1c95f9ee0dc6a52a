use storefront::controllers::auth_guard::AuthUser;
use storefront::controllers::cart::{add_cart_item, get_cart_items, remove_cart_item, UpdateCartItem};
use storefront::controllers::product::{
    create_product, create_product_with, delete_product_by_id, get_all_products,
    get_product_by_id, update_product_by_id, BindValue, ProductQuery,
};
use storefront::decimal::Decimal;
use storefront::error::{ApiError, ErrorKind, ErrorResponse};
use storefront::models::cart::CartItem;
use storefront::models::order::{CreateOrderRequest, OrderStatus};
use storefront::models::product::{CreateProduct, Product, UpdateProduct};
use storefront::models::user::Role;

const CUSTOMER: u128 = 0x11;
const VENDOR: u128 = 0x22;
const PRODUCT: u128 = 0xa;

fn customer() -> AuthUser {
    AuthUser { user_id: CUSTOMER, role: Role::Customer }
}

fn vendor() -> AuthUser {
    AuthUser { user_id: VENDOR, role: Role::Vendor }
}

fn stored() -> Product {
    Product {
        id: PRODUCT,
        vendor_id: VENDOR,
        name: "Lamp".to_string(),
        description: Some("Gives light".to_string()),
        price: Decimal::new(1999, 2),
        stock: 4,
        category: None,
        created_at: Some(10),
        updated_at: Some(20),
    }
}

fn payload(stock: i32) -> CreateProduct {
    CreateProduct {
        name: "Lamp".to_string(),
        description: Some("Gives light".to_string()),
        price: Decimal::new(1999, 2),
        stock,
        category: Some("home".to_string()),
    }
}

fn no_change() -> UpdateProduct {
    UpdateProduct { name: None, description: None, price: None, stock: None, category: None }
}

#[test]
fn first_piece_makes_a_row_of_one() {
    assert_eq!(
        add_cart_item(&customer(), PRODUCT, None),
        Ok(CartItem { product_id: PRODUCT, quantity: 1, user_id: CUSTOMER })
    );
}

#[test]
fn further_piece_counts_the_row_up() {
    let held = CartItem { product_id: PRODUCT, quantity: 3, user_id: CUSTOMER };
    assert_eq!(
        add_cart_item(&customer(), PRODUCT, Some(held)),
        Ok(CartItem { product_id: PRODUCT, quantity: 4, user_id: CUSTOMER })
    );
}

#[test]
fn row_that_cannot_count_further_fails() {
    let held = CartItem { product_id: PRODUCT, quantity: i32::MAX, user_id: CUSTOMER };
    let refused = add_cart_item(&customer(), PRODUCT, Some(held)).unwrap_err();
    assert_eq!(refused.kind, ErrorKind::Internal);
    assert_eq!(refused.response.error, "Failed to add item to cart");
}

#[test]
fn removing_a_piece_counts_the_row_down() {
    let held = CartItem { product_id: PRODUCT, quantity: 3, user_id: CUSTOMER };
    assert_eq!(
        remove_cart_item(Some(held)),
        Some(CartItem { product_id: PRODUCT, quantity: 2, user_id: CUSTOMER })
    );
    let held = CartItem { product_id: PRODUCT, quantity: 2, user_id: CUSTOMER };
    assert_eq!(
        remove_cart_item(Some(held)),
        Some(CartItem { product_id: PRODUCT, quantity: 1, user_id: CUSTOMER })
    );
}

#[test]
fn removing_the_last_piece_removes_the_row() {
    let held = CartItem { product_id: PRODUCT, quantity: 1, user_id: CUSTOMER };
    assert_eq!(remove_cart_item(Some(held)), None);
    let held = CartItem { product_id: PRODUCT, quantity: 0, user_id: CUSTOMER };
    assert_eq!(remove_cart_item(Some(held)), None);
    assert_eq!(remove_cart_item(None), None);
}

#[test]
fn adding_then_removing_leaves_the_row_as_it_was() {
    let held = CartItem { product_id: PRODUCT, quantity: 3, user_id: CUSTOMER };
    let more = add_cart_item(&customer(), PRODUCT, Some(held)).unwrap();
    assert_eq!(remove_cart_item(Some(more)), Some(held));
    let first = add_cart_item(&customer(), PRODUCT, None).unwrap();
    assert_eq!(remove_cart_item(Some(first)), None);
}

#[test]
fn cart_shows_the_callers_rows_only() {
    let rows = vec![
        CartItem { product_id: 1, quantity: 1, user_id: CUSTOMER },
        CartItem { product_id: 2, quantity: 5, user_id: VENDOR },
        CartItem { product_id: 3, quantity: 2, user_id: CUSTOMER },
    ];
    assert_eq!(get_cart_items(&customer(), &rows), vec![rows[0], rows[2]]);
    assert_eq!(get_cart_items(&vendor(), &rows), vec![rows[1]]);
    let stranger = AuthUser { user_id: 0x99, role: Role::Customer };
    assert!(get_cart_items(&stranger, &rows).is_empty());
}

#[test]
fn vendor_puts_a_product_on_offer() {
    let product = create_product_with(&vendor(), &payload(4), PRODUCT).unwrap();
    assert_eq!(
        product,
        Product {
            id: PRODUCT,
            vendor_id: VENDOR,
            name: "Lamp".to_string(),
            description: Some("Gives light".to_string()),
            price: Decimal::new(1999, 2),
            stock: 4,
            category: Some("home".to_string()),
            created_at: None,
            updated_at: None,
        }
    );
}

#[test]
fn customer_may_not_put_a_product_on_offer() {
    assert_eq!(create_product_with(&customer(), &payload(4), PRODUCT), Err(ErrorKind::Unauthorized));
    assert_eq!(create_product(&customer(), &payload(4)), Err(ErrorKind::Unauthorized));
}

#[test]
fn product_with_less_than_no_stock_is_a_bad_request() {
    assert_eq!(create_product_with(&vendor(), &payload(-1), PRODUCT), Err(ErrorKind::BadRequest));
    assert!(create_product_with(&vendor(), &payload(0), PRODUCT).is_ok());
}

#[test]
fn product_gets_an_identifier_of_its_own() {
    let first = create_product(&vendor(), &payload(4)).unwrap();
    let second = create_product(&vendor(), &payload(4)).unwrap();
    assert_ne!(first.id, second.id);
    assert_eq!(first.vendor_id, VENDOR);
    assert_eq!(first.name, "Lamp");
}

#[test]
fn product_that_was_found_is_shown() {
    assert_eq!(get_product_by_id(Some(stored())), Ok(stored()));
    assert_eq!(get_product_by_id(None), Err(ErrorKind::NotFound));
}

#[test]
fn update_replaces_the_fields_that_are_sent() {
    let change = UpdateProduct {
        name: Some("Desk lamp".to_string()),
        description: None,
        price: Some(Decimal::new(2499, 2)),
        stock: Some(0),
        category: Some("office".to_string()),
    };
    let changed = update_product_by_id(&vendor(), Some(stored()), &change).unwrap();
    assert_eq!(
        changed,
        Product {
            id: PRODUCT,
            vendor_id: VENDOR,
            name: "Desk lamp".to_string(),
            description: Some("Gives light".to_string()),
            price: Decimal::new(2499, 2),
            stock: 0,
            category: Some("office".to_string()),
            created_at: Some(10),
            updated_at: Some(20),
        }
    );
}

#[test]
fn update_that_sends_nothing_changes_nothing() {
    assert_eq!(update_product_by_id(&vendor(), Some(stored()), &no_change()), Ok(stored()));
}

#[test]
fn update_is_refused_in_turn() {
    let negative = UpdateProduct { stock: Some(-1), ..no_change() };
    assert_eq!(update_product_by_id(&customer(), None, &negative), Err(ErrorKind::Unauthorized));
    assert_eq!(update_product_by_id(&vendor(), None, &negative), Err(ErrorKind::BadRequest));
    assert_eq!(update_product_by_id(&vendor(), Some(stored()), &negative), Err(ErrorKind::BadRequest));
    assert_eq!(update_product_by_id(&vendor(), None, &no_change()), Err(ErrorKind::NotFound));
}

#[test]
fn vendor_removes_a_product() {
    let product = stored();
    assert_eq!(delete_product_by_id(&vendor(), Some(&product)), Ok(PRODUCT));
    assert_eq!(delete_product_by_id(&vendor(), None), Err(ErrorKind::NotFound));
    assert_eq!(delete_product_by_id(&customer(), Some(&product)), Err(ErrorKind::Unauthorized));
    assert_eq!(delete_product_by_id(&customer(), None), Err(ErrorKind::Unauthorized));
}

const EVERY: &str = "SELECT id, vendor_id, name, description, price, stock, category, created_at, updated_at FROM products WHERE 1=1";

fn query() -> ProductQuery {
    ProductQuery { search: None, min_price: None, max_price: None, category: None, limit: None, offset: None }
}

#[test]
fn search_without_filters_shows_the_first_page() {
    let search = get_all_products(&query());
    assert_eq!(search.sql, format!("{} ORDER BY name LIMIT $1 OFFSET $2", EVERY));
    assert_eq!(search.binds, vec![BindValue::Int(50), BindValue::Int(0)]);
}

#[test]
fn search_with_every_filter_numbers_its_placeholders_in_turn() {
    let params = ProductQuery {
        search: Some("lamp".to_string()),
        min_price: Some(Decimal::new(500, 2)),
        max_price: Some(Decimal::new(5000, 2)),
        category: Some("home".to_string()),
        limit: Some(10),
        offset: Some(20),
    };
    let search = get_all_products(&params);
    assert_eq!(
        search.sql,
        format!(
            "{} AND (name ILIKE $1 OR description ILIKE $1) AND price >= $2 AND price <= $3 AND category ILIKE $4 ORDER BY name LIMIT $5 OFFSET $6",
            EVERY
        )
    );
    assert_eq!(
        search.binds,
        vec![
            BindValue::Text("%lamp%".to_string()),
            BindValue::Amount(Decimal::new(500, 2)),
            BindValue::Amount(Decimal::new(5000, 2)),
            BindValue::Text("home".to_string()),
            BindValue::Int(10),
            BindValue::Int(20),
        ]
    );
}

#[test]
fn search_numbers_only_the_filters_that_are_there() {
    let params = ProductQuery {
        max_price: Some(Decimal::new(5000, 2)),
        category: Some("home".to_string()),
        ..query()
    };
    let search = get_all_products(&params);
    assert_eq!(
        search.sql,
        format!("{} AND price <= $1 AND category ILIKE $2 ORDER BY name LIMIT $3 OFFSET $4", EVERY)
    );
    assert_eq!(
        search.binds,
        vec![
            BindValue::Amount(Decimal::new(5000, 2)),
            BindValue::Text("home".to_string()),
            BindValue::Int(50),
            BindValue::Int(0),
        ]
    );
}

#[test]
fn search_keeps_what_the_caller_sent_out_of_the_query() {
    let hostile = ProductQuery { search: Some("'; DROP TABLE products; --".to_string()), ..query() };
    let plain = ProductQuery { search: Some("lamp".to_string()), ..query() };
    let one = get_all_products(&hostile);
    let other = get_all_products(&plain);
    assert_eq!(one.sql, other.sql);
    assert_eq!(
        one.sql,
        format!("{} AND (name ILIKE $1 OR description ILIKE $1) ORDER BY name LIMIT $2 OFFSET $3", EVERY)
    );
    assert_eq!(one.binds[0], BindValue::Text("%'; DROP TABLE products; --%".to_string()));
}

#[test]
fn failures_are_reported_with_their_status() {
    assert_eq!(ErrorKind::Unauthorized.status_code(), 401);
    assert_eq!(ErrorKind::Forbidden.status_code(), 403);
    assert_eq!(ErrorKind::NotFound.status_code(), 404);
    assert_eq!(ErrorKind::BadRequest.status_code(), 400);
    assert_eq!(ErrorKind::Conflict.status_code(), 409);
    assert_eq!(ErrorKind::Internal.status_code(), 500);
    let failure = ApiError::with_text(ErrorKind::Conflict, "taken");
    assert_eq!(failure.status_code(), 409);
    assert_eq!(failure.response, ErrorResponse { error: "taken".to_string() });
    assert_eq!(ApiError::new(ErrorKind::Internal, "broken".to_string()).response.error, "broken");
}

#[test]
fn statuses_are_read_from_their_names() {
    assert_eq!(OrderStatus::parse("pending"), Some(OrderStatus::Pending));
    assert_eq!(OrderStatus::parse("shipped"), Some(OrderStatus::Shipped));
    assert_eq!(OrderStatus::parse("delivered"), Some(OrderStatus::Delivered));
    assert_eq!(OrderStatus::parse("cancelled"), None);
    assert_eq!(OrderStatus::Pending.as_str(), "pending");
    assert_eq!(OrderStatus::Shipped.as_str(), "shipped");
    assert_eq!(OrderStatus::Delivered.as_str(), "delivered");
}

#[test]
fn request_payloads_hold_what_was_sent() {
    assert_eq!(UpdateCartItem { product_id: PRODUCT }.product_id, PRODUCT);
    assert_eq!(CreateOrderRequest {}, CreateOrderRequest {});
}
