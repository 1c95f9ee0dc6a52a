//! The catalog: putting products on offer, changing, removing and finding them.

use vstd::prelude::*;
use crate::controllers::auth_guard::AuthUser;
use crate::decimal::Decimal;
use crate::error::ErrorKind;
use crate::ident::new_id;
use crate::models::product::{CreateProduct, Product, UpdateProduct};
use crate::models::user::Role;
use crate::text::{copy_optional_text, natural_text, natural_to_text, optional_text};

verus! {

/// The filters and the page of a product search. A filter that is left out
/// does not narrow the search.
#[derive(Clone, Debug, PartialEq, Eq)]
pub struct ProductQuery {
    /// Words to find in the name or the description.
    pub search: Option<String>,
    pub min_price: Option<Decimal>,
    pub max_price: Option<Decimal>,
    pub category: Option<String>,
    /// How many products to show; 50 where it is left out.
    pub limit: Option<i32>,
    /// How many products to skip; none where it is left out.
    pub offset: Option<i32>,
}

/// A value that takes the place of a numbered placeholder in a query.
#[derive(Clone, Debug, PartialEq, Eq)]
pub enum BindValue {
    Text(String),
    Amount(Decimal),
    Int(i32),
}

/// A [`BindValue`] as a plain value.
pub enum BindValueView {
    Text(Seq<char>),
    Amount(Decimal),
    Int(i32),
}

impl View for BindValue {
    type V = BindValueView;

    open spec fn view(&self) -> BindValueView {
        match self {
            BindValue::Text(text) => BindValueView::Text(text@),
            BindValue::Amount(amount) => BindValueView::Amount(*amount),
            BindValue::Int(number) => BindValueView::Int(*number),
        }
    }
}

/// A product search as the store takes it: the query with numbered
/// placeholders, and the values that take their places, in that order.
#[derive(Clone, Debug, PartialEq, Eq)]
pub struct ProductSearch {
    pub sql: String,
    pub binds: Vec<BindValue>,
}

/// The placeholder with the number `n`.
pub open spec fn placeholder(n: nat) -> Seq<char> {
    "$"@ + natural_text(n)
}

/// A query with one more condition at its end, which ends in the
/// placeholder with the number `n`.
pub open spec fn with_clause(sql: Seq<char>, head: Seq<char>, n: nat) -> Seq<char> {
    sql + head + placeholder(n)
}

/// A query with the condition at its end that finds words in the name or
/// the description; both places take the placeholder with the number `n`.
pub open spec fn with_search_clause(sql: Seq<char>, n: nat) -> Seq<char> {
    with_clause(with_clause(sql, " AND (name ILIKE "@, n), " OR description ILIKE "@, n) + ")"@
}

/// The query that finds every product.
pub open spec fn every_product() -> Seq<char> {
    "SELECT id, vendor_id, name, description, price, stock, category, created_at, updated_at FROM products WHERE 1=1"@
}

/// The text of a product search. It depends on which filters are there,
/// never on what they hold: every value travels as a bind. The
/// placeholders are numbered from 1 in the order in which they stand.
pub open spec fn search_sql(
    has_search: bool,
    has_min_price: bool,
    has_max_price: bool,
    has_category: bool,
) -> Seq<char> {
    let first: nat = if has_search { 1 } else { 0 };
    let second: nat = if has_min_price { first + 1 } else { first };
    let third: nat = if has_max_price { second + 1 } else { second };
    let fourth: nat = if has_category { third + 1 } else { third };
    let searched = if has_search { with_search_clause(every_product(), first) } else { every_product() };
    let floored = if has_min_price { with_clause(searched, " AND price >= "@, second) } else { searched };
    let capped = if has_max_price { with_clause(floored, " AND price <= "@, third) } else { floored };
    let filtered = if has_category { with_clause(capped, " AND category ILIKE "@, fourth) } else { capped };
    with_clause(
        with_clause(filtered + " ORDER BY name"@, " LIMIT "@, fourth + 1),
        " OFFSET "@,
        fourth + 2,
    )
}

/// The values of a product search, in the order of their placeholders: the
/// search words between two `%`, the price bounds, the category, and the
/// page, which is the first 50 products where the caller names none.
pub open spec fn search_binds(params: ProductQuery) -> Seq<BindValueView> {
    let searched = match params.search {
        Some(words) => seq![BindValueView::Text("%"@ + words@ + "%"@)],
        None => Seq::<BindValueView>::empty(),
    };
    let floored = match params.min_price {
        Some(price) => searched.push(BindValueView::Amount(price)),
        None => searched,
    };
    let capped = match params.max_price {
        Some(price) => floored.push(BindValueView::Amount(price)),
        None => floored,
    };
    let filtered = match params.category {
        Some(category) => capped.push(BindValueView::Text(category@)),
        None => capped,
    };
    filtered.push(
        BindValueView::Int(
            match params.limit {
                Some(limit) => limit,
                None => 50,
            },
        ),
    ).push(
        BindValueView::Int(
            match params.offset {
                Some(offset) => offset,
                None => 0,
            },
        ),
    )
}

/// The binds of a search as plain values.
pub open spec fn bind_views(binds: Seq<BindValue>) -> Seq<BindValueView> {
    binds.map_values(|bind: BindValue| bind@)
}

fn push_clause(sql: &mut String, head: &str, n: u64)
    ensures
        final(sql)@ == with_clause(old(sql)@, head@, n as nat),
{
    let ghost before = sql@;
    sql.append(head);
    sql.append("$");
    sql.append(natural_to_text(n).as_str());
    assert(sql@ =~= with_clause(before, head@, n as nat));
}

fn push_bind(binds: &mut Vec<BindValue>, value: BindValue)
    ensures
        bind_views(final(binds)@) == bind_views(old(binds)@).push(value@),
{
    let ghost before = binds@;
    let ghost pushed = value@;
    binds.push(value);
    assert(bind_views(binds@) =~= bind_views(before).push(pushed));
}

/// Turns the filters and the page of a product search into a query for the
/// store. The products come sorted by name; what the caller sent stands in
/// the binds alone, never in the query text.
pub fn get_all_products(params: &ProductQuery) -> (search: ProductSearch)
    ensures
        search.sql@ == search_sql(
            params.search is Some,
            params.min_price is Some,
            params.max_price is Some,
            params.category is Some,
        ),
        bind_views(search.binds@) == search_binds(*params),
{
    let mut sql =
        "SELECT id, vendor_id, name, description, price, stock, category, created_at, updated_at FROM products WHERE 1=1".to_owned();
    let mut binds: Vec<BindValue> = Vec::new();
    let mut bind_count: u64 = 0;
    assert(bind_views(binds@) =~= Seq::<BindValueView>::empty());
    match &params.search {
        Some(words) => {
            bind_count = bind_count + 1;
            push_clause(&mut sql, " AND (name ILIKE ", bind_count);
            push_clause(&mut sql, " OR description ILIKE ", bind_count);
            sql.append(")");
            let mut term = "%".to_owned();
            term.append(words.as_str());
            term.append("%");
            push_bind(&mut binds, BindValue::Text(term));
            assert(bind_views(binds@) =~= seq![BindValueView::Text("%"@ + words@ + "%"@)]);
        },
        None => {},
    }
    match params.min_price {
        Some(price) => {
            bind_count = bind_count + 1;
            push_clause(&mut sql, " AND price >= ", bind_count);
            push_bind(&mut binds, BindValue::Amount(price));
        },
        None => {},
    }
    match params.max_price {
        Some(price) => {
            bind_count = bind_count + 1;
            push_clause(&mut sql, " AND price <= ", bind_count);
            push_bind(&mut binds, BindValue::Amount(price));
        },
        None => {},
    }
    match &params.category {
        Some(category) => {
            bind_count = bind_count + 1;
            push_clause(&mut sql, " AND category ILIKE ", bind_count);
            push_bind(&mut binds, BindValue::Text(category.clone()));
        },
        None => {},
    }
    sql.append(" ORDER BY name");
    let limit: i32 = match params.limit {
        Some(limit) => limit,
        None => 50,
    };
    let offset: i32 = match params.offset {
        Some(offset) => offset,
        None => 0,
    };
    push_clause(&mut sql, " LIMIT ", bind_count + 1);
    push_clause(&mut sql, " OFFSET ", bind_count + 2);
    push_bind(&mut binds, BindValue::Int(limit));
    push_bind(&mut binds, BindValue::Int(offset));
    ProductSearch { sql, binds }
}

/// The text of a product search is the same whatever the filters hold, as
/// long as the same filters are there: nothing that a caller sends can
/// become part of the query.
pub proof fn lemma_query_text_ignores_values(one: ProductQuery, other: ProductQuery)
    requires
        one.search is Some <==> other.search is Some,
        one.min_price is Some <==> other.min_price is Some,
        one.max_price is Some <==> other.max_price is Some,
        one.category is Some <==> other.category is Some,
    ensures
        search_sql(
            one.search is Some,
            one.min_price is Some,
            one.max_price is Some,
            one.category is Some,
        ) == search_sql(
            other.search is Some,
            other.min_price is Some,
            other.max_price is Some,
            other.category is Some,
        ),
{
}

/// Whether `product` is what `payload` asks for, owned by `vendor_id`
/// under the identifier `product_id`, and not yet stamped by the store.
pub open spec fn is_new_product(
    product: Product,
    payload: CreateProduct,
    vendor_id: u128,
    product_id: u128,
) -> bool {
    &&& product.id == product_id
    &&& product.vendor_id == vendor_id
    &&& product.name@ == payload.name@
    &&& optional_text(product.description) == optional_text(payload.description)
    &&& product.price == payload.price
    &&& product.stock == payload.stock
    &&& optional_text(product.category) == optional_text(payload.category)
    &&& product.created_at is None
    &&& product.updated_at is None
}

/// What putting a product on offer under `product_id` comes to, told of a
/// result: the product row to store, or the one refusal that is due.
pub open spec fn is_creation_of(
    result: Result<Product, ErrorKind>,
    auth_user: AuthUser,
    payload: CreateProduct,
    product_id: u128,
) -> bool {
    match result {
        Ok(product) => {
            &&& auth_user.role == Role::Vendor
            &&& payload.stock >= 0
            &&& is_new_product(product, payload, auth_user.user_id, product_id)
        },
        Err(e) => {
            ||| auth_user.role != Role::Vendor && e == ErrorKind::Unauthorized
            ||| auth_user.role == Role::Vendor && payload.stock < 0 && e == ErrorKind::BadRequest
        },
    }
}

/// Puts a product on offer under the identifier `product_id`.
///
/// Only a vendor may do so, and the product is theirs. Stock is never less
/// than nothing, so a payload that says otherwise is a bad request.
pub fn create_product_with(auth_user: &AuthUser, payload: &CreateProduct, product_id: u128) -> (result:
    Result<Product, ErrorKind>)
    ensures
        is_creation_of(result, *auth_user, *payload, product_id),
{
    match auth_user.role {
        Role::Vendor => {},
        Role::Customer => {
            return Err(ErrorKind::Unauthorized);
        },
    }
    if payload.stock < 0 {
        return Err(ErrorKind::BadRequest);
    }
    Ok(
        Product {
            id: product_id,
            vendor_id: auth_user.user_id,
            name: payload.name.clone(),
            description: copy_optional_text(&payload.description),
            price: payload.price,
            stock: payload.stock,
            category: copy_optional_text(&payload.category),
            created_at: None,
            updated_at: None,
        },
    )
}

/// Puts a product on offer under a fresh identifier. See
/// [`create_product_with`], which does the work for a given one.
pub fn create_product(auth_user: &AuthUser, payload: &CreateProduct) -> (result: Result<
    Product,
    ErrorKind,
>)
    ensures
        exists|product_id: u128| #[trigger] is_creation_of(result, *auth_user, *payload, product_id),
{
    let product_id = new_id();
    let result = create_product_with(auth_user, payload, product_id);
    assert(is_creation_of(result, *auth_user, *payload, product_id));
    result
}

/// Shows the product that was looked up, or says that there is none.
pub fn get_product_by_id(found: Option<Product>) -> (result: Result<Product, ErrorKind>)
    ensures
        result == match found {
            Some(product) => Ok::<Product, ErrorKind>(product),
            None => Err::<Product, ErrorKind>(ErrorKind::NotFound),
        },
{
    match found {
        Some(product) => Ok(product),
        None => Err(ErrorKind::NotFound),
    }
}

/// Whether `changed` is `stored` with every field replaced that `payload`
/// holds, and every other field as it was.
pub open spec fn is_patched(changed: Product, stored: Product, payload: UpdateProduct) -> bool {
    &&& changed.id == stored.id
    &&& changed.vendor_id == stored.vendor_id
    &&& changed.name@ == match payload.name {
        Some(name) => name@,
        None => stored.name@,
    }
    &&& optional_text(changed.description) == if payload.description is Some {
        optional_text(payload.description)
    } else {
        optional_text(stored.description)
    }
    &&& changed.price == match payload.price {
        Some(price) => price,
        None => stored.price,
    }
    &&& changed.stock == match payload.stock {
        Some(stock) => stock,
        None => stored.stock,
    }
    &&& optional_text(changed.category) == if payload.category is Some {
        optional_text(payload.category)
    } else {
        optional_text(stored.category)
    }
    &&& changed.created_at == stored.created_at
    &&& changed.updated_at == stored.updated_at
}

/// Whether a payload asks for less than no stock.
pub open spec fn asks_negative_stock(payload: UpdateProduct) -> bool {
    payload.stock matches Some(stock) && stock < 0
}

/// Changes a product, given the stored product of that id, if there is one.
///
/// Only a vendor may do so. Each field that the payload holds replaces the
/// stored one; a field that it leaves out stays. Stock is never less than
/// nothing. The changed row comes back to be stored; the store stamps it.
pub fn update_product_by_id(auth_user: &AuthUser, existing: Option<Product>, payload: &UpdateProduct) -> (result:
    Result<Product, ErrorKind>)
    ensures
        match result {
            Ok(changed) => {
                &&& auth_user.role == Role::Vendor
                &&& !asks_negative_stock(*payload)
                &&& existing matches Some(stored)
                &&& is_patched(changed, stored, *payload)
            },
            Err(e) => {
                ||| auth_user.role != Role::Vendor && e == ErrorKind::Unauthorized
                ||| auth_user.role == Role::Vendor && asks_negative_stock(*payload) && e
                    == ErrorKind::BadRequest
                ||| auth_user.role == Role::Vendor && !asks_negative_stock(*payload) && existing is None
                    && e == ErrorKind::NotFound
            },
        },
{
    match auth_user.role {
        Role::Vendor => {},
        Role::Customer => {
            return Err(ErrorKind::Unauthorized);
        },
    }
    match payload.stock {
        Some(stock) => {
            if stock < 0 {
                return Err(ErrorKind::BadRequest);
            }
        },
        None => {},
    }
    let stored = match existing {
        Some(stored) => stored,
        None => {
            return Err(ErrorKind::NotFound);
        },
    };
    let name = match &payload.name {
        Some(name) => name.clone(),
        None => stored.name,
    };
    let description = match &payload.description {
        Some(description) => Some(description.clone()),
        None => stored.description,
    };
    let price = match payload.price {
        Some(price) => price,
        None => stored.price,
    };
    let stock: i32 = match payload.stock {
        Some(stock) => stock,
        None => stored.stock,
    };
    let category = match &payload.category {
        Some(category) => Some(category.clone()),
        None => stored.category,
    };
    Ok(
        Product {
            id: stored.id,
            vendor_id: stored.vendor_id,
            name,
            description,
            price,
            stock,
            category,
            created_at: stored.created_at,
            updated_at: stored.updated_at,
        },
    )
}

/// Removes a product, given the stored product of that id, if there is
/// one. Only a vendor may do so. The identifier of the row to remove comes back.
pub fn delete_product_by_id(auth_user: &AuthUser, existing: Option<&Product>) -> (result: Result<
    u128,
    ErrorKind,
>)
    ensures
        match result {
            Ok(product_id) => {
                &&& auth_user.role == Role::Vendor
                &&& existing matches Some(stored)
                &&& product_id == stored.id
            },
            Err(e) => {
                ||| auth_user.role != Role::Vendor && e == ErrorKind::Unauthorized
                ||| auth_user.role == Role::Vendor && existing is None && e == ErrorKind::NotFound
            },
        },
{
    match auth_user.role {
        Role::Vendor => {},
        Role::Customer => {
            return Err(ErrorKind::Unauthorized);
        },
    }
    match existing {
        Some(stored) => Ok(stored.id),
        None => Err(ErrorKind::NotFound),
    }
}

} // verus!
