use catalog_core::auth::AuthService;
use catalog_core::cart::CartService;
use catalog_core::catalog::{BrandService, CategoryService};
use catalog_core::entities::UpsertOutcome;
use catalog_core::errors::AppError;
use catalog_core::products::ProductService;
use catalog_core::store::Store;
use catalog_core::validate::validate_cart_quantity;

// A bcrypt digest of "password" at cost 4, for fast test registration;
// the cart tests never verify it.
const DIGEST: &str = "$2a$04$UuTkLRZZ6QofpDOlMz32MuuxEHA43WOemOYHPz6.SjsVsyO1tDU96";

fn seeded_store() -> (Store, i32, i32) {
    let mut store = Store::new();
    let c = CategoryService::create(&mut store, "Tools".to_string(), 100).expect("category");
    let b = BrandService::create(&mut store, "Acme".to_string(), 100).expect("brand");
    let p = ProductService::create(&mut store, "Hammer".to_string(), 7, 5, c.id, b.id, None, 110)
        .expect("product");
    let u = AuthService::register_user(
        &mut store,
        "ada".to_string(),
        "ada@example.com".to_string(),
        DIGEST.to_string(),
        120,
    )
    .expect("user");
    (store, u.id, p.id)
}

#[test]
fn cart_quantity_validator_boundaries() {
    assert_eq!(validate_cart_quantity(0, 5).err(), Some(AppError::InvalidQuantity));
    assert_eq!(validate_cart_quantity(6, 5).err(), Some(AppError::InsufficientStock));
    assert_eq!(validate_cart_quantity(5, 5), Ok(()));
    assert_eq!(validate_cart_quantity(1, 5), Ok(()));
}

#[test]
fn upsert_twice_keeps_one_line_with_latest_quantity() {
    let (mut store, uid, pid) = seeded_store();
    let first = CartService::create_or_update(&mut store, uid, pid, 2, 130).expect("first upsert");
    assert_eq!(first, UpsertOutcome::Created);
    let second = CartService::create_or_update(&mut store, uid, pid, 4, 140).expect("second upsert");
    assert_eq!(second, UpsertOutcome::Updated);
    let (lines, total_items, _) = CartService::get(&store, uid, None, None).expect("get");
    assert_eq!(total_items, 1);
    assert_eq!(lines.len(), 1);
    assert_eq!(lines[0].quantity, 4);
    assert_eq!(lines[0].product_id, pid);
}

#[test]
fn upsert_outcome_messages_match_the_branch() {
    assert_eq!(UpsertOutcome::Created.message(), "Cart created successfully!");
    assert_eq!(UpsertOutcome::Updated.message(), "Cart updated successfully!");
}

#[test]
fn upsert_rejects_missing_product() {
    let (mut store, uid, _) = seeded_store();
    let r = CartService::create_or_update(&mut store, uid, 99, 1, 130);
    assert_eq!(r.err(), Some(AppError::ProductNotFound));
}

#[test]
fn upsert_at_exactly_the_stock_is_accepted() {
    let (mut store, uid, pid) = seeded_store();
    // The seeded product holds stock 5: quantity == stock is allowed.
    let outcome = CartService::create_or_update(&mut store, uid, pid, 5, 130).expect("upsert");
    assert_eq!(outcome, UpsertOutcome::Created);
    let (lines, _, _) = CartService::get(&store, uid, None, None).expect("get");
    assert_eq!(lines.len(), 1);
    assert_eq!(lines[0].quantity, 5);
}

#[test]
fn upsert_rejects_invalid_quantity_and_insufficient_stock() {
    let (mut store, uid, pid) = seeded_store();
    let r = CartService::create_or_update(&mut store, uid, pid, 0, 130);
    assert_eq!(r.err(), Some(AppError::InvalidQuantity));
    let r = CartService::create_or_update(&mut store, uid, pid, 6, 130);
    assert_eq!(r.err(), Some(AppError::InsufficientStock));
}

#[test]
fn upsert_rejects_missing_user() {
    let (mut store, _, pid) = seeded_store();
    let r = CartService::create_or_update(&mut store, 42, pid, 1, 130);
    assert_eq!(r.err(), Some(AppError::UserNotFound));
}

#[test]
fn cart_get_joins_names_and_computes_subtotal() {
    let (mut store, uid, pid) = seeded_store();
    CartService::create_or_update(&mut store, uid, pid, 3, 130).expect("upsert");
    let (lines, _, _) = CartService::get(&store, uid, None, None).expect("get");
    assert_eq!(lines.len(), 1);
    assert_eq!(lines[0].product_name, "Hammer");
    assert_eq!(lines[0].product_category, "Tools");
    assert_eq!(lines[0].product_brand, "Acme");
    assert_eq!(lines[0].product_price, 7);
    assert_eq!(lines[0].product_stock, 5);
    assert_eq!(lines[0].subtotal, 21);
    assert_eq!(lines[0].product_deleted_at, None);
    assert_eq!(lines[0].brand_deleted_at, None);
    assert_eq!(lines[0].category_deleted_at, None);
}

#[test]
fn deleted_product_still_upserts_and_listing_reports_the_flag() {
    let (mut store, uid, pid) = seeded_store();
    ProductService::delete(&mut store, pid, 125).expect("delete product");
    // The structural lookup still succeeds; blocking is caller policy.
    let outcome = CartService::create_or_update(&mut store, uid, pid, 2, 130).expect("upsert");
    assert_eq!(outcome, UpsertOutcome::Created);
    let (lines, _, _) = CartService::get(&store, uid, None, None).expect("get");
    assert_eq!(lines[0].product_deleted_at, Some(125));
    assert_eq!(lines[0].brand_deleted_at, None);
}

#[test]
fn cart_listing_is_scoped_to_the_user_and_paginates() {
    let (mut store, uid, pid) = seeded_store();
    let other = AuthService::register_user(
        &mut store,
        "bob".to_string(),
        "bob@example.com".to_string(),
        DIGEST.to_string(),
        121,
    )
    .expect("user");
    CartService::create_or_update(&mut store, uid, pid, 2, 130).expect("upsert");
    CartService::create_or_update(&mut store, other.id, pid, 1, 131).expect("upsert");
    let (lines, total_items, total_pages) =
        CartService::get(&store, uid, Some(1), Some(1)).expect("get");
    assert_eq!(total_items, 1);
    assert_eq!(total_pages, 1);
    assert_eq!(lines.len(), 1);
    assert_eq!(lines[0].quantity, 2);
    let (lines, _, _) = CartService::get(&store, uid, Some(2), Some(1)).expect("get");
    assert!(lines.is_empty());
}

#[test]
fn cart_get_page_error_takes_precedence() {
    let (store, uid, _) = seeded_store();
    assert_eq!(
        CartService::get(&store, uid, Some(0), Some(0)).err(),
        Some(AppError::InvalidPage)
    );
    assert_eq!(
        CartService::get(&store, uid, Some(1), Some(0)).err(),
        Some(AppError::InvalidSize)
    );
}
