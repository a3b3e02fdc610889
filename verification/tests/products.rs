use catalog_core::catalog::{BrandService, CategoryService};
use catalog_core::entities::DeleteState;
use catalog_core::errors::AppError;
use catalog_core::products::{ProductService, UpdateProductData};
use catalog_core::store::Store;
use catalog_core::validate::validate_stock_and_price;

fn seeded_store() -> (Store, i32, i32) {
    let mut store = Store::new();
    let c = CategoryService::create(&mut store, "Tools".to_string(), 100).expect("category");
    let b = BrandService::create(&mut store, "Acme".to_string(), 100).expect("brand");
    (store, c.id, b.id)
}

fn no_update() -> UpdateProductData {
    UpdateProductData {
        name: None,
        price: None,
        stock: None,
        description: None,
        category_id: None,
        brand_id: None,
    }
}

#[test]
fn create_product_and_find_joined_names() {
    let (mut store, cid, bid) = seeded_store();
    let p = ProductService::create(
        &mut store,
        "Hammer".to_string(),
        10,
        5,
        cid,
        bid,
        Some("claw hammer".to_string()),
        120,
    )
    .expect("create product");
    assert_eq!(p.id, 1);
    assert_eq!(p.price, 10);
    assert_eq!(p.stock, 5);
    assert_eq!(p.state, DeleteState::Active);
    let (items, total_items, total_pages) =
        ProductService::find(&store, None, None, None, None).expect("find");
    assert_eq!(total_items, 1);
    assert_eq!(total_pages, 1);
    assert_eq!(items.len(), 1);
    assert_eq!(items[0].name, "Hammer");
    assert_eq!(items[0].category_name, "Tools");
    assert_eq!(items[0].brand_name, "Acme");
    assert_eq!(items[0].description.as_deref(), Some("claw hammer"));
}

#[test]
fn create_product_rejects_invalid_stock_and_price() {
    let (mut store, cid, bid) = seeded_store();
    let r = ProductService::create(&mut store, "Hammer".to_string(), 10, 0, cid, bid, None, 120);
    assert_eq!(r.err(), Some(AppError::InvalidStockAmount));
    let r = ProductService::create(&mut store, "Hammer".to_string(), 0, 5, cid, bid, None, 120);
    assert_eq!(r.err(), Some(AppError::InvalidPrice));
}

#[test]
fn create_product_rejects_missing_brand() {
    let (mut store, cid, _) = seeded_store();
    let r = ProductService::create(&mut store, "Hammer".to_string(), 10, 5, cid, 999, None, 120);
    assert_eq!(r.err(), Some(AppError::BrandNotFound));
    assert_eq!(AppError::BrandNotFound.status(), 400);
}

#[test]
fn create_product_rejects_missing_or_deleted_category() {
    let (mut store, cid, bid) = seeded_store();
    let r = ProductService::create(&mut store, "Hammer".to_string(), 10, 5, 999, bid, None, 120);
    assert_eq!(r.err(), Some(AppError::CategoryNotFound));
    CategoryService::delete(&mut store, cid, 130).expect("delete category");
    let r = ProductService::create(&mut store, "Hammer".to_string(), 10, 5, cid, bid, None, 140);
    assert_eq!(r.err(), Some(AppError::CategoryNotFound));
}

#[test]
fn duplicate_product_name_conflicts_even_after_soft_delete() {
    let (mut store, cid, bid) = seeded_store();
    let p = ProductService::create(&mut store, "Hammer".to_string(), 10, 5, cid, bid, None, 120)
        .expect("create");
    let r = ProductService::create(&mut store, "Hammer".to_string(), 12, 6, cid, bid, None, 130);
    assert_eq!(r.err(), Some(AppError::ProductAlreadyCreated));
    ProductService::delete(&mut store, p.id, 140).expect("delete");
    let r = ProductService::create(&mut store, "Hammer".to_string(), 12, 6, cid, bid, None, 150);
    assert_eq!(r.err(), Some(AppError::ProductAlreadyCreated));
}

#[test]
fn find_excludes_deleted_products_by_default() {
    let (mut store, cid, bid) = seeded_store();
    let p = ProductService::create(&mut store, "Hammer".to_string(), 10, 5, cid, bid, None, 120)
        .expect("create");
    ProductService::create(&mut store, "Saw".to_string(), 8, 3, cid, bid, None, 121)
        .expect("create");
    ProductService::delete(&mut store, p.id, 130).expect("delete");
    let (items, total_items, _) = ProductService::find(&store, None, None, None, None).expect("find");
    assert_eq!(total_items, 1);
    assert_eq!(items[0].name, "Saw");
    let (items, total_items, _) =
        ProductService::find(&store, None, None, None, Some(true)).expect("find all");
    assert_eq!(total_items, 2);
    assert_eq!(items.len(), 2);
}

#[test]
fn find_keyword_matches_product_names_case_insensitively() {
    let (mut store, cid, bid) = seeded_store();
    ProductService::create(&mut store, "Claw Hammer".to_string(), 10, 5, cid, bid, None, 120)
        .expect("create");
    ProductService::create(&mut store, "Saw".to_string(), 8, 3, cid, bid, None, 121)
        .expect("create");
    let (items, total_items, _) =
        ProductService::find(&store, Some("HAMMER".to_string()), None, None, None).expect("find");
    assert_eq!(total_items, 1);
    assert_eq!(items[0].name, "Claw Hammer");
}

#[test]
fn update_product_overwrites_present_fields_only() {
    let (mut store, cid, bid) = seeded_store();
    let c2 = CategoryService::create(&mut store, "Garden".to_string(), 110).expect("category");
    let p = ProductService::create(&mut store, "Hammer".to_string(), 10, 5, cid, bid, None, 120)
        .expect("create");
    ProductService::update(
        &mut store,
        p.id,
        UpdateProductData {
            name: Some("Sledgehammer".to_string()),
            price: Some(20),
            stock: None,
            description: Some("heavy".to_string()),
            category_id: Some(c2.id),
            brand_id: None,
        },
        200,
    )
    .expect("update");
    let (items, _, _) = ProductService::find(&store, None, None, None, None).expect("find");
    assert_eq!(items[0].name, "Sledgehammer");
    assert_eq!(items[0].price, 20);
    assert_eq!(items[0].stock, 5);
    assert_eq!(items[0].description.as_deref(), Some("heavy"));
    assert_eq!(items[0].category_name, "Garden");
    assert_eq!(items[0].brand_name, "Acme");
}

#[test]
fn update_rejects_invalid_values_and_missing_refs() {
    let (mut store, cid, bid) = seeded_store();
    let p = ProductService::create(&mut store, "Hammer".to_string(), 10, 5, cid, bid, None, 120)
        .expect("create");
    let mut u = no_update();
    u.price = Some(0);
    assert_eq!(
        ProductService::update(&mut store, p.id, u, 130).err(),
        Some(AppError::InvalidPrice)
    );
    let mut u = no_update();
    u.stock = Some(-2);
    assert_eq!(
        ProductService::update(&mut store, p.id, u, 130).err(),
        Some(AppError::InvalidStockAmount)
    );
    let mut u = no_update();
    u.brand_id = Some(77);
    assert_eq!(
        ProductService::update(&mut store, p.id, u, 130).err(),
        Some(AppError::BrandNotFound)
    );
    assert_eq!(
        ProductService::update(&mut store, 99, no_update(), 130).err(),
        Some(AppError::ProductNotFound)
    );
}

#[test]
fn update_deleted_product_conflicts() {
    let (mut store, cid, bid) = seeded_store();
    let p = ProductService::create(&mut store, "Hammer".to_string(), 10, 5, cid, bid, None, 120)
        .expect("create");
    ProductService::delete(&mut store, p.id, 130).expect("delete");
    let r = ProductService::update(&mut store, p.id, no_update(), 140);
    assert_eq!(r.err(), Some(AppError::ProductAlreadyDeleted));
}

#[test]
fn product_delete_restore_round_trip() {
    let (mut store, cid, bid) = seeded_store();
    let p = ProductService::create(&mut store, "Hammer".to_string(), 10, 5, cid, bid, None, 120)
        .expect("create");
    ProductService::delete(&mut store, p.id, 130).expect("delete");
    assert_eq!(
        ProductService::delete(&mut store, p.id, 140).err(),
        Some(AppError::ProductAlreadyDeleted)
    );
    ProductService::restore(&mut store, p.id).expect("restore");
    assert_eq!(
        ProductService::restore(&mut store, p.id).err(),
        Some(AppError::CannotRestoreProduct)
    );
    let (items, total_items, _) = ProductService::find(&store, None, None, None, None).expect("find");
    assert_eq!(total_items, 1);
    assert_eq!(items[0].name, "Hammer");
    assert_eq!(items[0].price, 10);
}

#[test]
fn stock_and_price_validator_orders_its_checks() {
    assert_eq!(validate_stock_and_price(0, 0).err(), Some(AppError::InvalidStockAmount));
    assert_eq!(validate_stock_and_price(1, 0).err(), Some(AppError::InvalidPrice));
    assert_eq!(validate_stock_and_price(1, 1), Ok(()));
}
