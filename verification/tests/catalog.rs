use catalog_core::catalog::{BrandService, CategoryService};
use catalog_core::products::ProductService;
use catalog_core::entities::DeleteState;
use catalog_core::errors::AppError;
use catalog_core::store::Store;

#[test]
fn create_category_assigns_ids_and_timestamps() {
    let mut store = Store::new();
    let a = CategoryService::create(&mut store, "Tools".to_string(), 100).expect("first create");
    let b = CategoryService::create(&mut store, "Toys".to_string(), 200).expect("second create");
    assert_eq!(a.id, 1);
    assert_eq!(b.id, 2);
    assert_eq!(a.name, "Tools");
    assert_eq!(a.created_at, 100);
    assert_eq!(a.updated_at, 100);
    assert_eq!(a.state, DeleteState::Active);
}

#[test]
fn duplicate_category_name_conflicts() {
    let mut store = Store::new();
    CategoryService::create(&mut store, "Tools".to_string(), 100).expect("create");
    let r = CategoryService::create(&mut store, "Tools".to_string(), 200);
    assert_eq!(r.err(), Some(AppError::DuplicateCategory));
    assert_eq!(AppError::DuplicateCategory.status(), 409);
}

#[test]
fn deleted_category_name_still_blocks_reuse() {
    let mut store = Store::new();
    let c = CategoryService::create(&mut store, "Tools".to_string(), 100).expect("create");
    CategoryService::delete(&mut store, c.id, 150).expect("delete");
    let r = CategoryService::create(&mut store, "Tools".to_string(), 200);
    assert_eq!(r.err(), Some(AppError::DuplicateCategory));
}

#[test]
fn soft_delete_excludes_row_from_default_listing() {
    let mut store = Store::new();
    let c = CategoryService::create(&mut store, "Tools".to_string(), 100).expect("create");
    CategoryService::create(&mut store, "Toys".to_string(), 110).expect("create");
    CategoryService::delete(&mut store, c.id, 150).expect("delete");
    let (items, total_items, _) =
        CategoryService::get(&store, None, None, None, None).expect("list");
    assert_eq!(total_items, 1);
    assert_eq!(items.len(), 1);
    assert_eq!(items[0].name, "Toys");
}

#[test]
fn include_all_flag_reveals_deleted_rows() {
    let mut store = Store::new();
    let c = CategoryService::create(&mut store, "Tools".to_string(), 100).expect("create");
    CategoryService::delete(&mut store, c.id, 150).expect("delete");
    let (items, total_items, _) =
        CategoryService::get(&store, None, Some(true), None, None).expect("list");
    assert_eq!(total_items, 1);
    assert_eq!(items[0].state, DeleteState::Deleted(150));
    // A present-but-false flag does not reveal deleted rows.
    let (items, total_items, _) =
        CategoryService::get(&store, None, Some(false), None, None).expect("list");
    assert_eq!(total_items, 0);
    assert!(items.is_empty());
}

#[test]
fn delete_missing_category_not_found() {
    let mut store = Store::new();
    let r = CategoryService::delete(&mut store, 42, 100);
    assert_eq!(r.err(), Some(AppError::CategoryNotFound));
    assert_eq!(AppError::CategoryNotFound.status(), 400);
}

#[test]
fn delete_twice_fails_already_deleted() {
    let mut store = Store::new();
    let c = CategoryService::create(&mut store, "Tools".to_string(), 100).expect("create");
    CategoryService::delete(&mut store, c.id, 150).expect("first delete");
    let r = CategoryService::delete(&mut store, c.id, 160);
    assert_eq!(r.err(), Some(AppError::CategoryAlreadyDeleted));
}

#[test]
fn restore_active_category_fails() {
    let mut store = Store::new();
    let c = CategoryService::create(&mut store, "Tools".to_string(), 100).expect("create");
    let r = CategoryService::restore(&mut store, c.id);
    assert_eq!(r.err(), Some(AppError::CannotRestoreCategory));
    assert_eq!(AppError::CannotRestoreCategory.status(), 409);
}

#[test]
fn delete_then_restore_round_trip() {
    let mut store = Store::new();
    let c = CategoryService::create(&mut store, "Tools".to_string(), 100).expect("create");
    let (before, _, _) =
        CategoryService::get(&store, None, None, None, None).expect("list before");
    CategoryService::delete(&mut store, c.id, 150).expect("delete");
    CategoryService::restore(&mut store, c.id).expect("restore");
    let (after, _, _) = CategoryService::get(&store, None, None, None, None).expect("list after");
    assert_eq!(before.len(), after.len());
    assert_eq!(before[0].id, after[0].id);
    assert_eq!(before[0].name, after[0].name);
    assert_eq!(before[0].created_at, after[0].created_at);
    assert_eq!(before[0].updated_at, after[0].updated_at);
    assert_eq!(before[0].state, after[0].state);
}

#[test]
fn restore_missing_category_not_found() {
    let mut store = Store::new();
    let r = CategoryService::restore(&mut store, 7);
    assert_eq!(r.err(), Some(AppError::CategoryNotFound));
}

#[test]
fn keyword_filter_is_case_insensitive() {
    let mut store = Store::new();
    CategoryService::create(&mut store, "Power Tools".to_string(), 100).expect("create");
    CategoryService::create(&mut store, "Toys".to_string(), 110).expect("create");
    let (items, total_items, _) =
        CategoryService::get(&store, Some("TOOLS".to_string()), None, None, None).expect("list");
    assert_eq!(total_items, 1);
    assert_eq!(items[0].name, "Power Tools");
    let (items, _, _) =
        CategoryService::get(&store, Some("oy".to_string()), None, None, None).expect("list");
    assert_eq!(items.len(), 1);
    assert_eq!(items[0].name, "Toys");
}

#[test]
fn keyword_without_match_gives_empty_listing() {
    let mut store = Store::new();
    CategoryService::create(&mut store, "Tools".to_string(), 100).expect("create");
    let (items, total_items, total_pages) =
        CategoryService::get(&store, Some("garden".to_string()), None, None, None).expect("list");
    assert!(items.is_empty());
    assert_eq!(total_items, 0);
    assert_eq!(total_pages, 0);
}

#[test]
fn brand_create_list_delete_restore() {
    let mut store = Store::new();
    let b = BrandService::create(&mut store, "Acme".to_string(), 100).expect("create");
    assert_eq!(b.id, 1);
    let r = BrandService::create(&mut store, "Acme".to_string(), 110);
    assert_eq!(r.err(), Some(AppError::DuplicateBrand));
    BrandService::delete(&mut store, b.id, 150).expect("delete");
    let r = BrandService::delete(&mut store, b.id, 160);
    assert_eq!(r.err(), Some(AppError::BrandAlreadyDeleted));
    BrandService::restore(&mut store, b.id).expect("restore");
    let r = BrandService::restore(&mut store, b.id);
    assert_eq!(r.err(), Some(AppError::CannotRestoreBrand));
    let (items, _, _) = BrandService::get(&store, None, None, None, None).expect("list");
    assert_eq!(items.len(), 1);
    assert_eq!(items[0].name, "Acme");
}

#[test]
fn brand_delete_missing_not_found() {
    let mut store = Store::new();
    let r = BrandService::delete(&mut store, 9, 100);
    assert_eq!(r.err(), Some(AppError::BrandNotFound));
}

#[test]
fn hard_delete_removes_unreferenced_category() {
    let mut store = Store::new();
    let c = CategoryService::create(&mut store, "Tools".to_string(), 100).expect("create");
    let msg = CategoryService::hard_delete(&mut store, c.id).expect("hard delete");
    assert_eq!(msg, "Category deleted successfully");
    let (items, total_items, _) =
        CategoryService::get(&store, None, Some(true), None, None).expect("list");
    assert!(items.is_empty());
    assert_eq!(total_items, 0);
}

#[test]
fn hard_delete_missing_category_reports_success() {
    let mut store = Store::new();
    let msg = CategoryService::hard_delete(&mut store, 42).expect("hard delete");
    assert_eq!(msg, "Category deleted successfully");
}

#[test]
fn hard_delete_refuses_referenced_category() {
    let mut store = Store::new();
    let c = CategoryService::create(&mut store, "Tools".to_string(), 100).expect("category");
    let b = BrandService::create(&mut store, "Acme".to_string(), 100).expect("brand");
    ProductService::create(&mut store, "Hammer".to_string(), 10, 5, c.id, b.id, None, 120)
        .expect("product");
    let r = CategoryService::hard_delete(&mut store, c.id);
    assert_eq!(r.err(), Some(AppError::ServerError));
}
