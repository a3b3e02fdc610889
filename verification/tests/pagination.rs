use catalog_core::engine::{page_matcher, size_matcher};
use catalog_core::catalog::CategoryService;
use catalog_core::errors::AppError;
use catalog_core::store::Store;

fn store_with_categories(n: i32) -> Store {
    let mut store = Store::new();
    for i in 1..=n {
        CategoryService::create(&mut store, format!("category-{:03}", i), 1000 + i as i64)
            .expect("create should succeed");
    }
    store
}

#[test]
fn page_matcher_defaults_to_first_page() {
    assert_eq!(page_matcher(None), Ok(0));
    assert_eq!(page_matcher(Some(1)), Ok(0));
    assert_eq!(page_matcher(Some(5)), Ok(4));
}

#[test]
fn page_matcher_rejects_zero_and_negative() {
    assert_eq!(page_matcher(Some(0)), Err(AppError::InvalidPage));
    assert_eq!(page_matcher(Some(-3)), Err(AppError::InvalidPage));
}

#[test]
fn size_matcher_defaults_to_ten() {
    assert_eq!(size_matcher(None), Ok(10));
    assert_eq!(size_matcher(Some(25)), Ok(25));
}

#[test]
fn size_matcher_rejects_zero_and_negative() {
    assert_eq!(size_matcher(Some(0)), Err(AppError::InvalidSize));
    assert_eq!(size_matcher(Some(-1)), Err(AppError::InvalidSize));
}

#[test]
fn list_returns_at_most_size_items_and_skips_offset() {
    let store = store_with_categories(25);
    let (items, total_items, total_pages) =
        CategoryService::get(&store, None, None, Some(2), Some(10)).expect("list should succeed");
    assert_eq!(total_items, 25);
    assert_eq!(total_pages, 3);
    assert_eq!(items.len(), 10);
    // offset = (2 - 1) * 10: rows 11..=20 in stored order.
    assert_eq!(items[0].name, "category-011");
    assert_eq!(items[9].name, "category-020");
}

#[test]
fn list_last_page_is_short() {
    let store = store_with_categories(25);
    let (items, total_items, total_pages) =
        CategoryService::get(&store, None, None, Some(3), Some(10)).expect("list should succeed");
    assert_eq!(total_items, 25);
    assert_eq!(total_pages, 3);
    assert_eq!(items.len(), 5);
    assert_eq!(items[0].name, "category-021");
}

#[test]
fn list_page_beyond_end_is_empty() {
    let store = store_with_categories(3);
    let (items, total_items, total_pages) =
        CategoryService::get(&store, None, None, Some(9), Some(10)).expect("list should succeed");
    assert_eq!(total_items, 3);
    assert_eq!(total_pages, 1);
    assert!(items.is_empty());
}

#[test]
fn list_rejects_page_zero() {
    let store = store_with_categories(3);
    let r = CategoryService::get(&store, None, None, Some(0), Some(10));
    assert_eq!(r.err(), Some(AppError::InvalidPage));
}

#[test]
fn list_rejects_size_zero() {
    let store = store_with_categories(3);
    let r = CategoryService::get(&store, None, None, Some(1), Some(0));
    assert_eq!(r.err(), Some(AppError::InvalidSize));
}

#[test]
fn size_error_takes_precedence_in_catalog_listing() {
    let store = store_with_categories(3);
    let r = CategoryService::get(&store, None, None, Some(0), Some(0));
    assert_eq!(r.err(), Some(AppError::InvalidSize));
}

#[test]
fn total_pages_is_the_ceiling_of_items_over_size() {
    let store = store_with_categories(7);
    let (_, total_items, total_pages) =
        CategoryService::get(&store, None, None, Some(1), Some(3)).expect("list should succeed");
    assert_eq!(total_items, 7);
    assert_eq!(total_pages, 3);
    let (_, _, even_pages) =
        CategoryService::get(&store, None, None, Some(1), Some(7)).expect("list should succeed");
    assert_eq!(even_pages, 1);
}

#[test]
fn list_defaults_are_page_one_size_ten() {
    let store = store_with_categories(12);
    let (items, total_items, total_pages) =
        CategoryService::get(&store, None, None, None, None).expect("list should succeed");
    assert_eq!(items.len(), 10);
    assert_eq!(total_items, 12);
    assert_eq!(total_pages, 2);
    assert_eq!(items[0].name, "category-001");
}
