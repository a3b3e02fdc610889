//! The referential validator: pure pre-mutation checks that referenced
//! entities exist and are active and that numeric fields are in range.
//! Callers run these before any write and abort the write on failure.
use vstd::prelude::*;

use crate::engine::{has_active_row, row_is_active};
use crate::errors::{ApiResult, AppError};
use crate::store::Store;

verus! {

/// A product may only reference a category and a brand that exist and
/// are active at validation time; the category is checked first.
pub fn validate_product_refs(store: &Store, category_id: i32, brand_id: i32) -> (r: ApiResult<()>)
    requires
        store.wf(),
    ensures
        !has_active_row(store.categories@, category_id) ==> r == Err::<(), AppError>(
            AppError::CategoryNotFound,
        ),
        has_active_row(store.categories@, category_id) && !has_active_row(store.brands@, brand_id)
            ==> r == Err::<(), AppError>(AppError::BrandNotFound),
        has_active_row(store.categories@, category_id) && has_active_row(store.brands@, brand_id)
            ==> r == Ok::<(), AppError>(()),
{
    if !row_is_active(&store.categories, category_id) {
        return Err(AppError::CategoryNotFound);
    }
    if !row_is_active(&store.brands, brand_id) {
        return Err(AppError::BrandNotFound);
    }
    Ok(())
}

/// Stock and price must both be at least 1; the stock is checked
/// first.
pub fn validate_stock_and_price(stock: i32, price: i32) -> (r: ApiResult<()>)
    ensures
        stock < 1 ==> r == Err::<(), AppError>(AppError::InvalidStockAmount),
        stock >= 1 && price < 1 ==> r == Err::<(), AppError>(AppError::InvalidPrice),
        stock >= 1 && price >= 1 ==> r == Ok::<(), AppError>(()),
{
    if stock < 1 {
        return Err(AppError::InvalidStockAmount);
    }
    if price < 1 {
        return Err(AppError::InvalidPrice);
    }
    Ok(())
}

/// A cart quantity must be at least 1 and no more than the referenced
/// product's stock at the time of the write.
pub fn validate_cart_quantity(quantity: i32, product_stock: i32) -> (r: ApiResult<()>)
    ensures
        quantity < 1 ==> r == Err::<(), AppError>(AppError::InvalidQuantity),
        quantity >= 1 && quantity > product_stock ==> r == Err::<(), AppError>(
            AppError::InsufficientStock,
        ),
        1 <= quantity <= product_stock ==> r == Ok::<(), AppError>(()),
{
    if quantity < 1 {
        return Err(AppError::InvalidQuantity);
    }
    if quantity > product_stock {
        return Err(AppError::InsufficientStock);
    }
    Ok(())
}

} // verus!
