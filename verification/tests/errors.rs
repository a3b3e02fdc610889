use catalog_core::catalog::CategoryService;
use catalog_core::errors::AppError;
use catalog_core::store::Store;

#[test]
fn statuses_follow_the_error_taxonomy() {
    // Validation and not-found failures are 400.
    assert_eq!(AppError::InvalidPage.status(), 400);
    assert_eq!(AppError::InvalidSize.status(), 400);
    assert_eq!(AppError::InvalidQuantity.status(), 400);
    assert_eq!(AppError::InvalidPrice.status(), 400);
    assert_eq!(AppError::InvalidStockAmount.status(), 400);
    assert_eq!(AppError::InsufficientStock.status(), 400);
    assert_eq!(AppError::CategoryNotFound.status(), 400);
    assert_eq!(AppError::BrandNotFound.status(), 400);
    assert_eq!(AppError::ProductNotFound.status(), 400);
    assert_eq!(AppError::UserNotFound.status(), 400);
    // Conflicts are 409.
    assert_eq!(AppError::DuplicateCategory.status(), 409);
    assert_eq!(AppError::DuplicateBrand.status(), 409);
    assert_eq!(AppError::ProductAlreadyCreated.status(), 409);
    assert_eq!(AppError::CategoryAlreadyDeleted.status(), 409);
    assert_eq!(AppError::BrandAlreadyDeleted.status(), 409);
    assert_eq!(AppError::ProductAlreadyDeleted.status(), 409);
    assert_eq!(AppError::CannotRestoreCategory.status(), 409);
    assert_eq!(AppError::CannotRestoreBrand.status(), 409);
    assert_eq!(AppError::CannotRestoreProduct.status(), 409);
    // Authentication failures are 401.
    assert_eq!(AppError::WrongCredentials.status(), 401);
    assert_eq!(AppError::InvalidToken.status(), 401);
    assert_eq!(AppError::TokenExpired.status(), 401);
    assert_eq!(AppError::TokenMalformed.status(), 401);
    assert_eq!(AppError::TokenSignatureInvalid.status(), 401);
    // Internal failures are 500.
    assert_eq!(AppError::ServerError.status(), 500);
    assert_eq!(AppError::HashingFailure.status(), 500);
    assert_eq!(AppError::WorkerUnavailable.status(), 500);
}

#[test]
fn messages_are_the_user_facing_strings() {
    assert_eq!(AppError::DuplicateUsername.message(), "Username is alread taken");
    assert_eq!(AppError::WrongCredentials.message(), "Please check your email or password");
    assert_eq!(AppError::InvalidPage.message(), "Page cannot be 0 or lower");
    assert_eq!(AppError::InvalidSize.message(), "Size cannot be 0 or lower");
    assert_eq!(AppError::CategoryNotFound.message(), "Category not found");
    assert_eq!(AppError::ServerError.message(), "Server error. Sorry for the inconvenience");
    let (status, message) = AppError::DuplicateCategory.to_parts();
    assert_eq!(status, 409);
    assert_eq!(message, "Category already created");
}

#[test]
fn exhausted_id_space_is_an_internal_failure() {
    let mut store = Store::new();
    store.next_category_id = i32::MAX;
    let r = CategoryService::create(&mut store, "Tools".to_string(), 100);
    assert_eq!(r.err(), Some(AppError::ServerError));
}
