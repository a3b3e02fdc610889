//! The error taxonomy shared by every component, with its mapping to
//! transport-level status codes and user-facing messages.
use vstd::prelude::*;

verus! {

/// Every failure a component can report. Components return these typed
/// values; only the boundary layer turns them into a transport response.
#[derive(Clone, Copy, Debug, PartialEq, Eq, Structural)]
pub enum AppError {
    // Internal failures
    ServerError,
    HashingFailure,
    WorkerUnavailable,
    // Authentication failures
    DuplicateUsername,
    DuplicateEmail,
    WrongCredentials,
    InvalidToken,
    TokenExpired,
    TokenMalformed,
    TokenSignatureInvalid,
    UserNotFound,
    // Query failures
    InvalidPage,
    InvalidSize,
    // Category failures
    DuplicateCategory,
    CategoryNotFound,
    CategoryAlreadyDeleted,
    CannotRestoreCategory,
    // Brand failures
    DuplicateBrand,
    BrandNotFound,
    BrandAlreadyDeleted,
    CannotRestoreBrand,
    // Product failures
    ProductAlreadyCreated,
    ProductNotFound,
    ProductAlreadyDeleted,
    CannotRestoreProduct,
    InvalidStockAmount,
    InvalidPrice,
    // Cart failures
    InvalidQuantity,
    InsufficientStock,
}

/// Result type used by every internal component.
pub type ApiResult<T> = Result<T, AppError>;

/// The HTTP status that the boundary layer reports for each error kind:
/// validation and not-found failures map to 400, conflicts to 409,
/// authentication failures to 401, and internal failures to 500.
pub open spec fn spec_status(e: AppError) -> u16 {
    match e {
        AppError::ServerError => 500,
        AppError::HashingFailure => 500,
        AppError::WorkerUnavailable => 500,
        AppError::DuplicateUsername => 409,
        AppError::DuplicateEmail => 409,
        AppError::WrongCredentials => 401,
        AppError::InvalidToken => 401,
        AppError::TokenExpired => 401,
        AppError::TokenMalformed => 401,
        AppError::TokenSignatureInvalid => 401,
        AppError::UserNotFound => 400,
        AppError::InvalidPage => 400,
        AppError::InvalidSize => 400,
        AppError::DuplicateCategory => 409,
        AppError::CategoryNotFound => 400,
        AppError::CategoryAlreadyDeleted => 409,
        AppError::CannotRestoreCategory => 409,
        AppError::DuplicateBrand => 409,
        AppError::BrandNotFound => 400,
        AppError::BrandAlreadyDeleted => 409,
        AppError::CannotRestoreBrand => 409,
        AppError::ProductAlreadyCreated => 409,
        AppError::ProductNotFound => 400,
        AppError::ProductAlreadyDeleted => 409,
        AppError::CannotRestoreProduct => 409,
        AppError::InvalidStockAmount => 400,
        AppError::InvalidPrice => 400,
        AppError::InvalidQuantity => 400,
        AppError::InsufficientStock => 400,
    }
}

pub open spec fn spec_message(e: AppError) -> Seq<char> {
    match e {
        AppError::ServerError => "Server error. Sorry for the inconvenience"@,
        AppError::HashingFailure => "Password hashing failed"@,
        AppError::WorkerUnavailable => "Worker pool unavailable"@,
        AppError::DuplicateUsername => "Username is alread taken"@,
        AppError::DuplicateEmail => "Email is already registered"@,
        AppError::WrongCredentials => "Please check your email or password"@,
        AppError::InvalidToken => "Invalid token!"@,
        AppError::TokenExpired => "Token has expired"@,
        AppError::TokenMalformed => "Token is malformed"@,
        AppError::TokenSignatureInvalid => "Token signature is invalid"@,
        AppError::UserNotFound => "User not found"@,
        AppError::InvalidPage => "Page cannot be 0 or lower"@,
        AppError::InvalidSize => "Size cannot be 0 or lower"@,
        AppError::DuplicateCategory => "Category already created"@,
        AppError::CategoryNotFound => "Category not found"@,
        AppError::CategoryAlreadyDeleted => "Category already deleted"@,
        AppError::CannotRestoreCategory => "Category cannot be restored"@,
        AppError::DuplicateBrand => "Brand already created"@,
        AppError::BrandNotFound => "Brand not found"@,
        AppError::BrandAlreadyDeleted => "Brand already deleted"@,
        AppError::CannotRestoreBrand => "Brand cannot be restored"@,
        AppError::ProductAlreadyCreated => "Product already created"@,
        AppError::ProductNotFound => "Product not found"@,
        AppError::ProductAlreadyDeleted => "Product already deleted"@,
        AppError::CannotRestoreProduct => "Product cannot be restored"@,
        AppError::InvalidStockAmount => "Invalid stock amount"@,
        AppError::InvalidPrice => "Invalid price"@,
        AppError::InvalidQuantity => "Invalid quantity"@,
        AppError::InsufficientStock => "Insufficient stock"@,
    }
}

impl AppError {
    /// The HTTP status the boundary layer must use for this error.
    pub fn status(&self) -> (r: u16)
        ensures
            r == spec_status(*self),
    {
        match self {
            AppError::ServerError => 500,
            AppError::HashingFailure => 500,
            AppError::WorkerUnavailable => 500,
            AppError::DuplicateUsername => 409,
            AppError::DuplicateEmail => 409,
            AppError::WrongCredentials => 401,
            AppError::InvalidToken => 401,
            AppError::TokenExpired => 401,
            AppError::TokenMalformed => 401,
            AppError::TokenSignatureInvalid => 401,
            AppError::UserNotFound => 400,
            AppError::InvalidPage => 400,
            AppError::InvalidSize => 400,
            AppError::DuplicateCategory => 409,
            AppError::CategoryNotFound => 400,
            AppError::CategoryAlreadyDeleted => 409,
            AppError::CannotRestoreCategory => 409,
            AppError::DuplicateBrand => 409,
            AppError::BrandNotFound => 400,
            AppError::BrandAlreadyDeleted => 409,
            AppError::CannotRestoreBrand => 409,
            AppError::ProductAlreadyCreated => 409,
            AppError::ProductNotFound => 400,
            AppError::ProductAlreadyDeleted => 409,
            AppError::CannotRestoreProduct => 409,
            AppError::InvalidStockAmount => 400,
            AppError::InvalidPrice => 400,
            AppError::InvalidQuantity => 400,
            AppError::InsufficientStock => 400,
        }
    }

    /// The user-facing message for this error; the boundary layer embeds it
    /// in the `{success: false, message}` envelope.
    pub fn message(&self) -> (r: &'static str)
        ensures
            r@ == spec_message(*self),
    {
        match self {
            AppError::ServerError => "Server error. Sorry for the inconvenience",
            AppError::HashingFailure => "Password hashing failed",
            AppError::WorkerUnavailable => "Worker pool unavailable",
            AppError::DuplicateUsername => "Username is alread taken",
            AppError::DuplicateEmail => "Email is already registered",
            AppError::WrongCredentials => "Please check your email or password",
            AppError::InvalidToken => "Invalid token!",
            AppError::TokenExpired => "Token has expired",
            AppError::TokenMalformed => "Token is malformed",
            AppError::TokenSignatureInvalid => "Token signature is invalid",
            AppError::UserNotFound => "User not found",
            AppError::InvalidPage => "Page cannot be 0 or lower",
            AppError::InvalidSize => "Size cannot be 0 or lower",
            AppError::DuplicateCategory => "Category already created",
            AppError::CategoryNotFound => "Category not found",
            AppError::CategoryAlreadyDeleted => "Category already deleted",
            AppError::CannotRestoreCategory => "Category cannot be restored",
            AppError::DuplicateBrand => "Brand already created",
            AppError::BrandNotFound => "Brand not found",
            AppError::BrandAlreadyDeleted => "Brand already deleted",
            AppError::CannotRestoreBrand => "Brand cannot be restored",
            AppError::ProductAlreadyCreated => "Product already created",
            AppError::ProductNotFound => "Product not found",
            AppError::ProductAlreadyDeleted => "Product already deleted",
            AppError::CannotRestoreProduct => "Product cannot be restored",
            AppError::InvalidStockAmount => "Invalid stock amount",
            AppError::InvalidPrice => "Invalid price",
            AppError::InvalidQuantity => "Invalid quantity",
            AppError::InsufficientStock => "Insufficient stock",
        }
    }

    /// The full boundary mapping: status code plus message, the typed form
    /// of the transport error envelope.
    pub fn to_parts(&self) -> (r: (u16, &'static str))
        ensures
            r.0 == spec_status(*self),
            r.1@ == spec_message(*self),
    {
        (self.status(), self.message())
    }
}

} // verus!
