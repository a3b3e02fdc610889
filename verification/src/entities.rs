//! The data model: users, catalog rows (categories and brands), products
//! and cart lines, with soft deletion made explicit as a two-state tag.
use vstd::prelude::*;

verus! {

/// Whether a row is live. Soft deletion is a tagged state, not a nullable
/// column: a row is either active or deleted at a known time. The nullable
/// form exists only at presentation boundaries.
#[derive(Clone, Copy, Debug, PartialEq, Eq, Structural)]
pub enum DeleteState {
    Active,
    Deleted(i64),
}

impl DeleteState {
    /// Whether the row is live.
    pub fn is_active(&self) -> (r: bool)
        ensures
            r == (*self is Active),
    {
        match self {
            DeleteState::Active => true,
            DeleteState::Deleted(_) => false,
        }
    }

    /// The nullable-timestamp form used at storage and presentation
    /// boundaries.
    pub fn as_timestamp(&self) -> (r: Option<i64>)
        ensures
            r == (match *self {
                DeleteState::Active => None::<i64>,
                DeleteState::Deleted(at) => Some(at),
            }),
    {
        match self {
            DeleteState::Active => None,
            DeleteState::Deleted(at) => Some(*at),
        }
    }
}

/// A registered account. Users are never soft-deleted.
pub struct User {
    pub id: i32,
    pub username: String,
    pub email: String,
    pub password: String,
    pub created_at: i64,
    pub updated_at: i64,
}

impl Clone for User {
    fn clone(&self) -> (r: Self)
        ensures
            r == *self,
    {
        User {
            id: self.id,
            username: self.username.clone(),
            email: self.email.clone(),
            password: self.password.clone(),
            created_at: self.created_at,
            updated_at: self.updated_at,
        }
    }
}

/// The shape shared by categories and brands: an identified, uniquely
/// named row that can be soft-deleted and restored.
pub struct CatalogRow {
    pub id: i32,
    pub name: String,
    pub created_at: i64,
    pub updated_at: i64,
    pub state: DeleteState,
}

impl Clone for CatalogRow {
    fn clone(&self) -> (r: Self)
        ensures
            r == *self,
    {
        CatalogRow {
            id: self.id,
            name: self.name.clone(),
            created_at: self.created_at,
            updated_at: self.updated_at,
            state: self.state,
        }
    }
}

/// A product: a catalog row that additionally carries a price, a stock
/// level, an optional description and references to a category and a
/// brand that were active when the reference was written.
pub struct Product {
    pub id: i32,
    pub name: String,
    pub description: Option<String>,
    pub price: i32,
    pub stock: i32,
    pub category_id: i32,
    pub brand_id: i32,
    pub created_at: i64,
    pub updated_at: i64,
    pub state: DeleteState,
}

impl Clone for Product {
    fn clone(&self) -> (r: Self)
        ensures
            r == *self,
    {
        Product {
            id: self.id,
            name: self.name.clone(),
            description: (match &self.description {
                Some(d) => Some(d.clone()),
                None => None,
            }),
            price: self.price,
            stock: self.stock,
            category_id: self.category_id,
            brand_id: self.brand_id,
            created_at: self.created_at,
            updated_at: self.updated_at,
            state: self.state,
        }
    }
}

/// One line of a user's cart: at most one line per (user, product) pair.
#[derive(Clone, Copy, Debug, PartialEq, Eq, Structural)]
pub struct CartLine {
    pub id: i32,
    pub user_id: i32,
    pub product_id: i32,
    pub quantity: i32,
    pub created_at: i64,
    pub updated_at: i64,
}

/// Which branch an upsert took: a new line was inserted, or an existing
/// line was overwritten.
#[derive(Clone, Copy, Debug, PartialEq, Eq, Structural)]
pub enum UpsertOutcome {
    Created,
    Updated,
}

impl UpsertOutcome {
    /// The message the boundary layer reports for each branch.
    pub fn message(&self) -> (r: &'static str)
        ensures
            *self == UpsertOutcome::Created ==> r@ == "Cart created successfully!"@,
            *self == UpsertOutcome::Updated ==> r@ == "Cart updated successfully!"@,
    {
        match self {
            UpsertOutcome::Created => "Cart created successfully!",
            UpsertOutcome::Updated => "Cart updated successfully!",
        }
    }
}

} // verus!
