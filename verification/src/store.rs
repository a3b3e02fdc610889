//! The repository the core components write to and read from: one
//! in-memory table per entity, with the well-formedness every operation
//! preserves. The surrounding process syncs these tables with whatever
//! durable storage it uses; the components here never see that.
use vstd::prelude::*;

use crate::engine::{has_row_id, unique_row_ids};
use crate::entities::{CartLine, CatalogRow, Product, User};

verus! {

/// Every row id of a catalog table is at least 1 and below the table's
/// next free id.
pub open spec fn rows_bounded(rows: Seq<CatalogRow>, next: i32) -> bool {
    forall|j: int| 0 <= j < rows.len() ==> 1 <= #[trigger] rows[j].id < next
}

pub open spec fn has_product_id(ps: Seq<Product>, id: i32) -> bool {
    exists|j: int| 0 <= j < ps.len() && #[trigger] ps[j].id == id
}

/// The index of the product carrying `id`; meaningful when product ids
/// are unique.
pub open spec fn product_index(ps: Seq<Product>, id: i32) -> int {
    choose|j: int| 0 <= j < ps.len() && #[trigger] ps[j].id == id
}

pub open spec fn has_user_id(us: Seq<User>, id: i32) -> bool {
    exists|j: int| 0 <= j < us.len() && #[trigger] us[j].id == id
}

pub open spec fn user_index(us: Seq<User>, id: i32) -> int {
    choose|j: int| 0 <= j < us.len() && #[trigger] us[j].id == id
}

/// The product table is well-formed: ids unique and bounded, every
/// price and stock at least 1, and every category and brand reference
/// points at a row that exists (active or not).
pub open spec fn products_wf(
    ps: Seq<Product>,
    next: i32,
    cats: Seq<CatalogRow>,
    brands: Seq<CatalogRow>,
) -> bool {
    &&& forall|i: int, j: int|
        #![trigger ps[i].id, ps[j].id]
        0 <= i < j < ps.len() ==> ps[i].id != ps[j].id
    &&& forall|j: int| 0 <= j < ps.len() ==> 1 <= #[trigger] ps[j].id < next
    &&& forall|j: int| 0 <= j < ps.len() ==> #[trigger] ps[j].price >= 1
    &&& forall|j: int| 0 <= j < ps.len() ==> #[trigger] ps[j].stock >= 1
    &&& forall|j: int| 0 <= j < ps.len() ==> has_row_id(cats, #[trigger] ps[j].category_id)
    &&& forall|j: int| 0 <= j < ps.len() ==> has_row_id(brands, #[trigger] ps[j].brand_id)
}

/// The user table is well-formed: ids unique and bounded.
pub open spec fn users_wf(us: Seq<User>, next: i32) -> bool {
    &&& forall|i: int, j: int|
        #![trigger us[i].id, us[j].id]
        0 <= i < j < us.len() ==> us[i].id != us[j].id
    &&& forall|j: int| 0 <= j < us.len() ==> 1 <= #[trigger] us[j].id < next
}

/// At most one cart line per (user, product) pair.
pub open spec fn pairs_unique(cs: Seq<CartLine>) -> bool {
    forall|i: int, j: int|
        #![trigger cs[i].user_id, cs[j].user_id]
        0 <= i < j < cs.len() ==> !(cs[i].user_id == cs[j].user_id && cs[i].product_id
            == cs[j].product_id)
}

/// Some cart line carries this (user, product) pair.
pub open spec fn has_pair(cs: Seq<CartLine>, user_id: i32, product_id: i32) -> bool {
    exists|j: int|
        0 <= j < cs.len() && #[trigger] cs[j].user_id == user_id && cs[j].product_id == product_id
}

/// The index of the line carrying this pair; meaningful under
/// [`pairs_unique`].
pub open spec fn pair_index(cs: Seq<CartLine>, user_id: i32, product_id: i32) -> int {
    choose|j: int|
        0 <= j < cs.len() && #[trigger] cs[j].user_id == user_id && cs[j].product_id == product_id
}

/// The cart table is well-formed: ids unique and bounded, at most one
/// line per (user, product) pair, every quantity at least 1, and every
/// line referencing a product and a user that exist.
pub open spec fn carts_wf(cs: Seq<CartLine>, next: i32, ps: Seq<Product>, us: Seq<User>) -> bool {
    &&& forall|i: int, j: int|
        #![trigger cs[i].id, cs[j].id]
        0 <= i < j < cs.len() ==> cs[i].id != cs[j].id
    &&& forall|j: int| 0 <= j < cs.len() ==> 1 <= #[trigger] cs[j].id < next
    &&& pairs_unique(cs)
    &&& forall|j: int| 0 <= j < cs.len() ==> #[trigger] cs[j].quantity >= 1
    &&& forall|j: int| 0 <= j < cs.len() ==> has_product_id(ps, #[trigger] cs[j].product_id)
    &&& forall|j: int| 0 <= j < cs.len() ==> has_user_id(us, #[trigger] cs[j].user_id)
}

/// The in-memory repository: one table per entity plus the next free id
/// of each.
pub struct Store {
    pub categories: Vec<CatalogRow>,
    pub brands: Vec<CatalogRow>,
    pub products: Vec<Product>,
    pub users: Vec<User>,
    pub carts: Vec<CartLine>,
    pub next_category_id: i32,
    pub next_brand_id: i32,
    pub next_product_id: i32,
    pub next_user_id: i32,
    pub next_cart_id: i32,
}

impl Store {
    /// Well-formedness of the whole repository; established by [`Store::new`]
    /// and preserved by every operation of the services.
    pub open spec fn wf(self) -> bool {
        &&& unique_row_ids(self.categories@)
        &&& rows_bounded(self.categories@, self.next_category_id)
        &&& unique_row_ids(self.brands@)
        &&& rows_bounded(self.brands@, self.next_brand_id)
        &&& products_wf(self.products@, self.next_product_id, self.categories@, self.brands@)
        &&& users_wf(self.users@, self.next_user_id)
        &&& carts_wf(self.carts@, self.next_cart_id, self.products@, self.users@)
        &&& self.next_category_id >= 1
        &&& self.next_brand_id >= 1
        &&& self.next_product_id >= 1
        &&& self.next_user_id >= 1
        &&& self.next_cart_id >= 1
    }

    /// An empty repository.
    pub fn new() -> (r: Store)
        ensures
            r.wf(),
            r.categories@.len() == 0,
            r.brands@.len() == 0,
            r.products@.len() == 0,
            r.users@.len() == 0,
            r.carts@.len() == 0,
            r.next_category_id == 1,
            r.next_brand_id == 1,
            r.next_product_id == 1,
            r.next_user_id == 1,
            r.next_cart_id == 1,
    {
        Store {
            categories: Vec::new(),
            brands: Vec::new(),
            products: Vec::new(),
            users: Vec::new(),
            carts: Vec::new(),
            next_category_id: 1,
            next_brand_id: 1,
            next_product_id: 1,
            next_user_id: 1,
            next_cart_id: 1,
        }
    }
}

/// Everything outside the category table and its id counter is the same
/// in both stores.
pub open spec fn agrees_outside_categories(a: Store, b: Store) -> bool {
    &&& a.brands == b.brands
    &&& a.products == b.products
    &&& a.users == b.users
    &&& a.carts == b.carts
    &&& a.next_brand_id == b.next_brand_id
    &&& a.next_product_id == b.next_product_id
    &&& a.next_user_id == b.next_user_id
    &&& a.next_cart_id == b.next_cart_id
}

/// Everything outside the brand table and its id counter is the same in
/// both stores.
pub open spec fn agrees_outside_brands(a: Store, b: Store) -> bool {
    &&& a.categories == b.categories
    &&& a.products == b.products
    &&& a.users == b.users
    &&& a.carts == b.carts
    &&& a.next_category_id == b.next_category_id
    &&& a.next_product_id == b.next_product_id
    &&& a.next_user_id == b.next_user_id
    &&& a.next_cart_id == b.next_cart_id
}

/// Everything outside the product table and its id counter is the same
/// in both stores.
pub open spec fn agrees_outside_products(a: Store, b: Store) -> bool {
    &&& a.categories == b.categories
    &&& a.brands == b.brands
    &&& a.users == b.users
    &&& a.carts == b.carts
    &&& a.next_category_id == b.next_category_id
    &&& a.next_brand_id == b.next_brand_id
    &&& a.next_user_id == b.next_user_id
    &&& a.next_cart_id == b.next_cart_id
}

/// Everything outside the user table and its id counter is the same in
/// both stores.
pub open spec fn agrees_outside_users(a: Store, b: Store) -> bool {
    &&& a.categories == b.categories
    &&& a.brands == b.brands
    &&& a.products == b.products
    &&& a.carts == b.carts
    &&& a.next_category_id == b.next_category_id
    &&& a.next_brand_id == b.next_brand_id
    &&& a.next_product_id == b.next_product_id
    &&& a.next_cart_id == b.next_cart_id
}

/// Everything outside the cart table and its id counter is the same in
/// both stores.
pub open spec fn agrees_outside_carts(a: Store, b: Store) -> bool {
    &&& a.categories == b.categories
    &&& a.brands == b.brands
    &&& a.products == b.products
    &&& a.users == b.users
    &&& a.next_category_id == b.next_category_id
    &&& a.next_brand_id == b.next_brand_id
    &&& a.next_product_id == b.next_product_id
    &&& a.next_user_id == b.next_user_id
}

/// Find the position of the product carrying `id`.
pub fn find_product_index(ps: &Vec<Product>, id: i32) -> (r: Option<usize>)
    ensures
        match r {
            Some(i) => i < ps@.len() && ps@[i as int].id == id,
            None => !has_product_id(ps@, id),
        },
{
    let mut i: usize = 0;
    while i < ps.len()
        invariant
            i <= ps@.len(),
            forall|k: int| 0 <= k < i ==> #[trigger] ps@[k].id != id,
        decreases ps@.len() - i,
    {
        if ps[i].id == id {
            return Some(i);
        }
        i = i + 1;
    }
    None
}

/// Find the position of the user carrying `id`.
pub fn find_user_index(us: &Vec<User>, id: i32) -> (r: Option<usize>)
    ensures
        match r {
            Some(i) => i < us@.len() && us@[i as int].id == id,
            None => !has_user_id(us@, id),
        },
{
    let mut i: usize = 0;
    while i < us.len()
        invariant
            i <= us@.len(),
            forall|k: int| 0 <= k < i ==> #[trigger] us@[k].id != id,
        decreases us@.len() - i,
    {
        if us[i].id == id {
            return Some(i);
        }
        i = i + 1;
    }
    None
}

} // verus!
