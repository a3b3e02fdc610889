//! The product service: creation guarded by the referential validator,
//! listing joined against category and brand names, partial update, and
//! the soft-delete state machine over the product table.
use vstd::prelude::*;

use crate::engine::{
    all_flag, ceil_div, effective_page0, effective_size, find_row_index, has_active_row,
    has_row_id, include_all_of, keyword_view, page_matcher, page_slice, paging_valid, row_index,
    size_matcher,
};
use crate::entities::{DeleteState, Product};
use crate::errors::{ApiResult, AppError};
use crate::store::{
    agrees_outside_products, find_product_index, has_product_id, product_index, Store,
};
use crate::text::{keyword_matches, name_matches_keyword};

verus! {

/// One joined listing row: the product's own columns plus the names of
/// its category and brand.
pub struct ProductData {
    pub id: i32,
    pub brand_id: i32,
    pub category_id: i32,
    pub name: String,
    pub description: Option<String>,
    pub price: i32,
    pub stock: i32,
    pub brand_name: String,
    pub category_name: String,
}

impl Clone for ProductData {
    fn clone(&self) -> (r: Self)
        ensures
            r == *self,
    {
        ProductData {
            id: self.id,
            brand_id: self.brand_id,
            category_id: self.category_id,
            name: self.name.clone(),
            description: (match &self.description {
                Some(d) => Some(d.clone()),
                None => None,
            }),
            price: self.price,
            stock: self.stock,
            brand_name: self.brand_name.clone(),
            category_name: self.category_name.clone(),
        }
    }
}

/// The fields a partial product update may change; an absent field is
/// left as it was.
pub struct UpdateProductData {
    pub name: Option<String>,
    pub price: Option<i32>,
    pub stock: Option<i32>,
    pub description: Option<String>,
    pub category_id: Option<i32>,
    pub brand_id: Option<i32>,
}

/// Some product already carries this exact name, whatever its delete
/// state.
pub open spec fn product_name_taken(ps: Seq<Product>, name: Seq<char>) -> bool {
    exists|j: int| 0 <= j < ps.len() && #[trigger] ps[j].name@ == name
}

fn any_product_named(ps: &Vec<Product>, name: &String) -> (r: bool)
    ensures
        r == product_name_taken(ps@, name@),
{
    let mut i: usize = 0;
    while i < ps.len()
        invariant
            i <= ps@.len(),
            forall|k: int| 0 <= k < i ==> #[trigger] ps@[k].name@ != name@,
        decreases ps@.len() - i,
    {
        if ps[i].name == *name {
            return true;
        }
        i = i + 1;
    }
    false
}

/// The listing filter over products, the same rule every catalog
/// resource uses.
pub open spec fn product_admitted(p: Product, kw: Option<Seq<char>>, include_all: bool) -> bool {
    (include_all || p.state is Active) && (match kw {
        Some(k) => keyword_matches(p.name@, k),
        None => true,
    })
}

/// The products admitted by the listing filter, in their stored order.
pub open spec fn filter_products(ps: Seq<Product>, kw: Option<Seq<char>>, include_all: bool) -> Seq<
    Product,
>
    decreases ps.len(),
{
    if ps.len() == 0 {
        Seq::empty()
    } else {
        let prefix = filter_products(ps.drop_last(), kw, include_all);
        if product_admitted(ps.last(), kw, include_all) {
            prefix.push(ps.last())
        } else {
            prefix
        }
    }
}

pub proof fn lemma_filter_products_len(ps: Seq<Product>, kw: Option<Seq<char>>, include_all: bool)
    ensures
        filter_products(ps, kw, include_all).len() <= ps.len(),
    decreases ps.len(),
{
    if ps.len() > 0 {
        lemma_filter_products_len(ps.drop_last(), kw, include_all);
    }
}

/// Every filtered product is one of the table's products.
pub proof fn lemma_filter_products_elems(ps: Seq<Product>, kw: Option<Seq<char>>, include_all: bool)
    ensures
        forall|j: int|
            0 <= j < filter_products(ps, kw, include_all).len() ==> exists|k: int|
                0 <= k < ps.len() && #[trigger] filter_products(ps, kw, include_all)[j] == ps[k],
    decreases ps.len(),
{
    if ps.len() > 0 {
        lemma_filter_products_elems(ps.drop_last(), kw, include_all);
        let whole = filter_products(ps, kw, include_all);
        let prefix = filter_products(ps.drop_last(), kw, include_all);
        assert forall|j: int| 0 <= j < whole.len() implies exists|k: int|
            0 <= k < ps.len() && #[trigger] whole[j] == ps[k] by {
            if j < prefix.len() {
                let k = choose|k: int|
                    0 <= k < ps.drop_last().len() && #[trigger] prefix[j] == ps.drop_last()[k];
                assert(whole[j] == ps[k]);
            } else {
                assert(whole[j] == ps[ps.len() - 1]);
            }
        }
    }
}

fn filter_products_vec(ps: &Vec<Product>, keyword: &Option<String>, include_all: bool) -> (r: Vec<
    Product,
>)
    ensures
        r@ == filter_products(ps@, keyword_view(*keyword), include_all),
{
    let ghost kwv = keyword_view(*keyword);
    let mut out: Vec<Product> = Vec::new();
    let mut i: usize = 0;
    while i < ps.len()
        invariant
            i <= ps@.len(),
            kwv == keyword_view(*keyword),
            out@ == filter_products(ps@.subrange(0, i as int), kwv, include_all),
        decreases ps@.len() - i,
    {
        let p = &ps[i];
        let active_ok = include_all || p.state.is_active();
        let kw_ok = match keyword {
            Some(k) => name_matches_keyword(p.name.as_str(), k.as_str()),
            None => true,
        };
        if active_ok && kw_ok {
            out.push(p.clone());
        }
        proof {
            let pre = ps@.subrange(0, i as int);
            let cur = ps@.subrange(0, i + 1 as int);
            assert(cur.drop_last() =~= pre);
            assert(cur.last() == ps@[i as int]);
        }
        i = i + 1;
    }
    proof {
        assert(ps@.subrange(0, ps@.len() as int) =~= ps@);
    }
    out
}

fn paginate_products(ps: &Vec<Product>, page0: u64, size: u64) -> (r: Vec<Product>)
    requires
        page0 <= 0x7fff_fffe,
        1 <= size <= 0x7fff_ffff,
    ensures
        r@ == page_slice(ps@, page0 as int, size as int),
{
    proof {
        assert(page0 * size <= 0x7fff_fffe * 0x7fff_ffff) by (nonlinear_arith)
            requires
                page0 <= 0x7fff_fffe,
                1 <= size <= 0x7fff_ffff,
        ;
    }
    let off: u64 = page0 * size;
    let len_u: u64 = ps.len() as u64;
    let mut out: Vec<Product> = Vec::new();
    if off >= len_u {
        return out;
    }
    let start: usize = off as usize;
    let end: usize = if len_u - off >= size {
        start + (size as usize)
    } else {
        ps.len()
    };
    let ghost offi: int = page0 as int * size as int;
    proof {
        assert(offi == off as int);
    }
    let mut j: usize = start;
    while j < end
        invariant
            start <= j <= end <= ps@.len(),
            start as int == offi,
            out@ == ps@.subrange(offi, j as int),
        decreases end - j,
    {
        out.push(ps[j].clone());
        proof {
            assert(out@ =~= ps@.subrange(offi, j + 1 as int));
        }
        j = j + 1;
    }
    proof {
        assert(out@ =~= page_slice(ps@, page0 as int, size as int));
    }
    out
}

/// A product joined to the names of its category and brand, with the
/// names looked up by id whatever their delete state.
pub open spec fn joined_product(p: Product, cats: Seq<crate::entities::CatalogRow>, brands: Seq<
    crate::entities::CatalogRow,
>) -> ProductData {
    ProductData {
        id: p.id,
        brand_id: p.brand_id,
        category_id: p.category_id,
        name: p.name,
        description: p.description,
        price: p.price,
        stock: p.stock,
        brand_name: brands[row_index(brands, p.brand_id)].name,
        category_name: cats[row_index(cats, p.category_id)].name,
    }
}

/// Why a product write is rejected, in the order the checks run: stock,
/// price, category reference, brand reference, duplicate name, id
/// space.
pub open spec fn product_create_error(
    store: Store,
    name: Seq<char>,
    price: i32,
    stock: i32,
    category_id: i32,
    brand_id: i32,
) -> Option<AppError> {
    if stock < 1 {
        Some(AppError::InvalidStockAmount)
    } else if price < 1 {
        Some(AppError::InvalidPrice)
    } else if !has_active_row(store.categories@, category_id) {
        Some(AppError::CategoryNotFound)
    } else if !has_active_row(store.brands@, brand_id) {
        Some(AppError::BrandNotFound)
    } else if product_name_taken(store.products@, name) {
        Some(AppError::ProductAlreadyCreated)
    } else if store.next_product_id == i32::MAX {
        Some(AppError::ServerError)
    } else {
        None
    }
}

/// Why a partial update is rejected, in the order the checks run:
/// missing row, deleted row, category reference, brand reference,
/// price, stock.
pub open spec fn product_update_error(store: Store, id: i32, u: UpdateProductData) -> Option<
    AppError,
> {
    if !has_product_id(store.products@, id) {
        Some(AppError::ProductNotFound)
    } else if !(store.products@[product_index(store.products@, id)].state is Active) {
        Some(AppError::ProductAlreadyDeleted)
    } else if u.category_id matches Some(c) && !has_active_row(store.categories@, c) {
        Some(AppError::CategoryNotFound)
    } else if u.brand_id matches Some(b) && !has_active_row(store.brands@, b) {
        Some(AppError::BrandNotFound)
    } else if u.price matches Some(p) && p < 1 {
        Some(AppError::InvalidPrice)
    } else if u.stock matches Some(s) && s < 1 {
        Some(AppError::InvalidStockAmount)
    } else {
        None
    }
}

/// The row a successful update leaves behind: present fields replace
/// the old ones, an absent description is kept, and `updated_at` moves
/// to the update instant.
pub open spec fn apply_update(p: Product, u: UpdateProductData, now: i64) -> Product {
    Product {
        id: p.id,
        name: (match u.name {
            Some(n) => n,
            None => p.name,
        }),
        description: (match u.description {
            Some(d) => Some(d),
            None => p.description,
        }),
        price: (match u.price {
            Some(x) => x,
            None => p.price,
        }),
        stock: (match u.stock {
            Some(x) => x,
            None => p.stock,
        }),
        category_id: (match u.category_id {
            Some(c) => c,
            None => p.category_id,
        }),
        brand_id: (match u.brand_id {
            Some(b) => b,
            None => p.brand_id,
        }),
        created_at: p.created_at,
        updated_at: now,
        state: p.state,
    }
}

/// The same product with another delete state; nothing else changes.
pub open spec fn with_product_state(p: Product, st: DeleteState) -> Product {
    Product {
        id: p.id,
        name: p.name,
        description: p.description,
        price: p.price,
        stock: p.stock,
        category_id: p.category_id,
        brand_id: p.brand_id,
        created_at: p.created_at,
        updated_at: p.updated_at,
        state: st,
    }
}

/// The soft-delete transition over the product table.
pub open spec fn spec_product_soft_delete(ps: Seq<Product>, id: i32, now: i64) -> (
    Result<(), AppError>,
    Seq<Product>,
) {
    if !has_product_id(ps, id) {
        (Err(AppError::ProductNotFound), ps)
    } else {
        let j = product_index(ps, id);
        if ps[j].state is Active {
            (Ok(()), ps.update(j, with_product_state(ps[j], DeleteState::Deleted(now))))
        } else {
            (Err(AppError::ProductAlreadyDeleted), ps)
        }
    }
}

/// The restore transition over the product table.
pub open spec fn spec_product_restore(ps: Seq<Product>, id: i32) -> (
    Result<(), AppError>,
    Seq<Product>,
) {
    if !has_product_id(ps, id) {
        (Err(AppError::ProductNotFound), ps)
    } else {
        let j = product_index(ps, id);
        if ps[j].state is Active {
            (Err(AppError::CannotRestoreProduct), ps)
        } else {
            (Ok(()), ps.update(j, with_product_state(ps[j], DeleteState::Active)))
        }
    }
}

/// Product resource operations.
pub struct ProductService;

impl ProductService {
    /// Create a product after validating stock, price, both references
    /// and name uniqueness, in that order.
    pub fn create(
        store: &mut Store,
        name: String,
        price: i32,
        stock: i32,
        category_id: i32,
        brand_id: i32,
        description: Option<String>,
        now: i64,
    ) -> (r: ApiResult<Product>)
        requires
            old(store).wf(),
        ensures
            final(store).wf(),
            agrees_outside_products(*final(store), *old(store)),
            product_create_error(*old(store), name@, price, stock, category_id, brand_id) matches Some(e)
                ==> r == Err::<Product, AppError>(e) && *final(store) == *old(store),
            product_create_error(*old(store), name@, price, stock, category_id, brand_id) is None
                ==> (r matches Ok(p) && p.id == old(store).next_product_id && p.name@ == name@
                && p.description == description && p.price == price && p.stock == stock
                && p.category_id == category_id && p.brand_id == brand_id && p.created_at == now
                && p.updated_at == now && p.state == DeleteState::Active
                && final(store).products@ == old(store).products@.push(p)
                && final(store).next_product_id == old(store).next_product_id + 1),
    {
        if let Err(e) = crate::validate::validate_stock_and_price(stock, price) {
            return Err(e);
        }
        if let Err(e) = crate::validate::validate_product_refs(store, category_id, brand_id) {
            return Err(e);
        }
        if any_product_named(&store.products, &name) {
            return Err(AppError::ProductAlreadyCreated);
        }
        if store.next_product_id == i32::MAX {
            return Err(AppError::ServerError);
        }
        let id = store.next_product_id;
        let p = Product {
            id,
            name,
            description,
            price,
            stock,
            category_id,
            brand_id,
            created_at: now,
            updated_at: now,
            state: DeleteState::Active,
        };
        let created = p.clone();
        store.products.push(p);
        store.next_product_id = id + 1;
        proof {
            let cats = store.categories@;
            let brands = store.brands@;
            assert(has_row_id(cats, category_id)) by {
                let j = choose|j: int|
                    0 <= j < cats.len() && #[trigger] cats[j].id == category_id && cats[j].state
                        is Active;
                assert(cats[j].id == category_id);
            }
            assert(has_row_id(brands, brand_id)) by {
                let j = choose|j: int|
                    0 <= j < brands.len() && #[trigger] brands[j].id == brand_id && brands[j].state
                        is Active;
                assert(brands[j].id == brand_id);
            }
            assert forall|k: int| 0 <= k < store.carts@.len() implies has_product_id(
                store.products@,
                #[trigger] store.carts@[k].product_id,
            ) by {
                assert(has_product_id(old(store).products@, store.carts@[k].product_id));
                let m = choose|m: int|
                    0 <= m < old(store).products@.len() && #[trigger] old(store).products@[m].id
                        == store.carts@[k].product_id;
                assert(store.products@[m].id == store.carts@[k].product_id);
            }
        }
        Ok(created)
    }

    /// List products joined to their category and brand names, with the
    /// engine's filter and pagination semantics.
    pub fn find(
        store: &Store,
        keyword: Option<String>,
        page: Option<i32>,
        size: Option<i32>,
        all: Option<bool>,
    ) -> (r: ApiResult<(Vec<ProductData>, u64, u64)>)
        requires
            store.wf(),
        ensures
            size matches Some(s) && s <= 0 ==> r == Err::<(Vec<ProductData>, u64, u64), AppError>(
                AppError::InvalidSize,
            ),
            ((size is None || (size matches Some(s) && s >= 1)) && (page matches Some(p) && p
                <= 0)) ==> r == Err::<(Vec<ProductData>, u64, u64), AppError>(AppError::InvalidPage),
            paging_valid(page, size) ==> (r matches Ok(t) && t.0@ == page_slice(
                filter_products(store.products@, keyword_view(keyword), include_all_of(all)),
                effective_page0(page),
                effective_size(size),
            ).map_values(
                |p: Product| joined_product(p, store.categories@, store.brands@),
            ) && t.1 == filter_products(
                store.products@,
                keyword_view(keyword),
                include_all_of(all),
            ).len() && t.2 == ceil_div(
                filter_products(store.products@, keyword_view(keyword), include_all_of(all)).len() as int,
                effective_size(size),
            )),
    {
        let include_all = all_flag(all);
        let size_v = match size_matcher(size) {
            Ok(s) => s,
            Err(e) => {
                return Err(e);
            },
        };
        let page_v = match page_matcher(page) {
            Ok(p) => p,
            Err(e) => {
                return Err(e);
            },
        };
        let ghost kwv = keyword_view(keyword);
        let filtered = filter_products_vec(&store.products, &keyword, include_all);
        proof {
            lemma_filter_products_len(store.products@, kwv, include_all);
            lemma_filter_products_elems(store.products@, kwv, include_all);
        }
        let total_items: u64 = filtered.len() as u64;
        let total_pages: u64 = if total_items == 0 {
            0
        } else {
            (total_items - 1) / size_v + 1
        };
        proof {
            if total_items > 0 {
                assert((total_items - 1) as int / size_v as int + 1 == ceil_div(
                    total_items as int,
                    size_v as int,
                )) by (nonlinear_arith)
                    requires
                        1 <= total_items,
                        1 <= size_v,
                ;
            }
        }
        let page_items = paginate_products(&filtered, page_v, size_v);
        proof {
            lemma_page_slice_bounds_products(filtered@, page_v as int, size_v as int);
            assert forall|k: int| 0 <= k < page_items@.len() implies has_row_id(
                store.categories@,
                #[trigger] page_items@[k].category_id,
            ) && has_row_id(store.brands@, page_items@[k].brand_id) by {
                assert(page_items@[k] == filtered@[page_v as int * size_v as int + k]);
                let m = choose|m: int|
                    0 <= m < store.products@.len() && #[trigger] filtered@[page_v as int
                        * size_v as int + k] == store.products@[m];
            }
        }
        let ghost f = |p: Product| joined_product(p, store.categories@, store.brands@);
        let mut data: Vec<ProductData> = Vec::new();
        let mut i: usize = 0;
        while i < page_items.len()
            invariant
                store.wf(),
                i <= page_items@.len(),
                f == (|p: Product| joined_product(p, store.categories@, store.brands@)),
                forall|k: int|
                    0 <= k < page_items@.len() ==> has_row_id(
                        store.categories@,
                        #[trigger] page_items@[k].category_id,
                    ) && has_row_id(store.brands@, page_items@[k].brand_id),
                data@ == page_items@.subrange(0, i as int).map_values(f),
            decreases page_items@.len() - i,
        {
            let p = &page_items[i];
            let ci = match find_row_index(&store.categories, p.category_id) {
                Some(c) => c,
                None => {
                    proof {
                        assert(has_row_id(store.categories@, page_items@[i as int].category_id));
                    }
                    vstd::pervasive::unreached::<usize>()
                },
            };
            let bi = match find_row_index(&store.brands, p.brand_id) {
                Some(b) => b,
                None => {
                    proof {
                        assert(has_row_id(store.brands@, page_items@[i as int].brand_id));
                    }
                    vstd::pervasive::unreached::<usize>()
                },
            };
            let row = ProductData {
                id: p.id,
                brand_id: p.brand_id,
                category_id: p.category_id,
                name: p.name.clone(),
                description: (match &p.description {
                    Some(d) => Some(d.clone()),
                    None => None,
                }),
                price: p.price,
                stock: p.stock,
                brand_name: store.brands[bi].name.clone(),
                category_name: store.categories[ci].name.clone(),
            };
            proof {
                let pv = page_items@[i as int];
                let jc = row_index(store.categories@, pv.category_id);
                assert(0 <= jc < store.categories@.len() && store.categories@[jc].id
                    == pv.category_id);
                assert(jc == ci);
                let jb = row_index(store.brands@, pv.brand_id);
                assert(0 <= jb < store.brands@.len() && store.brands@[jb].id == pv.brand_id);
                assert(jb == bi);
                assert(row == f(pv));
            }
            data.push(row);
            proof {
                assert(data@ =~= page_items@.subrange(0, i + 1 as int).map_values(f));
            }
            i = i + 1;
        }
        proof {
            assert(page_items@.subrange(0, page_items@.len() as int) =~= page_items@);
        }
        Ok((data, total_items, total_pages))
    }

    /// Apply a partial update to an active product; every present field
    /// is validated before anything is written.
    pub fn update(store: &mut Store, id: i32, update_data: UpdateProductData, now: i64) -> (r:
        ApiResult<()>)
        requires
            old(store).wf(),
        ensures
            final(store).wf(),
            agrees_outside_products(*final(store), *old(store)),
            final(store).next_product_id == old(store).next_product_id,
            product_update_error(*old(store), id, update_data) matches Some(e) ==> r == Err::<
                (),
                AppError,
            >(e) && *final(store) == *old(store),
            product_update_error(*old(store), id, update_data) is None ==> r == Ok::<(), AppError>(
                (),
            ) && final(store).products@ == old(store).products@.update(
                product_index(old(store).products@, id),
                apply_update(
                    old(store).products@[product_index(old(store).products@, id)],
                    update_data,
                    now,
                ),
            ),
    {
        let idx = match find_product_index(&store.products, id) {
            None => {
                return Err(AppError::ProductNotFound);
            },
            Some(i) => i,
        };
        proof {
            let j = product_index(store.products@, id);
            assert(0 <= j < store.products@.len() && store.products@[j].id == id);
            assert(j == idx);
        }
        if !store.products[idx].state.is_active() {
            return Err(AppError::ProductAlreadyDeleted);
        }
        let UpdateProductData { name, price, stock, description, category_id, brand_id } =
            update_data;
        if let Some(c) = category_id {
            if !crate::engine::row_is_active(&store.categories, c) {
                return Err(AppError::CategoryNotFound);
            }
        }
        if let Some(b) = brand_id {
            if !crate::engine::row_is_active(&store.brands, b) {
                return Err(AppError::BrandNotFound);
            }
        }
        if let Some(x) = price {
            if x < 1 {
                return Err(AppError::InvalidPrice);
            }
        }
        if let Some(x) = stock {
            if x < 1 {
                return Err(AppError::InvalidStockAmount);
            }
        }
        let prev = store.products.remove(idx);
        let updated = Product {
            id: prev.id,
            name: (match name {
                Some(n) => n,
                None => prev.name,
            }),
            description: (match description {
                Some(d) => Some(d),
                None => prev.description,
            }),
            price: (match price {
                Some(x) => x,
                None => prev.price,
            }),
            stock: (match stock {
                Some(x) => x,
                None => prev.stock,
            }),
            category_id: (match category_id {
                Some(c) => c,
                None => prev.category_id,
            }),
            brand_id: (match brand_id {
                Some(b) => b,
                None => prev.brand_id,
            }),
            created_at: prev.created_at,
            updated_at: now,
            state: prev.state,
        };
        store.products.insert(idx, updated);
        proof {
            assert(store.products@ =~= old(store).products@.update(
                idx as int,
                apply_update(old(store).products@[idx as int], update_data, now),
            ));
            lemma_product_ids_pointwise(old(store).products@, store.products@);
            if category_id is Some {
                let c = category_id->0;
                assert(has_row_id(store.categories@, c)) by {
                    let j = choose|j: int|
                        0 <= j < store.categories@.len() && #[trigger] store.categories@[j].id == c
                            && store.categories@[j].state is Active;
                }
            }
            if brand_id is Some {
                let b = brand_id->0;
                assert(has_row_id(store.brands@, b)) by {
                    let j = choose|j: int|
                        0 <= j < store.brands@.len() && #[trigger] store.brands@[j].id == b
                            && store.brands@[j].state is Active;
                }
            }
        }
        Ok(())
    }

    /// Soft-delete a product.
    pub fn delete(store: &mut Store, id: i32, now: i64) -> (r: ApiResult<()>)
        requires
            old(store).wf(),
        ensures
            final(store).wf(),
            agrees_outside_products(*final(store), *old(store)),
            final(store).next_product_id == old(store).next_product_id,
            r == spec_product_soft_delete(old(store).products@, id, now).0,
            final(store).products@ == spec_product_soft_delete(old(store).products@, id, now).1,
    {
        let idx = match find_product_index(&store.products, id) {
            None => {
                return Err(AppError::ProductNotFound);
            },
            Some(i) => i,
        };
        proof {
            let j = product_index(store.products@, id);
            assert(0 <= j < store.products@.len() && store.products@[j].id == id);
            assert(j == idx);
        }
        let active = store.products[idx].state.is_active();
        if !active {
            return Err(AppError::ProductAlreadyDeleted);
        }
        let prev = store.products.remove(idx);
        let updated = Product { state: DeleteState::Deleted(now), ..prev };
        store.products.insert(idx, updated);
        proof {
            assert(store.products@ =~= old(store).products@.update(
                idx as int,
                with_product_state(old(store).products@[idx as int], DeleteState::Deleted(now)),
            ));
            lemma_product_ids_pointwise(old(store).products@, store.products@);
        }
        Ok(())
    }

    /// Restore a soft-deleted product.
    pub fn restore(store: &mut Store, id: i32) -> (r: ApiResult<()>)
        requires
            old(store).wf(),
        ensures
            final(store).wf(),
            agrees_outside_products(*final(store), *old(store)),
            final(store).next_product_id == old(store).next_product_id,
            r == spec_product_restore(old(store).products@, id).0,
            final(store).products@ == spec_product_restore(old(store).products@, id).1,
    {
        let idx = match find_product_index(&store.products, id) {
            None => {
                return Err(AppError::ProductNotFound);
            },
            Some(i) => i,
        };
        proof {
            let j = product_index(store.products@, id);
            assert(0 <= j < store.products@.len() && store.products@[j].id == id);
            assert(j == idx);
        }
        let active = store.products[idx].state.is_active();
        if active {
            return Err(AppError::CannotRestoreProduct);
        }
        let prev = store.products.remove(idx);
        let updated = Product { state: DeleteState::Active, ..prev };
        store.products.insert(idx, updated);
        proof {
            assert(store.products@ =~= old(store).products@.update(
                idx as int,
                with_product_state(old(store).products@[idx as int], DeleteState::Active),
            ));
            lemma_product_ids_pointwise(old(store).products@, store.products@);
        }
        Ok(())
    }
}

/// After an index-preserving rewrite of the product table, every id
/// lookup answers as before.
proof fn lemma_product_ids_pointwise(ps1: Seq<Product>, ps2: Seq<Product>)
    requires
        ps1.len() == ps2.len(),
        forall|k: int| 0 <= k < ps1.len() ==> #[trigger] ps1[k].id == ps2[k].id,
    ensures
        forall|x: i32| has_product_id(ps1, x) == has_product_id(ps2, x),
{
    assert forall|x: i32| has_product_id(ps1, x) == has_product_id(ps2, x) by {
        if has_product_id(ps1, x) {
            let j = choose|j: int| 0 <= j < ps1.len() && #[trigger] ps1[j].id == x;
            assert(ps2[j].id == x);
        }
        if has_product_id(ps2, x) {
            let j = choose|j: int| 0 <= j < ps2.len() && #[trigger] ps2[j].id == x;
            assert(ps1[j].id == x);
        }
    }
}

/// `page_slice` bounds for product sequences, used by the join.
proof fn lemma_page_slice_bounds_products(s: Seq<Product>, page0: int, size: int)
    requires
        page0 >= 0,
        size >= 1,
    ensures
        page_slice(s, page0, size).len() <= size,
        forall|j: int|
            0 <= j < page_slice(s, page0, size).len() ==> page_slice(s, page0, size)[j] == s[page0
                * size + j],
{
    crate::engine::lemma_page_slice_bounds::<Product>(s, page0, size);
}

/// Deleting a product twice fails the second time: the soft-delete API
/// is not idempotent.
pub proof fn lemma_product_delete_twice_fails(ps: Seq<Product>, id: i32, now: i64, now2: i64)
    requires
        forall|i: int, j: int|
            #![trigger ps[i].id, ps[j].id]
            0 <= i < j < ps.len() ==> ps[i].id != ps[j].id,
        spec_product_soft_delete(ps, id, now).0 == Ok::<(), AppError>(()),
    ensures
        spec_product_soft_delete(spec_product_soft_delete(ps, id, now).1, id, now2).0 == Err::<
            (),
            AppError,
        >(AppError::ProductAlreadyDeleted),
{
    let j = product_index(ps, id);
    let ps1 = spec_product_soft_delete(ps, id, now).1;
    assert(ps1[j].id == id);
    assert(has_product_id(ps1, id));
    let j1 = product_index(ps1, id);
    assert(0 <= j1 < ps1.len() && ps1[j1].id == id);
    assert(j1 == j);
}

/// Round trip over the product table: a successful soft delete followed
/// by a restore of the same id returns the table to exactly its prior
/// state.
pub proof fn lemma_product_delete_then_restore_round_trip(ps: Seq<Product>, id: i32, now: i64)
    requires
        forall|i: int, j: int|
            #![trigger ps[i].id, ps[j].id]
            0 <= i < j < ps.len() ==> ps[i].id != ps[j].id,
        spec_product_soft_delete(ps, id, now).0 == Ok::<(), AppError>(()),
    ensures
        spec_product_restore(spec_product_soft_delete(ps, id, now).1, id).0 == Ok::<(), AppError>(
            (),
        ),
        spec_product_restore(spec_product_soft_delete(ps, id, now).1, id).1 == ps,
{
    let j = product_index(ps, id);
    let ps1 = spec_product_soft_delete(ps, id, now).1;
    assert(ps1[j].id == id);
    assert(has_product_id(ps1, id));
    let j1 = product_index(ps1, id);
    assert(0 <= j1 < ps1.len() && ps1[j1].id == id);
    assert(j1 == j);
    let ps2 = spec_product_restore(ps1, id).1;
    let row_j = ps[j];
    assert(with_product_state(with_product_state(row_j, DeleteState::Deleted(now)), DeleteState::Active)
        == row_j);
    assert(ps2 =~= ps);
}

} // verus!
