//! The cart aggregator: the upsert that keeps at most one line per
//! (user, product) pair, and the listing that joins each line to its
//! product, brand and category and computes the derived subtotal.
use vstd::prelude::*;

use crate::engine::{
    ceil_div, effective_page0, effective_size, find_row_index, has_row_id, page_matcher,
    page_slice, paging_valid, row_index, size_matcher,
};
use crate::entities::{CartLine, CatalogRow, DeleteState, Product, UpsertOutcome};
use crate::errors::{ApiResult, AppError};
use crate::store::{
    agrees_outside_carts, find_product_index, find_user_index, has_pair, has_product_id,
    has_user_id, pair_index, pairs_unique, product_index, Store,
};

verus! {

/// One joined cart row: the line, its product's columns, the product's
/// brand and category names, the derived subtotal, and the delete
/// timestamp of every joined entity so the caller can surface or block
/// unavailable lines.
pub struct CartData {
    pub id: i32,
    pub quantity: i32,
    pub product_id: i32,
    pub product_category: String,
    pub product_brand: String,
    pub product_name: String,
    pub product_price: i32,
    pub product_stock: i32,
    pub subtotal: i64,
    pub product_deleted_at: Option<i64>,
    pub brand_deleted_at: Option<i64>,
    pub category_deleted_at: Option<i64>,
}

impl Clone for CartData {
    fn clone(&self) -> (r: Self)
        ensures
            r == *self,
    {
        CartData {
            id: self.id,
            quantity: self.quantity,
            product_id: self.product_id,
            product_category: self.product_category.clone(),
            product_brand: self.product_brand.clone(),
            product_name: self.product_name.clone(),
            product_price: self.product_price,
            product_stock: self.product_stock,
            subtotal: self.subtotal,
            product_deleted_at: self.product_deleted_at,
            brand_deleted_at: self.brand_deleted_at,
            category_deleted_at: self.category_deleted_at,
        }
    }
}

/// The nullable-timestamp form of a delete state, as the listing
/// exposes it.
pub open spec fn timestamp_of(st: DeleteState) -> Option<i64> {
    match st {
        DeleteState::Active => None,
        DeleteState::Deleted(at) => Some(at),
    }
}

/// The lines of one user's cart, in their stored order.
pub open spec fn user_lines(cs: Seq<CartLine>, user_id: i32) -> Seq<CartLine>
    decreases cs.len(),
{
    if cs.len() == 0 {
        Seq::empty()
    } else {
        let prefix = user_lines(cs.drop_last(), user_id);
        if cs.last().user_id == user_id {
            prefix.push(cs.last())
        } else {
            prefix
        }
    }
}

proof fn lemma_user_lines_len(cs: Seq<CartLine>, user_id: i32)
    ensures
        user_lines(cs, user_id).len() <= cs.len(),
    decreases cs.len(),
{
    if cs.len() > 0 {
        lemma_user_lines_len(cs.drop_last(), user_id);
    }
}

/// One cart line joined to its product and the product's category and
/// brand; the subtotal is quantity times unit price, computed in 64
/// bits so it cannot overflow.
pub open spec fn joined_cart_line(
    c: CartLine,
    ps: Seq<Product>,
    cats: Seq<CatalogRow>,
    brands: Seq<CatalogRow>,
) -> CartData {
    let p = ps[product_index(ps, c.product_id)];
    let cat = cats[row_index(cats, p.category_id)];
    let b = brands[row_index(brands, p.brand_id)];
    CartData {
        id: c.id,
        quantity: c.quantity,
        product_id: c.product_id,
        product_category: cat.name,
        product_brand: b.name,
        product_name: p.name,
        product_price: p.price,
        product_stock: p.stock,
        subtotal: (c.quantity as int * p.price as int) as i64,
        product_deleted_at: timestamp_of(p.state),
        brand_deleted_at: timestamp_of(b.state),
        category_deleted_at: timestamp_of(cat.state),
    }
}

/// Why an upsert is rejected, in the order the checks run: missing
/// product, quantity under 1, quantity over the product's stock,
/// missing user, exhausted id space when a new line would be inserted.
pub open spec fn upsert_error(store: Store, user_id: i32, product_id: i32, quantity: i32) -> Option<
    AppError,
> {
    if !has_product_id(store.products@, product_id) {
        Some(AppError::ProductNotFound)
    } else if quantity < 1 {
        Some(AppError::InvalidQuantity)
    } else if quantity > store.products@[product_index(store.products@, product_id)].stock {
        Some(AppError::InsufficientStock)
    } else if !has_user_id(store.users@, user_id) {
        Some(AppError::UserNotFound)
    } else if !has_pair(store.carts@, user_id, product_id) && store.next_cart_id == i32::MAX {
        Some(AppError::ServerError)
    } else {
        None
    }
}

/// Which branch an upsert takes on this table.
pub open spec fn upsert_outcome_of(cs: Seq<CartLine>, user_id: i32, product_id: i32) -> UpsertOutcome {
    if has_pair(cs, user_id, product_id) {
        UpsertOutcome::Updated
    } else {
        UpsertOutcome::Created
    }
}

/// The cart table an accepted upsert leaves behind: the pair's line
/// overwritten in place, or a fresh line appended under `fresh_id`.
pub open spec fn upsert_lines(
    cs: Seq<CartLine>,
    fresh_id: i32,
    user_id: i32,
    product_id: i32,
    quantity: i32,
    now: i64,
) -> Seq<CartLine> {
    if has_pair(cs, user_id, product_id) {
        let j = pair_index(cs, user_id, product_id);
        cs.update(
            j,
            CartLine {
                id: cs[j].id,
                user_id: cs[j].user_id,
                product_id: cs[j].product_id,
                quantity,
                created_at: cs[j].created_at,
                updated_at: now,
            },
        )
    } else {
        cs.push(
            CartLine { id: fresh_id, user_id, product_id, quantity, created_at: now, updated_at: now },
        )
    }
}

/// Find the position of the line carrying this (user, product) pair.
fn find_pair_index(cs: &Vec<CartLine>, user_id: i32, product_id: i32) -> (r: Option<usize>)
    ensures
        match r {
            Some(i) => i < cs@.len() && cs@[i as int].user_id == user_id && cs@[i as int].product_id
                == product_id,
            None => !has_pair(cs@, user_id, product_id),
        },
{
    let mut i: usize = 0;
    while i < cs.len()
        invariant
            i <= cs@.len(),
            forall|k: int|
                0 <= k < i ==> !(#[trigger] cs@[k].user_id == user_id && cs@[k].product_id
                    == product_id),
        decreases cs@.len() - i,
    {
        if cs[i].user_id == user_id && cs[i].product_id == product_id {
            return Some(i);
        }
        i = i + 1;
    }
    None
}

fn paginate_cart_data(rows: &Vec<CartData>, page0: u64, size: u64) -> (r: Vec<CartData>)
    requires
        page0 <= 0x7fff_fffe,
        1 <= size <= 0x7fff_ffff,
    ensures
        r@ == page_slice(rows@, page0 as int, size as int),
{
    proof {
        assert(page0 * size <= 0x7fff_fffe * 0x7fff_ffff) by (nonlinear_arith)
            requires
                page0 <= 0x7fff_fffe,
                1 <= size <= 0x7fff_ffff,
        ;
    }
    let off: u64 = page0 * size;
    let len_u: u64 = rows.len() as u64;
    let mut out: Vec<CartData> = Vec::new();
    if off >= len_u {
        return out;
    }
    let start: usize = off as usize;
    let end: usize = if len_u - off >= size {
        start + (size as usize)
    } else {
        rows.len()
    };
    let ghost offi: int = page0 as int * size as int;
    proof {
        assert(offi == off as int);
    }
    let mut j: usize = start;
    while j < end
        invariant
            start <= j <= end <= rows@.len(),
            start as int == offi,
            out@ == rows@.subrange(offi, j as int),
        decreases end - j,
    {
        out.push(rows[j].clone());
        proof {
            assert(out@ =~= rows@.subrange(offi, j + 1 as int));
        }
        j = j + 1;
    }
    proof {
        assert(out@ =~= page_slice(rows@, page0 as int, size as int));
    }
    out
}

/// Cart operations.
pub struct CartService;

impl CartService {
    /// Insert or overwrite the line for (user, product): an upsert that
    /// reports which branch it took, never a quantity increment.
    pub fn create_or_update(
        store: &mut Store,
        user_id: i32,
        product_id: i32,
        quantity: i32,
        now: i64,
    ) -> (r: ApiResult<UpsertOutcome>)
        requires
            old(store).wf(),
        ensures
            final(store).wf(),
            agrees_outside_carts(*final(store), *old(store)),
            upsert_error(*old(store), user_id, product_id, quantity) matches Some(e) ==> r == Err::<
                UpsertOutcome,
                AppError,
            >(e) && *final(store) == *old(store),
            upsert_error(*old(store), user_id, product_id, quantity) is None ==> (r == Ok::<
                UpsertOutcome,
                AppError,
            >(upsert_outcome_of(old(store).carts@, user_id, product_id)) && final(store).carts@
                == upsert_lines(
                old(store).carts@,
                old(store).next_cart_id,
                user_id,
                product_id,
                quantity,
                now,
            ) && final(store).next_cart_id == (if has_pair(old(store).carts@, user_id, product_id) {
                old(store).next_cart_id as int
            } else {
                old(store).next_cart_id + 1
            })),
    {
        let pidx = match find_product_index(&store.products, product_id) {
            None => {
                return Err(AppError::ProductNotFound);
            },
            Some(i) => i,
        };
        proof {
            let j = product_index(store.products@, product_id);
            assert(0 <= j < store.products@.len() && store.products@[j].id == product_id);
            assert(j == pidx);
        }
        if let Err(e) = crate::validate::validate_cart_quantity(quantity, store.products[pidx].stock) {
            return Err(e);
        }
        if find_user_index(&store.users, user_id).is_none() {
            return Err(AppError::UserNotFound);
        }
        match find_pair_index(&store.carts, user_id, product_id) {
            None => {
                if store.next_cart_id == i32::MAX {
                    return Err(AppError::ServerError);
                }
                let id = store.next_cart_id;
                let line = CartLine {
                    id,
                    user_id,
                    product_id,
                    quantity,
                    created_at: now,
                    updated_at: now,
                };
                store.carts.push(line);
                store.next_cart_id = id + 1;
                proof {
                    assert forall|k: int| 0 <= k < store.carts@.len() implies has_product_id(
                        store.products@,
                        #[trigger] store.carts@[k].product_id,
                    ) && has_user_id(store.users@, store.carts@[k].user_id) by {
                        if k < old(store).carts@.len() {
                            assert(store.carts@[k] == old(store).carts@[k]);
                        } else {
                            assert(store.carts@[k] == line);
                            assert(store.products@[pidx as int].id == product_id);
                            assert(has_user_id(store.users@, user_id));
                        }
                    }
                }
                Ok(UpsertOutcome::Created)
            },
            Some(ci) => {
                proof {
                    assert(has_pair(store.carts@, user_id, product_id));
                    let j = pair_index(store.carts@, user_id, product_id);
                    assert(0 <= j < store.carts@.len() && store.carts@[j].user_id == user_id
                        && store.carts@[j].product_id == product_id);
                    assert(j == ci);
                }
                let prev = store.carts[ci];
                let line = CartLine {
                    id: prev.id,
                    user_id: prev.user_id,
                    product_id: prev.product_id,
                    quantity,
                    created_at: prev.created_at,
                    updated_at: now,
                };
                store.carts[ci] = line;
                proof {
                    assert(store.carts@ =~= upsert_lines(
                        old(store).carts@,
                        old(store).next_cart_id,
                        user_id,
                        product_id,
                        quantity,
                        now,
                    ));
                    assert forall|k: int| 0 <= k < store.carts@.len() implies has_product_id(
                        store.products@,
                        #[trigger] store.carts@[k].product_id,
                    ) && has_user_id(store.users@, store.carts@[k].user_id) by {
                        assert(store.carts@[k].product_id == old(store).carts@[k].product_id);
                        assert(store.carts@[k].user_id == old(store).carts@[k].user_id);
                    }
                }
                Ok(UpsertOutcome::Updated)
            },
        }
    }

    /// List one user's cart, each line joined to its product, brand and
    /// category, with the engine's pagination semantics. Page errors
    /// take precedence over size errors here, matching the order the
    /// parameters are read.
    pub fn get(store: &Store, user_id: i32, page: Option<i32>, size: Option<i32>) -> (r: ApiResult<
        (Vec<CartData>, u64, u64),
    >)
        requires
            store.wf(),
        ensures
            page matches Some(p) && p <= 0 ==> r == Err::<(Vec<CartData>, u64, u64), AppError>(
                AppError::InvalidPage,
            ),
            ((page is None || (page matches Some(p) && p >= 1)) && (size matches Some(s) && s
                <= 0)) ==> r == Err::<(Vec<CartData>, u64, u64), AppError>(AppError::InvalidSize),
            paging_valid(page, size) ==> (r matches Ok(t) && t.0@ == page_slice(
                user_lines(store.carts@, user_id),
                effective_page0(page),
                effective_size(size),
            ).map_values(
                |c: CartLine| joined_cart_line(c, store.products@, store.categories@, store.brands@),
            ) && t.1 == user_lines(store.carts@, user_id).len() && t.2 == ceil_div(
                user_lines(store.carts@, user_id).len() as int,
                effective_size(size),
            )),
    {
        let page_v = match page_matcher(page) {
            Ok(p) => p,
            Err(e) => {
                return Err(e);
            },
        };
        let size_v = match size_matcher(size) {
            Ok(s) => s,
            Err(e) => {
                return Err(e);
            },
        };
        let ghost f = |c: CartLine| joined_cart_line(
            c,
            store.products@,
            store.categories@,
            store.brands@,
        );
        let mut joined: Vec<CartData> = Vec::new();
        let mut i: usize = 0;
        while i < store.carts.len()
            invariant
                store.wf(),
                i <= store.carts@.len(),
                f == (|c: CartLine| joined_cart_line(
                    c,
                    store.products@,
                    store.categories@,
                    store.brands@,
                )),
                joined@ == user_lines(store.carts@.subrange(0, i as int), user_id).map_values(f),
            decreases store.carts@.len() - i,
        {
            let c = store.carts[i];
            if c.user_id == user_id {
                let row = Self::join_line(store, c);
                proof {
                    assert(row == f(c));
                }
                joined.push(row);
            }
            proof {
                let pre = store.carts@.subrange(0, i as int);
                let cur = store.carts@.subrange(0, i + 1 as int);
                assert(cur.drop_last() =~= pre);
                assert(cur.last() == store.carts@[i as int]);
                if store.carts@[i as int].user_id == user_id {
                    assert(joined@ =~= user_lines(cur, user_id).map_values(f));
                } else {
                    assert(joined@ =~= user_lines(cur, user_id).map_values(f));
                }
            }
            i = i + 1;
        }
        proof {
            assert(store.carts@.subrange(0, store.carts@.len() as int) =~= store.carts@);
            lemma_user_lines_len(store.carts@, user_id);
            assert(joined@.len() == user_lines(store.carts@, user_id).len());
        }
        let total_items: u64 = joined.len() as u64;
        let total_pages: u64 = if total_items == 0 {
            0
        } else {
            (total_items - 1) / size_v + 1
        };
        proof {
            if total_items > 0 {
                assert((total_items - 1) as int / size_v as int + 1 == ceil_div(
                    total_items as int,
                    size_v as int,
                )) by (nonlinear_arith)
                    requires
                        1 <= total_items,
                        1 <= size_v,
                ;
            }
        }
        let data = paginate_cart_data(&joined, page_v, size_v);
        proof {
            lemma_page_slice_map_commutes(
                user_lines(store.carts@, user_id),
                f,
                effective_page0(page),
                effective_size(size),
            );
        }
        Ok((data, total_items, total_pages))
    }

    /// Join one cart line against the product, category and brand
    /// tables.
    fn join_line(store: &Store, c: CartLine) -> (r: CartData)
        requires
            store.wf(),
            has_product_id(store.products@, c.product_id),
        ensures
            r == joined_cart_line(c, store.products@, store.categories@, store.brands@),
    {
        let pi = match find_product_index(&store.products, c.product_id) {
            Some(i) => i,
            None => {
                vstd::pervasive::unreached::<usize>()
            },
        };
        proof {
            let j = product_index(store.products@, c.product_id);
            assert(0 <= j < store.products@.len() && store.products@[j].id == c.product_id);
            assert(j == pi);
        }
        let p = &store.products[pi];
        let ci = match find_row_index(&store.categories, p.category_id) {
            Some(i) => i,
            None => {
                proof {
                    assert(has_row_id(store.categories@, store.products@[pi as int].category_id));
                }
                vstd::pervasive::unreached::<usize>()
            },
        };
        let bi = match find_row_index(&store.brands, p.brand_id) {
            Some(i) => i,
            None => {
                proof {
                    assert(has_row_id(store.brands@, store.products@[pi as int].brand_id));
                }
                vstd::pervasive::unreached::<usize>()
            },
        };
        proof {
            let pv = store.products@[pi as int];
            let jc = row_index(store.categories@, pv.category_id);
            assert(0 <= jc < store.categories@.len() && store.categories@[jc].id == pv.category_id);
            assert(jc == ci);
            let jb = row_index(store.brands@, pv.brand_id);
            assert(0 <= jb < store.brands@.len() && store.brands@[jb].id == pv.brand_id);
            assert(jb == bi);
            assert(-0x8000_0000_0000_0000 <= (c.quantity as int) * (p.price as int)
                < 0x8000_0000_0000_0000) by (nonlinear_arith)
                requires
                    -0x8000_0000 <= c.quantity <= 0x7fff_ffff,
                    0 <= p.price <= 0x7fff_ffff,
            ;
        }
        let subtotal: i64 = (c.quantity as i64) * (p.price as i64);
        let cat = &store.categories[ci];
        let b = &store.brands[bi];
        CartData {
            id: c.id,
            quantity: c.quantity,
            product_id: c.product_id,
            product_category: cat.name.clone(),
            product_brand: b.name.clone(),
            product_name: p.name.clone(),
            product_price: p.price,
            product_stock: p.stock,
            subtotal,
            product_deleted_at: p.state.as_timestamp(),
            brand_deleted_at: b.state.as_timestamp(),
            category_deleted_at: cat.state.as_timestamp(),
        }
    }
}

/// Taking a page of a mapped listing is mapping the page: the join can
/// run before or after pagination.
proof fn lemma_page_slice_map_commutes(
    s: Seq<CartLine>,
    f: spec_fn(CartLine) -> CartData,
    page0: int,
    size: int,
)
    requires
        page0 >= 0,
        size >= 1,
    ensures
        page_slice(s.map_values(f), page0, size) == page_slice(s, page0, size).map_values(f),
{
    assert(page0 * size >= 0) by (nonlinear_arith)
        requires
            page0 >= 0,
            size >= 1,
    ;
    assert(page_slice(s.map_values(f), page0, size) =~= page_slice(s, page0, size).map_values(f));
}

// ---------------------------------------------------------------------
// Laws of the upsert
// ---------------------------------------------------------------------

/// An accepted upsert keeps (user, product) pairs unique and leaves
/// exactly one line for the written pair, holding the written
/// quantity.
pub proof fn lemma_upsert_keeps_pairs(
    cs: Seq<CartLine>,
    fresh_id: i32,
    user_id: i32,
    product_id: i32,
    quantity: i32,
    now: i64,
)
    requires
        pairs_unique(cs),
    ensures
        pairs_unique(upsert_lines(cs, fresh_id, user_id, product_id, quantity, now)),
        has_pair(upsert_lines(cs, fresh_id, user_id, product_id, quantity, now), user_id, product_id),
        ({
            let cs1 = upsert_lines(cs, fresh_id, user_id, product_id, quantity, now);
            cs1[pair_index(cs1, user_id, product_id)].quantity == quantity
        }),
{
    let cs1 = upsert_lines(cs, fresh_id, user_id, product_id, quantity, now);
    if has_pair(cs, user_id, product_id) {
        let j = pair_index(cs, user_id, product_id);
        assert(cs1[j].user_id == user_id && cs1[j].product_id == product_id);
        assert(cs1[j].quantity == quantity);
        let j1 = pair_index(cs1, user_id, product_id);
        assert(0 <= j1 < cs1.len() && cs1[j1].user_id == user_id && cs1[j1].product_id
            == product_id);
        assert(j1 == j);
    } else {
        let j = cs1.len() - 1;
        assert(cs1[j].user_id == user_id && cs1[j].product_id == product_id);
        assert(cs1[j].quantity == quantity);
        assert forall|i: int, k: int|
            #![trigger cs1[i].user_id, cs1[k].user_id]
            0 <= i < k < cs1.len() implies !(cs1[i].user_id == cs1[k].user_id && cs1[i].product_id
            == cs1[k].product_id) by {
            if k == cs1.len() - 1 {
                assert(cs1[i] == cs[i]);
                if cs1[i].user_id == user_id && cs1[i].product_id == product_id {
                    assert(has_pair(cs, user_id, product_id));
                }
            }
        }
        let j1 = pair_index(cs1, user_id, product_id);
        assert(0 <= j1 < cs1.len() && cs1[j1].user_id == user_id && cs1[j1].product_id
            == product_id);
        assert(j1 == j);
    }
}

/// A quantity between 1 and the referenced product's stock — the stock
/// itself included — is accepted: with the product and user present
/// and the id space open, the upsert rejects nothing, and the pair's
/// line afterwards holds exactly the written quantity.
pub proof fn lemma_upsert_within_stock_succeeds(
    store: Store,
    user_id: i32,
    product_id: i32,
    quantity: i32,
    now: i64,
)
    requires
        store.wf(),
        has_product_id(store.products@, product_id),
        1 <= quantity <= store.products@[product_index(store.products@, product_id)].stock,
        has_user_id(store.users@, user_id),
        has_pair(store.carts@, user_id, product_id) || store.next_cart_id < i32::MAX,
    ensures
        upsert_error(store, user_id, product_id, quantity) is None,
        ({
            let cs1 = upsert_lines(
                store.carts@,
                store.next_cart_id,
                user_id,
                product_id,
                quantity,
                now,
            );
            has_pair(cs1, user_id, product_id) && cs1[pair_index(cs1, user_id, product_id)].quantity
                == quantity
        }),
{
    lemma_upsert_keeps_pairs(store.carts@, store.next_cart_id, user_id, product_id, quantity, now);
}

/// Upserting the same (user, product) pair twice leaves exactly one
/// line for the pair, holding the latest quantity; the second call
/// takes the update branch.
pub proof fn lemma_upsert_twice_single_line(
    cs: Seq<CartLine>,
    fresh_id: i32,
    fresh_id2: i32,
    user_id: i32,
    product_id: i32,
    q1: i32,
    q2: i32,
    now1: i64,
    now2: i64,
)
    requires
        pairs_unique(cs),
    ensures
        upsert_outcome_of(
            upsert_lines(cs, fresh_id, user_id, product_id, q1, now1),
            user_id,
            product_id,
        ) == UpsertOutcome::Updated,
        ({
            let cs2 = upsert_lines(
                upsert_lines(cs, fresh_id, user_id, product_id, q1, now1),
                fresh_id2,
                user_id,
                product_id,
                q2,
                now2,
            );
            &&& pairs_unique(cs2)
            &&& has_pair(cs2, user_id, product_id)
            &&& cs2[pair_index(cs2, user_id, product_id)].quantity == q2
            &&& cs2.len() == upsert_lines(cs, fresh_id, user_id, product_id, q1, now1).len()
            &&& forall|i: int, j: int|
                (0 <= i < cs2.len() && 0 <= j < cs2.len() && (#[trigger] cs2[i].user_id == user_id)
                    && cs2[i].product_id == product_id && (#[trigger] cs2[j].user_id == user_id)
                    && cs2[j].product_id == product_id) ==> i == j
        }),
{
    lemma_upsert_keeps_pairs(cs, fresh_id, user_id, product_id, q1, now1);
    let cs1 = upsert_lines(cs, fresh_id, user_id, product_id, q1, now1);
    lemma_upsert_keeps_pairs(cs1, fresh_id2, user_id, product_id, q2, now2);
    let cs2 = upsert_lines(cs1, fresh_id2, user_id, product_id, q2, now2);
    let j1 = pair_index(cs1, user_id, product_id);
    assert(0 <= j1 < cs1.len() && cs1[j1].user_id == user_id && cs1[j1].product_id == product_id);
    assert(cs2[j1].quantity == q2);
    let j2 = pair_index(cs2, user_id, product_id);
    assert(0 <= j2 < cs2.len() && cs2[j2].user_id == user_id && cs2[j2].product_id == product_id);
    assert forall|i: int, j: int|
        (0 <= i < cs2.len() && 0 <= j < cs2.len() && (#[trigger] cs2[i].user_id == user_id)
            && cs2[i].product_id == product_id && (#[trigger] cs2[j].user_id == user_id)
            && cs2[j].product_id == product_id) implies i == j by {
        if i != j {
            if i < j {
                assert(!(cs2[i].user_id == cs2[j].user_id && cs2[i].product_id == cs2[j].product_id));
            } else {
                assert(!(cs2[j].user_id == cs2[i].user_id && cs2[j].product_id == cs2[i].product_id));
            }
        }
    }
    assert(j2 == j1);
}

} // verus!
