//! The category and brand services: thin resource-specific fronts over
//! the shared query engine and soft-delete state machine.
use vstd::prelude::*;

use crate::engine::{
    all_flag, any_row_named, ceil_div, effective_page0, effective_size, filter_rows, has_row_id,
    include_all_of, keyword_view, lemma_restore_preserves_ids, lemma_same_ids_same_lookup,
    lemma_soft_delete_preserves_ids, list_rows, name_taken, page_slice, paging_valid, restore_row,
    row_index, soft_delete_row, spec_restore, spec_soft_delete, EntityKind,
};
use crate::entities::{CatalogRow, DeleteState};
use crate::errors::{ApiResult, AppError};
use crate::store::{agrees_outside_brands, agrees_outside_categories, Store};

verus! {

/// What a successful catalog create did: the fresh row — active, both
/// timestamps at the creation instant, carrying the table's next id —
/// was appended, and the created row is returned.
pub open spec fn created_row_ok(
    r: Result<CatalogRow, AppError>,
    before: Seq<CatalogRow>,
    after: Seq<CatalogRow>,
    id: i32,
    name: Seq<char>,
    now: i64,
) -> bool {
    r matches Ok(c) && c.id == id && c.name@ == name && c.created_at == now && c.updated_at == now
        && c.state == DeleteState::Active && after == before.push(c)
}

/// Category resource operations.
pub struct CategoryService;

impl CategoryService {
    /// Create a category. A name already present anywhere in the table,
    /// active or deleted, is a conflict.
    pub fn create(store: &mut Store, name: String, now: i64) -> (r: ApiResult<CatalogRow>)
        requires
            old(store).wf(),
        ensures
            final(store).wf(),
            agrees_outside_categories(*final(store), *old(store)),
            name_taken(old(store).categories@, name@) ==> r == Err::<CatalogRow, AppError>(
                AppError::DuplicateCategory,
            ) && *final(store) == *old(store),
            !name_taken(old(store).categories@, name@) && old(store).next_category_id == i32::MAX
                ==> r == Err::<CatalogRow, AppError>(AppError::ServerError) && *final(store)
                == *old(store),
            !name_taken(old(store).categories@, name@) && old(store).next_category_id < i32::MAX
                ==> created_row_ok(
                r,
                old(store).categories@,
                final(store).categories@,
                old(store).next_category_id,
                name@,
                now,
            ) && final(store).next_category_id == old(store).next_category_id + 1,
    {
        if any_row_named(&store.categories, &name) {
            return Err(AppError::DuplicateCategory);
        }
        if store.next_category_id == i32::MAX {
            return Err(AppError::ServerError);
        }
        let id = store.next_category_id;
        let row = CatalogRow { id, name, created_at: now, updated_at: now, state: DeleteState::Active };
        let created = row.clone();
        store.categories.push(row);
        store.next_category_id = id + 1;
        proof {
            assert forall|j: int| 0 <= j < store.categories@.len() implies 1 <= #[trigger] store
                .categories@[j].id < store.next_category_id by {}
            assert forall|j: int| 0 <= j < store.products@.len() implies has_row_id(
                store.categories@,
                #[trigger] store.products@[j].category_id,
            ) by {
                assert(has_row_id(old(store).categories@, store.products@[j].category_id));
                let k = choose|k: int|
                    0 <= k < old(store).categories@.len() && #[trigger] old(
                        store,
                    ).categories@[k].id == store.products@[j].category_id;
                assert(store.categories@[k].id == store.products@[j].category_id);
            }
        }
        Ok(created)
    }

    /// List categories: keyword filter, soft-delete filter, pagination
    /// and totals, as one page plus the total item and page counts.
    pub fn get(
        store: &Store,
        keyword: Option<String>,
        all: Option<bool>,
        page: Option<i32>,
        size: Option<i32>,
    ) -> (r: ApiResult<(Vec<CatalogRow>, u64, u64)>)
        ensures
            size matches Some(s) && s <= 0 ==> r == Err::<(Vec<CatalogRow>, u64, u64), AppError>(
                AppError::InvalidSize,
            ),
            ((size is None || (size matches Some(s) && s >= 1)) && (page matches Some(p) && p
                <= 0)) ==> r == Err::<(Vec<CatalogRow>, u64, u64), AppError>(AppError::InvalidPage),
            paging_valid(page, size) ==> (r matches Ok(t) && t.0@ == page_slice(
                filter_rows(store.categories@, keyword_view(keyword), include_all_of(all)),
                effective_page0(page),
                effective_size(size),
            ) && t.1 == filter_rows(
                store.categories@,
                keyword_view(keyword),
                include_all_of(all),
            ).len() && t.2 == ceil_div(
                filter_rows(store.categories@, keyword_view(keyword), include_all_of(all)).len() as int,
                effective_size(size),
            )),
    {
        let include_all = all_flag(all);
        list_rows(&store.categories, &keyword, include_all, page, size)
    }

    /// Soft-delete a category.
    pub fn delete(store: &mut Store, id: i32, now: i64) -> (r: ApiResult<()>)
        requires
            old(store).wf(),
        ensures
            final(store).wf(),
            agrees_outside_categories(*final(store), *old(store)),
            final(store).next_category_id == old(store).next_category_id,
            r == spec_soft_delete(old(store).categories@, id, now, EntityKind::Category).0,
            final(store).categories@ == spec_soft_delete(
                old(store).categories@,
                id,
                now,
                EntityKind::Category,
            ).1,
    {
        let r = soft_delete_row(&mut store.categories, id, now, EntityKind::Category);
        proof {
            lemma_soft_delete_preserves_ids(old(store).categories@, id, now, EntityKind::Category);
            lemma_same_ids_same_lookup(store.categories@, old(store).categories@);
        }
        r
    }

    /// Remove a category row outright. A category still referenced by a
    /// product cannot be removed (the store's referential constraint);
    /// removing an absent id is a no-op reported as success.
    pub fn hard_delete(store: &mut Store, id: i32) -> (r: ApiResult<String>)
        requires
            old(store).wf(),
        ensures
            final(store).wf(),
            agrees_outside_categories(*final(store), *old(store)),
            final(store).next_category_id == old(store).next_category_id,
            category_referenced(old(store).products@, id) && has_row_id(old(store).categories@, id)
                ==> r == Err::<String, AppError>(AppError::ServerError) && *final(store)
                == *old(store),
            !has_row_id(old(store).categories@, id) ==> (r matches Ok(m) && m@
                == "Category deleted successfully"@) && *final(store) == *old(store),
            has_row_id(old(store).categories@, id) && !category_referenced(old(store).products@, id)
                ==> (r matches Ok(m) && m@ == "Category deleted successfully"@)
                && final(store).categories@
                == old(store).categories@.remove(row_index(old(store).categories@, id)),
    {
        let idx = match crate::engine::find_row_index(&store.categories, id) {
            None => {
                return Ok("Category deleted successfully".to_owned());
            },
            Some(i) => i,
        };
        proof {
            let j = row_index(store.categories@, id);
            assert(0 <= j < store.categories@.len() && store.categories@[j].id == id);
            assert(j == idx);
        }
        if any_product_references_category(&store.products, id) {
            return Err(AppError::ServerError);
        }
        store.categories.remove(idx);
        proof {
            let before = old(store).categories@;
            let after = store.categories@;
            assert forall|j: int| 0 <= j < store.products@.len() implies has_row_id(
                after,
                #[trigger] store.products@[j].category_id,
            ) by {
                let refid = store.products@[j].category_id;
                assert(has_row_id(before, refid));
                let k = choose|k: int|
                    0 <= k < before.len() && #[trigger] before[k].id == refid;
                assert(refid != id);
                if k < idx {
                    assert(after[k].id == refid);
                } else {
                    assert(before[k].id != before[idx as int].id);
                    assert(k > idx);
                    assert(after[k - 1].id == refid);
                }
            }
        }
        Ok("Category deleted successfully".to_owned())
    }

    /// Restore a soft-deleted category.
    pub fn restore(store: &mut Store, id: i32) -> (r: ApiResult<()>)
        requires
            old(store).wf(),
        ensures
            final(store).wf(),
            agrees_outside_categories(*final(store), *old(store)),
            final(store).next_category_id == old(store).next_category_id,
            r == spec_restore(old(store).categories@, id, EntityKind::Category).0,
            final(store).categories@ == spec_restore(
                old(store).categories@,
                id,
                EntityKind::Category,
            ).1,
    {
        let r = restore_row(&mut store.categories, id, EntityKind::Category);
        proof {
            lemma_restore_preserves_ids(old(store).categories@, id, EntityKind::Category);
            lemma_same_ids_same_lookup(store.categories@, old(store).categories@);
        }
        r
    }
}

/// Some product references this category.
pub open spec fn category_referenced(ps: Seq<crate::entities::Product>, id: i32) -> bool {
    exists|j: int| 0 <= j < ps.len() && #[trigger] ps[j].category_id == id
}

fn any_product_references_category(ps: &Vec<crate::entities::Product>, id: i32) -> (r: bool)
    ensures
        r == category_referenced(ps@, id),
{
    let mut i: usize = 0;
    while i < ps.len()
        invariant
            i <= ps@.len(),
            forall|k: int| 0 <= k < i ==> #[trigger] ps@[k].category_id != id,
        decreases ps@.len() - i,
    {
        if ps[i].category_id == id {
            return true;
        }
        i = i + 1;
    }
    false
}

/// Brand resource operations.
pub struct BrandService;

impl BrandService {
    /// Create a brand. A name already present anywhere in the table,
    /// active or deleted, is a conflict.
    pub fn create(store: &mut Store, name: String, now: i64) -> (r: ApiResult<CatalogRow>)
        requires
            old(store).wf(),
        ensures
            final(store).wf(),
            agrees_outside_brands(*final(store), *old(store)),
            name_taken(old(store).brands@, name@) ==> r == Err::<CatalogRow, AppError>(
                AppError::DuplicateBrand,
            ) && *final(store) == *old(store),
            !name_taken(old(store).brands@, name@) && old(store).next_brand_id == i32::MAX ==> r
                == Err::<CatalogRow, AppError>(AppError::ServerError) && *final(store) == *old(
                store,
            ),
            !name_taken(old(store).brands@, name@) && old(store).next_brand_id < i32::MAX
                ==> created_row_ok(
                r,
                old(store).brands@,
                final(store).brands@,
                old(store).next_brand_id,
                name@,
                now,
            ) && final(store).next_brand_id == old(store).next_brand_id + 1,
    {
        if any_row_named(&store.brands, &name) {
            return Err(AppError::DuplicateBrand);
        }
        if store.next_brand_id == i32::MAX {
            return Err(AppError::ServerError);
        }
        let id = store.next_brand_id;
        let row = CatalogRow { id, name, created_at: now, updated_at: now, state: DeleteState::Active };
        let created = row.clone();
        store.brands.push(row);
        store.next_brand_id = id + 1;
        proof {
            assert forall|j: int| 0 <= j < store.brands@.len() implies 1 <= #[trigger] store
                .brands@[j].id < store.next_brand_id by {}
            assert forall|j: int| 0 <= j < store.products@.len() implies has_row_id(
                store.brands@,
                #[trigger] store.products@[j].brand_id,
            ) by {
                assert(has_row_id(old(store).brands@, store.products@[j].brand_id));
                let k = choose|k: int|
                    0 <= k < old(store).brands@.len() && #[trigger] old(store).brands@[k].id
                        == store.products@[j].brand_id;
                assert(store.brands@[k].id == store.products@[j].brand_id);
            }
        }
        Ok(created)
    }

    /// List brands, with the same filter and pagination semantics as
    /// every catalog resource.
    pub fn get(
        store: &Store,
        keyword: Option<String>,
        page: Option<i32>,
        size: Option<i32>,
        all: Option<bool>,
    ) -> (r: ApiResult<(Vec<CatalogRow>, u64, u64)>)
        ensures
            size matches Some(s) && s <= 0 ==> r == Err::<(Vec<CatalogRow>, u64, u64), AppError>(
                AppError::InvalidSize,
            ),
            ((size is None || (size matches Some(s) && s >= 1)) && (page matches Some(p) && p
                <= 0)) ==> r == Err::<(Vec<CatalogRow>, u64, u64), AppError>(AppError::InvalidPage),
            paging_valid(page, size) ==> (r matches Ok(t) && t.0@ == page_slice(
                filter_rows(store.brands@, keyword_view(keyword), include_all_of(all)),
                effective_page0(page),
                effective_size(size),
            ) && t.1 == filter_rows(store.brands@, keyword_view(keyword), include_all_of(all)).len()
                && t.2 == ceil_div(
                filter_rows(store.brands@, keyword_view(keyword), include_all_of(all)).len() as int,
                effective_size(size),
            )),
    {
        let include_all = all_flag(all);
        list_rows(&store.brands, &keyword, include_all, page, size)
    }

    /// Soft-delete a brand.
    pub fn delete(store: &mut Store, id: i32, now: i64) -> (r: ApiResult<()>)
        requires
            old(store).wf(),
        ensures
            final(store).wf(),
            agrees_outside_brands(*final(store), *old(store)),
            final(store).next_brand_id == old(store).next_brand_id,
            r == spec_soft_delete(old(store).brands@, id, now, EntityKind::Brand).0,
            final(store).brands@ == spec_soft_delete(
                old(store).brands@,
                id,
                now,
                EntityKind::Brand,
            ).1,
    {
        let r = soft_delete_row(&mut store.brands, id, now, EntityKind::Brand);
        proof {
            lemma_soft_delete_preserves_ids(old(store).brands@, id, now, EntityKind::Brand);
            lemma_same_ids_same_lookup(store.brands@, old(store).brands@);
        }
        r
    }

    /// Restore a soft-deleted brand.
    pub fn restore(store: &mut Store, id: i32) -> (r: ApiResult<()>)
        requires
            old(store).wf(),
        ensures
            final(store).wf(),
            agrees_outside_brands(*final(store), *old(store)),
            final(store).next_brand_id == old(store).next_brand_id,
            r == spec_restore(old(store).brands@, id, EntityKind::Brand).0,
            final(store).brands@ == spec_restore(old(store).brands@, id, EntityKind::Brand).1,
    {
        let r = restore_row(&mut store.brands, id, EntityKind::Brand);
        proof {
            lemma_restore_preserves_ids(old(store).brands@, id, EntityKind::Brand);
            lemma_same_ids_same_lookup(store.brands@, old(store).brands@);
        }
        r
    }
}

} // verus!
