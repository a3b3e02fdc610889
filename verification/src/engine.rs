//! The generic catalog query engine: keyword filtering, soft-delete
//! filtering, pagination, and the soft-delete/restore state machine,
//! shared by every listable catalog resource.
use vstd::prelude::*;

use crate::entities::{CatalogRow, DeleteState};
use crate::errors::{ApiResult, AppError};
use crate::text::{keyword_matches, name_matches_keyword};

verus! {

/// Which catalog resource an engine operation acts for; it selects the
/// resource-specific error variants.
#[derive(Clone, Copy, Debug, PartialEq, Eq, Structural)]
pub enum EntityKind {
    Category,
    Brand,
    Product,
}

pub open spec fn not_found_of(kind: EntityKind) -> AppError {
    match kind {
        EntityKind::Category => AppError::CategoryNotFound,
        EntityKind::Brand => AppError::BrandNotFound,
        EntityKind::Product => AppError::ProductNotFound,
    }
}

pub open spec fn already_deleted_of(kind: EntityKind) -> AppError {
    match kind {
        EntityKind::Category => AppError::CategoryAlreadyDeleted,
        EntityKind::Brand => AppError::BrandAlreadyDeleted,
        EntityKind::Product => AppError::ProductAlreadyDeleted,
    }
}

pub open spec fn cannot_restore_of(kind: EntityKind) -> AppError {
    match kind {
        EntityKind::Category => AppError::CannotRestoreCategory,
        EntityKind::Brand => AppError::CannotRestoreBrand,
        EntityKind::Product => AppError::CannotRestoreProduct,
    }
}

fn kind_not_found(kind: EntityKind) -> (r: AppError)
    ensures
        r == not_found_of(kind),
{
    match kind {
        EntityKind::Category => AppError::CategoryNotFound,
        EntityKind::Brand => AppError::BrandNotFound,
        EntityKind::Product => AppError::ProductNotFound,
    }
}

fn kind_already_deleted(kind: EntityKind) -> (r: AppError)
    ensures
        r == already_deleted_of(kind),
{
    match kind {
        EntityKind::Category => AppError::CategoryAlreadyDeleted,
        EntityKind::Brand => AppError::BrandAlreadyDeleted,
        EntityKind::Product => AppError::ProductAlreadyDeleted,
    }
}

fn kind_cannot_restore(kind: EntityKind) -> (r: AppError)
    ensures
        r == cannot_restore_of(kind),
{
    match kind {
        EntityKind::Category => AppError::CannotRestoreCategory,
        EntityKind::Brand => AppError::CannotRestoreBrand,
        EntityKind::Product => AppError::CannotRestoreProduct,
    }
}

// ---------------------------------------------------------------------
// Pagination
// ---------------------------------------------------------------------

/// Page numbers are 1-based and default to 1; a present page of 0 or
/// lower is rejected, never clamped. The result is the 0-based index.
pub fn page_matcher(page: Option<i32>) -> (r: ApiResult<u64>)
    ensures
        r == (match page {
            Some(p) => if p <= 0 {
                Err::<u64, AppError>(AppError::InvalidPage)
            } else {
                Ok::<u64, AppError>((p - 1) as u64)
            },
            None => Ok::<u64, AppError>(0u64),
        }),
{
    match page {
        Some(p) => {
            if p <= 0 {
                Err(AppError::InvalidPage)
            } else {
                Ok((p - 1) as u64)
            }
        },
        None => Ok(0),
    }
}

/// Page sizes default to 10; a present size of 0 or lower is rejected,
/// never clamped.
pub fn size_matcher(size: Option<i32>) -> (r: ApiResult<u64>)
    ensures
        r == (match size {
            Some(s) => if s <= 0 {
                Err::<u64, AppError>(AppError::InvalidSize)
            } else {
                Ok::<u64, AppError>(s as u64)
            },
            None => Ok::<u64, AppError>(10u64),
        }),
{
    match size {
        Some(s) => {
            if s <= 0 {
                Err(AppError::InvalidSize)
            } else {
                Ok(s as u64)
            }
        },
        None => Ok(10),
    }
}

/// Ceiling division for totals: how many pages of `size` hold `total`
/// items.
pub open spec fn ceil_div(total: int, size: int) -> int {
    total / size + if total % size == 0 {
        0int
    } else {
        1int
    }
}

/// The slice of `s` one page long: `page0 * size` items are skipped and
/// at most `size` are taken.
pub open spec fn page_slice<T>(s: Seq<T>, page0: int, size: int) -> Seq<T> {
    let off = page0 * size;
    if off >= s.len() {
        Seq::empty()
    } else if off + size <= s.len() {
        s.subrange(off, off + size)
    } else {
        s.subrange(off, s.len() as int)
    }
}

/// A page holds at most `size` items, and item `j` of the page is item
/// `page0 * size + j` of the full listing: exactly `page0 * size` items
/// are skipped.
pub proof fn lemma_page_slice_bounds<T>(s: Seq<T>, page0: int, size: int)
    requires
        page0 >= 0,
        size >= 1,
    ensures
        page_slice(s, page0, size).len() <= size,
        forall|j: int|
            0 <= j < page_slice(s, page0, size).len() ==> page_slice(s, page0, size)[j] == s[page0
                * size + j],
{
    assert(page0 * size >= 0) by (nonlinear_arith)
        requires
            page0 >= 0,
            size >= 1,
    ;
}

/// Copy one page out of an already-filtered listing.
pub fn paginate_rows(rows: &Vec<CatalogRow>, page0: u64, size: u64) -> (r: Vec<CatalogRow>)
    requires
        page0 <= 0x7fff_fffe,
        1 <= size <= 0x7fff_ffff,
    ensures
        r@ == page_slice(rows@, page0 as int, size as int),
{
    proof {
        assert(page0 * size <= 0x7fff_fffe * 0x7fff_ffff) by (nonlinear_arith)
            requires
                page0 <= 0x7fff_fffe,
                1 <= size <= 0x7fff_ffff,
        ;
    }
    let off: u64 = page0 * size;
    let len_u: u64 = rows.len() as u64;
    let mut out: Vec<CatalogRow> = Vec::new();
    if off >= len_u {
        return out;
    }
    let start: usize = off as usize;
    let end: usize = if len_u - off >= size {
        start + (size as usize)
    } else {
        rows.len()
    };
    let ghost offi: int = page0 as int * size as int;
    proof {
        assert(offi == off as int);
        assert(start as int == offi);
        assert(end as int == if offi + size as int <= rows@.len() {
            offi + size as int
        } else {
            rows@.len() as int
        });
    }
    let mut j: usize = start;
    while j < end
        invariant
            start <= j <= end <= rows@.len(),
            start as int == offi,
            out@ == rows@.subrange(offi, j as int),
        decreases end - j,
    {
        out.push(rows[j].clone());
        proof {
            assert(out@ =~= rows@.subrange(offi, j + 1 as int));
        }
        j = j + 1;
    }
    proof {
        assert(out@ =~= page_slice(rows@, page0 as int, size as int));
    }
    out
}

// ---------------------------------------------------------------------
// Filtering
// ---------------------------------------------------------------------

/// A row passes the listing filter when it is active (or soft-deleted
/// rows were asked for) and, if a keyword was given, the keyword matches
/// its name case-insensitively.
pub open spec fn row_admitted(row: CatalogRow, kw: Option<Seq<char>>, include_all: bool) -> bool {
    (include_all || row.state is Active) && (match kw {
        Some(k) => keyword_matches(row.name@, k),
        None => true,
    })
}

/// The rows admitted by the listing filter, in their stored order.
pub open spec fn filter_rows(rows: Seq<CatalogRow>, kw: Option<Seq<char>>, include_all: bool) -> Seq<
    CatalogRow,
>
    decreases rows.len(),
{
    if rows.len() == 0 {
        Seq::empty()
    } else {
        let prefix = filter_rows(rows.drop_last(), kw, include_all);
        if row_admitted(rows.last(), kw, include_all) {
            prefix.push(rows.last())
        } else {
            prefix
        }
    }
}

/// The keyword as a character sequence, when present.
pub open spec fn keyword_view(k: Option<String>) -> Option<Seq<char>> {
    match k {
        Some(s) => Some(s@),
        None => None,
    }
}

/// Apply the listing filter to a table.
pub fn filter_catalog_rows(rows: &Vec<CatalogRow>, keyword: &Option<String>, include_all: bool) -> (r:
    Vec<CatalogRow>)
    ensures
        r@ == filter_rows(rows@, keyword_view(*keyword), include_all),
{
    let ghost kwv = keyword_view(*keyword);
    let mut out: Vec<CatalogRow> = Vec::new();
    let mut i: usize = 0;
    while i < rows.len()
        invariant
            i <= rows@.len(),
            kwv == keyword_view(*keyword),
            out@ == filter_rows(rows@.subrange(0, i as int), kwv, include_all),
        decreases rows@.len() - i,
    {
        let row = &rows[i];
        let active_ok = include_all || row.state.is_active();
        let kw_ok = match keyword {
            Some(k) => name_matches_keyword(row.name.as_str(), k.as_str()),
            None => true,
        };
        if active_ok && kw_ok {
            out.push(row.clone());
        }
        proof {
            let pre = rows@.subrange(0, i as int);
            let cur = rows@.subrange(0, i + 1 as int);
            assert(cur.drop_last() =~= pre);
            assert(cur.last() == rows@[i as int]);
        }
        i = i + 1;
    }
    proof {
        assert(rows@.subrange(0, rows@.len() as int) =~= rows@);
    }
    out
}

/// The number of filtered rows never exceeds the table, so a `u64` can
/// carry every total this engine reports.
pub proof fn lemma_filter_rows_len(rows: Seq<CatalogRow>, kw: Option<Seq<char>>, include_all: bool)
    ensures
        filter_rows(rows, kw, include_all).len() <= rows.len(),
    decreases rows.len(),
{
    if rows.len() > 0 {
        lemma_filter_rows_len(rows.drop_last(), kw, include_all);
    }
}

/// One full listing pass: validate paging, filter, count, and slice.
/// Size errors take precedence over page errors, as every catalog
/// service checks size first.
pub fn list_rows(
    rows: &Vec<CatalogRow>,
    keyword: &Option<String>,
    include_all: bool,
    page: Option<i32>,
    size: Option<i32>,
) -> (r: ApiResult<(Vec<CatalogRow>, u64, u64)>)
    ensures
        size matches Some(s) && s <= 0 ==> r == Err::<(Vec<CatalogRow>, u64, u64), AppError>(
            AppError::InvalidSize,
        ),
        ((size is None || (size matches Some(s) && s >= 1)) && (page matches Some(p) && p <= 0))
            ==> r == Err::<(Vec<CatalogRow>, u64, u64), AppError>(AppError::InvalidPage),
        paging_valid(page, size) ==> (r matches Ok(t) && t.0@ == page_slice(
            filter_rows(rows@, keyword_view(*keyword), include_all),
            effective_page0(page),
            effective_size(size),
        ) && t.1 == filter_rows(rows@, keyword_view(*keyword), include_all).len() && t.2
            == ceil_div(
            filter_rows(rows@, keyword_view(*keyword), include_all).len() as int,
            effective_size(size),
        )),
{
    let size_v = match size_matcher(size) {
        Ok(s) => s,
        Err(e) => {
            return Err(e);
        },
    };
    let page_v = match page_matcher(page) {
        Ok(p) => p,
        Err(e) => {
            return Err(e);
        },
    };
    let filtered = filter_catalog_rows(rows, keyword, include_all);
    proof {
        lemma_filter_rows_len(rows@, keyword_view(*keyword), include_all);
    }
    let total_items: u64 = filtered.len() as u64;
    let total_pages: u64 = if total_items == 0 {
        0
    } else {
        (total_items - 1) / size_v + 1
    };
    proof {
        if total_items > 0 {
            assert((total_items - 1) as int / size_v as int + 1 == ceil_div(
                total_items as int,
                size_v as int,
            )) by (nonlinear_arith)
                requires
                    1 <= total_items,
                    1 <= size_v,
            ;
        }
    }
    let items = paginate_rows(&filtered, page_v, size_v);
    Ok((items, total_items, total_pages))
}

/// Both paging parameters are either absent or at least 1.
pub open spec fn paging_valid(page: Option<i32>, size: Option<i32>) -> bool {
    (page matches Some(p) ==> p >= 1) && (size matches Some(s) ==> s >= 1)
}

/// The page size actually used: the given one, or the default of 10.
pub open spec fn effective_size(size: Option<i32>) -> int {
    match size {
        Some(s) => s as int,
        None => 10,
    }
}

/// The 0-based page index actually used: the given page minus 1, or 0.
pub open spec fn effective_page0(page: Option<i32>) -> int {
    match page {
        Some(p) => p - 1,
        None => 0,
    }
}

/// Listings include soft-deleted rows only when the flag is present and
/// true.
pub open spec fn include_all_of(all: Option<bool>) -> bool {
    all == Some(true)
}

pub fn all_flag(all: Option<bool>) -> (r: bool)
    ensures
        r == include_all_of(all),
{
    match all {
        Some(b) => b,
        None => false,
    }
}

// ---------------------------------------------------------------------
// Identity lookup and the soft-delete state machine
// ---------------------------------------------------------------------

/// Some row of the table carries this id.
pub open spec fn has_row_id(rows: Seq<CatalogRow>, id: i32) -> bool {
    exists|j: int| 0 <= j < rows.len() && #[trigger] rows[j].id == id
}

/// The index of the row carrying this id; meaningful under
/// [`unique_row_ids`].
pub open spec fn row_index(rows: Seq<CatalogRow>, id: i32) -> int {
    choose|j: int| 0 <= j < rows.len() && #[trigger] rows[j].id == id
}

/// No two rows share an id.
pub open spec fn unique_row_ids(rows: Seq<CatalogRow>) -> bool {
    forall|i: int, j: int|
        #![trigger rows[i].id, rows[j].id]
        0 <= i < j < rows.len() ==> rows[i].id != rows[j].id
}

/// The same row with another delete state; nothing else changes.
pub open spec fn with_state(row: CatalogRow, st: DeleteState) -> CatalogRow {
    CatalogRow {
        id: row.id,
        name: row.name,
        created_at: row.created_at,
        updated_at: row.updated_at,
        state: st,
    }
}

/// The soft-delete transition: an absent id is reported, deleting a
/// deleted row is a conflict, and otherwise only the row's state moves
/// to `Deleted(now)`.
pub open spec fn spec_soft_delete(rows: Seq<CatalogRow>, id: i32, now: i64, kind: EntityKind) -> (
    Result<(), AppError>,
    Seq<CatalogRow>,
) {
    if !has_row_id(rows, id) {
        (Err(not_found_of(kind)), rows)
    } else {
        let j = row_index(rows, id);
        if rows[j].state is Active {
            (Ok(()), rows.update(j, with_state(rows[j], DeleteState::Deleted(now))))
        } else {
            (Err(already_deleted_of(kind)), rows)
        }
    }
}

/// The restore transition: an absent id is reported, restoring an
/// active row is refused, and otherwise only the row's state moves back
/// to `Active`.
pub open spec fn spec_restore(rows: Seq<CatalogRow>, id: i32, kind: EntityKind) -> (
    Result<(), AppError>,
    Seq<CatalogRow>,
) {
    if !has_row_id(rows, id) {
        (Err(not_found_of(kind)), rows)
    } else {
        let j = row_index(rows, id);
        if rows[j].state is Active {
            (Err(cannot_restore_of(kind)), rows)
        } else {
            (Ok(()), rows.update(j, with_state(rows[j], DeleteState::Active)))
        }
    }
}

/// Find the position of the row carrying `id`.
pub fn find_row_index(rows: &Vec<CatalogRow>, id: i32) -> (r: Option<usize>)
    ensures
        match r {
            Some(i) => i < rows@.len() && rows@[i as int].id == id,
            None => !has_row_id(rows@, id),
        },
{
    let mut i: usize = 0;
    while i < rows.len()
        invariant
            i <= rows@.len(),
            forall|k: int| 0 <= k < i ==> #[trigger] rows@[k].id != id,
        decreases rows@.len() - i,
    {
        if rows[i].id == id {
            return Some(i);
        }
        i = i + 1;
    }
    None
}

/// Soft-delete the row carrying `id`: mark it deleted at `now`.
pub fn soft_delete_row(rows: &mut Vec<CatalogRow>, id: i32, now: i64, kind: EntityKind) -> (r:
    Result<(), AppError>)
    requires
        unique_row_ids(old(rows)@),
    ensures
        r == spec_soft_delete(old(rows)@, id, now, kind).0,
        final(rows)@ == spec_soft_delete(old(rows)@, id, now, kind).1,
        unique_row_ids(final(rows)@),
{
    match find_row_index(rows, id) {
        None => Err(kind_not_found(kind)),
        Some(i) => {
            proof {
                assert(has_row_id(rows@, id));
                let j = row_index(rows@, id);
                assert(0 <= j < rows@.len() && rows@[j].id == id);
                assert(j == i);
            }
            let active = rows[i].state.is_active();
            if active {
                let prev = rows.remove(i);
                let updated = CatalogRow { state: DeleteState::Deleted(now), ..prev };
                rows.insert(i, updated);
                proof {
                    assert(rows@ =~= old(rows)@.update(
                        i as int,
                        with_state(old(rows)@[i as int], DeleteState::Deleted(now)),
                    ));
                }
                Ok(())
            } else {
                Err(kind_already_deleted(kind))
            }
        },
    }
}

/// Restore the soft-deleted row carrying `id`.
pub fn restore_row(rows: &mut Vec<CatalogRow>, id: i32, kind: EntityKind) -> (r: Result<
    (),
    AppError,
>)
    requires
        unique_row_ids(old(rows)@),
    ensures
        r == spec_restore(old(rows)@, id, kind).0,
        final(rows)@ == spec_restore(old(rows)@, id, kind).1,
        unique_row_ids(final(rows)@),
{
    match find_row_index(rows, id) {
        None => Err(kind_not_found(kind)),
        Some(i) => {
            proof {
                assert(has_row_id(rows@, id));
                let j = row_index(rows@, id);
                assert(0 <= j < rows@.len() && rows@[j].id == id);
                assert(j == i);
            }
            let active = rows[i].state.is_active();
            if active {
                Err(kind_cannot_restore(kind))
            } else {
                let prev = rows.remove(i);
                let updated = CatalogRow { state: DeleteState::Active, ..prev };
                rows.insert(i, updated);
                proof {
                    assert(rows@ =~= old(rows)@.update(
                        i as int,
                        with_state(old(rows)@[i as int], DeleteState::Active),
                    ));
                }
                Ok(())
            }
        },
    }
}

/// Some row of the table carries this id and is currently active.
pub open spec fn has_active_row(rows: Seq<CatalogRow>, id: i32) -> bool {
    exists|j: int| 0 <= j < rows.len() && #[trigger] rows[j].id == id && rows[j].state is Active
}

/// Reference check for writes: the row exists and is active.
pub fn row_is_active(rows: &Vec<CatalogRow>, id: i32) -> (r: bool)
    requires
        unique_row_ids(rows@),
    ensures
        r == has_active_row(rows@, id),
{
    match find_row_index(rows, id) {
        None => {
            proof {
                if has_active_row(rows@, id) {
                    let j = choose|j: int|
                        0 <= j < rows@.len() && #[trigger] rows@[j].id == id && rows@[j].state
                            is Active;
                    assert(has_row_id(rows@, id));
                }
            }
            false
        },
        Some(i) => {
            let r = rows[i].state.is_active();
            proof {
                if !r && has_active_row(rows@, id) {
                    let j = choose|j: int|
                        0 <= j < rows@.len() && #[trigger] rows@[j].id == id && rows@[j].state
                            is Active;
                    assert(j == i);
                }
            }
            r
        },
    }
}

/// Some row of the table already carries this exact name, whatever its
/// delete state: a deleted row's name still blocks reuse.
pub open spec fn name_taken(rows: Seq<CatalogRow>, name: Seq<char>) -> bool {
    exists|j: int| 0 <= j < rows.len() && #[trigger] rows[j].name@ == name
}

/// Duplicate-name check for creation, deliberately blind to soft-delete
/// state.
pub fn any_row_named(rows: &Vec<CatalogRow>, name: &String) -> (r: bool)
    ensures
        r == name_taken(rows@, name@),
{
    let mut i: usize = 0;
    while i < rows.len()
        invariant
            i <= rows@.len(),
            forall|k: int| 0 <= k < i ==> #[trigger] rows@[k].name@ != name@,
        decreases rows@.len() - i,
    {
        if rows[i].name == *name {
            return true;
        }
        i = i + 1;
    }
    false
}

// ---------------------------------------------------------------------
// Laws of the soft-delete state machine
// ---------------------------------------------------------------------

/// Soft delete and restore move only a row's state: every id stays at
/// its index.
pub proof fn lemma_soft_delete_preserves_ids(rows: Seq<CatalogRow>, id: i32, now: i64, kind: EntityKind)
    ensures
        spec_soft_delete(rows, id, now, kind).1.len() == rows.len(),
        forall|k: int|
            0 <= k < rows.len() ==> #[trigger] spec_soft_delete(rows, id, now, kind).1[k].id
                == rows[k].id,
{
}

pub proof fn lemma_restore_preserves_ids(rows: Seq<CatalogRow>, id: i32, kind: EntityKind)
    ensures
        spec_restore(rows, id, kind).1.len() == rows.len(),
        forall|k: int|
            0 <= k < rows.len() ==> #[trigger] spec_restore(rows, id, kind).1[k].id == rows[k].id,
{
}

/// Two tables whose rows carry the same ids index by index answer every
/// id lookup alike.
pub proof fn lemma_same_ids_same_lookup(rows1: Seq<CatalogRow>, rows2: Seq<CatalogRow>)
    requires
        rows1.len() == rows2.len(),
        forall|k: int| 0 <= k < rows1.len() ==> #[trigger] rows1[k].id == rows2[k].id,
    ensures
        forall|x: i32| has_row_id(rows1, x) == has_row_id(rows2, x),
{
    assert forall|x: i32| has_row_id(rows1, x) == has_row_id(rows2, x) by {
        if has_row_id(rows1, x) {
            let j = choose|j: int| 0 <= j < rows1.len() && #[trigger] rows1[j].id == x;
            assert(rows2[j].id == x);
        }
        if has_row_id(rows2, x) {
            let j = choose|j: int| 0 <= j < rows2.len() && #[trigger] rows2[j].id == x;
            assert(rows1[j].id == x);
        }
    }
}

/// Soft deletion is not idempotent in the API: once a delete has
/// succeeded, deleting the same row again fails with the already-deleted
/// conflict, whatever timestamps are involved.
pub proof fn lemma_soft_delete_twice_fails(
    rows: Seq<CatalogRow>,
    id: i32,
    now: i64,
    now2: i64,
    kind: EntityKind,
)
    requires
        unique_row_ids(rows),
        spec_soft_delete(rows, id, now, kind).0 == Ok::<(), AppError>(()),
    ensures
        spec_soft_delete(spec_soft_delete(rows, id, now, kind).1, id, now2, kind).0 == Err::<
            (),
            AppError,
        >(already_deleted_of(kind)),
{
    let j = row_index(rows, id);
    let rows1 = spec_soft_delete(rows, id, now, kind).1;
    assert(rows1[j].id == id);
    assert(has_row_id(rows1, id));
    let j1 = row_index(rows1, id);
    assert(0 <= j1 < rows1.len() && rows1[j1].id == id);
    assert(j1 == j);
}

/// Restoring a row that is currently active fails with the
/// cannot-restore conflict; restore is only the inverse of a delete.
pub proof fn lemma_restore_active_fails(rows: Seq<CatalogRow>, id: i32, kind: EntityKind)
    requires
        unique_row_ids(rows),
        has_row_id(rows, id),
        rows[row_index(rows, id)].state is Active,
    ensures
        spec_restore(rows, id, kind).0 == Err::<(), AppError>(cannot_restore_of(kind)),
{
}

/// Round trip: a successful soft delete followed by a restore of the
/// same id succeeds and returns the table to exactly its prior state.
pub proof fn lemma_delete_then_restore_round_trip(
    rows: Seq<CatalogRow>,
    id: i32,
    now: i64,
    kind: EntityKind,
)
    requires
        unique_row_ids(rows),
        spec_soft_delete(rows, id, now, kind).0 == Ok::<(), AppError>(()),
    ensures
        spec_restore(spec_soft_delete(rows, id, now, kind).1, id, kind).0 == Ok::<(), AppError>(()),
        spec_restore(spec_soft_delete(rows, id, now, kind).1, id, kind).1 == rows,
{
    let j = row_index(rows, id);
    let rows1 = spec_soft_delete(rows, id, now, kind).1;
    assert(rows1[j].id == id);
    assert(has_row_id(rows1, id));
    let j1 = row_index(rows1, id);
    assert(0 <= j1 < rows1.len() && rows1[j1].id == id);
    assert(j1 == j);
    let rows2 = spec_restore(rows1, id, kind).1;
    let row_j = rows[j];
    assert(with_state(with_state(row_j, DeleteState::Deleted(now)), DeleteState::Active) == row_j);
    assert(rows2 =~= rows);
}

} // verus!
