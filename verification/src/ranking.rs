use vstd::prelude::*;

verus! {

/// Largest page of a ranking.
pub const MAX_PAGE_SIZE: usize = 50;

/// Page size used when a ranking query gives none.
pub fn default_limit() -> (r: usize)
    ensures
        r == 20,
{
    20
}

/// A page of a ranking: its first position (zero-based), its size, and the position
/// of its last entry.
#[derive(Clone, Copy, Debug, PartialEq, Eq, Structural)]
pub struct PageBounds {
    pub start: usize,
    pub limit: usize,
    pub end: usize,
}

/// Bounds of a page: the size is clamped to 1..=50, the start to `isize::MAX`.
pub fn page_bounds(offset: usize, limit: usize) -> (r: PageBounds)
    ensures
        r.limit == if limit < 1 {
            1
        } else if limit > 50 {
            50
        } else {
            limit
        },
        r.start == if offset > isize::MAX as usize {
            isize::MAX as usize
        } else {
            offset
        },
        r.end == r.start + r.limit - 1,
{
    let limit = if limit < 1 {
        1
    } else if limit > 50 {
        50
    } else {
        limit
    };
    let start = if offset > isize::MAX as usize {
        isize::MAX as usize
    } else {
        offset
    };
    PageBounds { start, limit, end: start + limit - 1 }
}

/// Whether the ranking projection is rebuilt from the database: the first page came
/// back empty.
pub fn needs_rebuild(page_empty: bool, offset: usize) -> (r: bool)
    ensures
        r == (page_empty && offset == 0),
{
    page_empty && offset == 0
}

/// Ids of the cached entries that are still valid (parsed and found among the current
/// rows), in cache order, among the first `n` cached entries.
pub open spec fn kept_ids(cached: Seq<Option<u128>>, rows: Seq<u128>, n: int) -> Seq<u128>
    decreases n,
{
    if n <= 0 {
        seq![]
    } else {
        let prev = kept_ids(cached, rows, n - 1);
        match cached[n - 1] {
            Some(id) => if rows.contains(id) {
                prev.push(id)
            } else {
                prev
            },
            None => prev,
        }
    }
}

fn contains_id(rows: &Vec<u128>, id: u128) -> (r: bool)
    ensures
        r == rows@.contains(id),
{
    let mut i: usize = 0;
    while i < rows.len()
        invariant
            i <= rows.len(),
            forall|j: int| 0 <= j < i ==> rows@[j] != id,
        decreases rows.len() - i,
    {
        if rows[i] == id {
            return true;
        }
        i = i + 1;
    }
    false
}

/// Ranks a page: cached ids that no longer parse or no longer match a row are dropped,
/// and the remaining entries get consecutive ranks from `start + 1`, so that stale cache
/// entries leave no gaps in the numbering.
pub fn assign_ranks(start: usize, cached: &Vec<Option<u128>>, rows: &Vec<u128>) -> (r: Vec<
    (usize, u128),
>)
    requires
        start + cached@.len() + 1 <= usize::MAX,
    ensures
        r@.len() == kept_ids(cached@, rows@, cached@.len() as int).len(),
        forall|k: int|
            0 <= k < r@.len() ==> #[trigger] r@[k] == (
                (start + k + 1) as usize,
                kept_ids(cached@, rows@, cached@.len() as int)[k],
            ),
{
    let mut out: Vec<(usize, u128)> = Vec::new();
    let mut i: usize = 0;
    while i < cached.len()
        invariant
            i <= cached.len(),
            start + cached@.len() + 1 <= usize::MAX,
            out@.len() == kept_ids(cached@, rows@, i as int).len(),
            out@.len() <= i,
            forall|k: int|
                0 <= k < out@.len() ==> #[trigger] out@[k] == (
                    (start + k + 1) as usize,
                    kept_ids(cached@, rows@, i as int)[k],
                ),
        decreases cached.len() - i,
    {
        match cached[i] {
            Some(id) => {
                if contains_id(rows, id) {
                    let rank = start + out.len() + 1;
                    out.push((rank, id));
                }
            },
            None => {},
        }
        i = i + 1;
    }
    out
}

} // verus!
