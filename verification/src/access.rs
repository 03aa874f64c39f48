//! Bounds-checked access to the indexed items of a geometry (the points or
//! segments of a line or ring, the rectangles of one level of its index).
//! The engine itself does not check positions, so a lookup is made only
//! for a position that lies below the item count.

use vstd::prelude::*;

verus! {

/// The item at `index` among `count` items, fetched with `fetch`, or `None`
/// when `index` is not below `count`; `fetch` is called only in the first case.
pub fn checked_at<T, F: FnOnce(usize) -> T>(index: usize, count: usize, fetch: F) -> (r: Option<T>)
    requires
        index < count ==> call_requires(fetch, (index,)),
    ensures
        r is Some <==> index < count,
        r matches Some(v) ==> call_ensures(fetch, (index,), v),
{
    if index < count {
        Some(fetch(index))
    } else {
        None
    }
}

/// The item at position `item` of level `level`, where the index has
/// `num_levels` levels and `num_items` tells how many items a level holds;
/// `None` when either position is out of range.
///
/// `num_items` is asked only for a level below `num_levels`, and `fetch` only
/// when both positions are in range.
pub fn checked_level_at<T, N: FnOnce(usize) -> usize, F: FnOnce(usize, usize) -> T>(
    level: usize,
    item: usize,
    num_levels: usize,
    num_items: N,
    fetch: F,
) -> (r: Option<T>)
    requires
        level < num_levels ==> call_requires(num_items, (level,)),
        forall|n: usize|
            level < num_levels && item < n && #[trigger] call_ensures(num_items, (level,), n)
                ==> call_requires(fetch, (level, item)),
    ensures
        level >= num_levels ==> r is None,
        level < num_levels ==> exists|n: usize|
            #[trigger] call_ensures(num_items, (level,), n) && (r is Some <==> item < n),
        r matches Some(v) ==> call_ensures(fetch, (level, item), v),
{
    if level < num_levels {
        let n = num_items(level);
        if item < n {
            Some(fetch(level, item))
        } else {
            None
        }
    } else {
        None
    }
}

} // verus!
