//! Trusted boundary to the interval index (the `rangemap` crate). A
//! `RangeMap<u64, u64>` stands behind every virtual machine's
//! guest-physical-range bookkeeping; its contents are modelled pointwise, as
//! the partial map from each covered address to the stored value.

use vstd::prelude::*;

verus! {

#[verifier::external_type_specification]
#[verifier::external_body]
#[verifier::reject_recursive_types(K)]
#[verifier::reject_recursive_types(V)]
pub struct ExRangeMap<K, V>(rangemap::RangeMap<K, V>);

/// The pointwise contents of a range map over 64-bit addresses: each address
/// covered by some stored range maps to that range's value.
pub uninterp spec fn range_cover(m: rangemap::RangeMap<u64, u64>) -> Map<u64, u64>;

/// Whether the range map covers no address at all.
pub open spec fn covers_nothing(m: rangemap::RangeMap<u64, u64>) -> bool {
    range_cover(m) == Map::<u64, u64>::empty()
}

/// Whether the range map covers some address in `[start, end)`.
pub open spec fn covers_within(m: rangemap::RangeMap<u64, u64>, start: u64, end: u64) -> bool {
    exists|k: u64| start <= k < end && #[trigger] range_cover(m).contains_key(k)
}

/// Relies on rangemap::RangeMap::new: the fresh map covers no address.
#[verifier::external_body]
pub fn range_map_new() -> (r: rangemap::RangeMap<u64, u64>)
    ensures
        covers_nothing(r),
{
    rangemap::RangeMap::new()
}

/// Relies on rangemap::RangeMap::get: the value stored for the range that
/// covers `key`, if any range does.
#[verifier::external_body]
pub fn range_map_get(m: &rangemap::RangeMap<u64, u64>, key: u64) -> (r: Option<u64>)
    ensures
        r matches Some(v) ==> range_cover(*m).contains_key(key) && range_cover(*m)[key] == v,
        r is None ==> !range_cover(*m).contains_key(key),
{
    m.get(&key).copied()
}

/// Relies on rangemap::RangeMap::overlaps: whether any stored range covers
/// some address in `[start, end)`. The query range must be non-empty:
/// `overlaps` answers for stored ranges that merely touch the query
/// endpoints, which agrees with the pointwise reading only when some
/// address lies between them.
#[verifier::external_body]
pub fn range_map_overlaps(m: &rangemap::RangeMap<u64, u64>, start: u64, end: u64) -> (r: bool)
    requires
        start < end,
    ensures
        r == covers_within(*m, start, end),
{
    m.overlaps(&(start..end))
}

/// Relies on rangemap::RangeMap::insert: afterwards every address in
/// `[start, end)` maps to `value`, and every other address is as before.
/// `insert` panics on an empty range, so one is excluded here.
#[verifier::external_body]
pub fn range_map_insert(m: &mut rangemap::RangeMap<u64, u64>, start: u64, end: u64, value: u64)
    requires
        start < end,
    ensures
        range_cover(*final(m)) == range_cover(*old(m)).union_prefer_right(
            Map::new(|k: u64| start <= k < end, |k: u64| value),
        ),
{
    m.insert(start..end, value);
}

/// Relies on rangemap::RangeMap::remove: afterwards no address in `[start,
/// end)` is covered, and every other address is as before. `remove` panics
/// on an empty range, so one is excluded here.
#[verifier::external_body]
pub fn range_map_remove(m: &mut rangemap::RangeMap<u64, u64>, start: u64, end: u64)
    requires
        start < end,
    ensures
        range_cover(*final(m)) == range_cover(*old(m)).remove_keys(
            Set::new(|k: u64| start <= k < end),
        ),
{
    m.remove(start..end);
}

} // verus!
