use vstd::prelude::*;

verus! {

// ---------------------------------------------------------------------------
// The bidirectional logical-ID ↔ native-handle table, kept in a bimap.  The
// table's contents are modelled as the set of its (logical, native) pairs.
// ---------------------------------------------------------------------------

#[verifier::external_type_specification]
#[verifier::external_body]
#[verifier::reject_recursive_types(L)]
#[verifier::reject_recursive_types(R)]
#[verifier::reject_recursive_types(LS)]
#[verifier::reject_recursive_types(RS)]
pub struct ExBiHashMap<L, R, LS, RS>(bimap::BiHashMap<L, R, LS, RS>);

/// The left-right pairs the bimap holds.
pub uninterp spec fn bimap_pairs(m: bimap::BiMap<i32, u64>) -> Set<(i32, u64)>;

/// Relies on BiHashMap::new: it creates an empty bimap.
#[verifier::external_body]
pub(crate) fn bimap_new() -> (m: bimap::BiMap<i32, u64>)
    ensures
        bimap_pairs(m) == Set::<(i32, u64)>::empty(),
{
    bimap::BiMap::new()
}

/// Relies on BiHashMap::insert: when neither side of the pair is present it
/// overwrites nothing and adds exactly the one pair.
#[verifier::external_body]
pub(crate) fn bimap_insert(m: &mut bimap::BiMap<i32, u64>, l: i32, r: u64)
    requires
        forall|p: (i32, u64)| bimap_pairs(*old(m)).contains(p) ==> p.0 != l && p.1 != r,
    ensures
        bimap_pairs(*final(m)) == bimap_pairs(*old(m)).insert((l, r)),
{
    let _ = m.insert(l, r);
}

/// Relies on BiHashMap::contains_left: true exactly when some pair has this
/// left value.
#[verifier::external_body]
pub(crate) fn bimap_contains_left(m: &bimap::BiMap<i32, u64>, l: i32) -> (b: bool)
    ensures
        b == (exists|p: (i32, u64)| #[trigger] bimap_pairs(*m).contains(p) && p.0 == l),
{
    m.contains_left(&l)
}

/// Relies on BiHashMap::get_by_right: the left value paired with this right
/// value, if any pair has it.
#[verifier::external_body]
pub(crate) fn bimap_get_by_right(m: &bimap::BiMap<i32, u64>, r: u64) -> (l: Option<i32>)
    ensures
        l matches Some(x) ==> bimap_pairs(*m).contains((x, r)),
        l is None ==> forall|p: (i32, u64)| #[trigger] bimap_pairs(*m).contains(p) ==> p.1 != r,
{
    m.get_by_right(&r).copied()
}

/// Relies on BiHashMap::remove_by_left: it removes and returns the pair with
/// this left value, and no other; a bimap holds at most one such pair.
#[verifier::external_body]
pub(crate) fn bimap_remove_by_left(m: &mut bimap::BiMap<i32, u64>, l: i32) -> (res: Option<
    (i32, u64),
>)
    ensures
        res matches Some(p) ==> p.0 == l && bimap_pairs(*old(m)).contains(p) && bimap_pairs(
            *final(m),
        ) == bimap_pairs(*old(m)).remove(p),
        res is None ==> bimap_pairs(*final(m)) == bimap_pairs(*old(m)) && forall|p: (i32, u64)|
            #[trigger] bimap_pairs(*old(m)).contains(p) ==> p.0 != l,
{
    m.remove_by_left(&l)
}

} // verus!
