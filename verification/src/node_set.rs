//! The override set the scene graph hands to the synchronizer: the nodes
//! that are currently permitted to sync, keyed by the raw parts of their
//! handles. The set is fxhash's `FxHashSet`, reached through trusted
//! wrappers.

use vstd::prelude::*;

use fxhash::FxHashSet;

verus! {

/// Declares fxhash's hasher type so the set type below can be named.
#[verifier::external_type_specification]
#[verifier::external_body]
pub struct ExFxHasher(fxhash::FxHasher);

/// Declares std's default-hasher builder, the second parameter of the set.
#[verifier::external_type_specification]
#[verifier::external_body]
#[verifier::reject_recursive_types(H)]
pub struct ExBuildHasherDefault<H>(core::hash::BuildHasherDefault<H>);

/// The pairs an override set holds.
pub uninterp spec fn node_set_contents(s: FxHashSet<(usize, u64)>) -> Set<(usize, u64)>;

/// Relies on `HashSet::default` (with fxhash's hasher): a fresh set holds
/// nothing.
#[verifier::external_body]
pub fn node_set_new() -> (s: FxHashSet<(usize, u64)>)
    ensures
        node_set_contents(s) == Set::<(usize, u64)>::empty(),
{
    FxHashSet::default()
}

/// Relies on `HashSet::insert` with fxhash's deterministic hasher and the
/// standard `Hash`/`Eq` of integer pairs: afterwards the set holds the pair
/// and everything it held before.
#[verifier::external_body]
pub fn node_set_insert(s: &mut FxHashSet<(usize, u64)>, key: (usize, u64))
    ensures
        node_set_contents(*final(s)) == node_set_contents(*old(s)).insert(key),
{
    s.insert(key);
}

/// Relies on `HashSet::contains` with fxhash's deterministic hasher and the
/// standard `Hash`/`Eq` of integer pairs: membership in the set.
#[verifier::external_body]
pub fn node_set_contains(s: &FxHashSet<(usize, u64)>, key: (usize, u64)) -> (r: bool)
    ensures
        r == node_set_contents(*s).contains(key),
{
    s.contains(&key)
}

} // verus!
