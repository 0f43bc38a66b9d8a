//! Small collection helpers.

use vstd::prelude::*;

use vstd::std_specs::cmp::PartialEqSpec;

verus! {

/// Whether each of the first `n` elements of `a` has an equal element
/// somewhere in `b`.
pub open spec fn prefix_found_in<T: PartialEq + PartialEqSpec>(
    a: Seq<T>,
    b: Seq<T>,
    n: int,
) -> bool {
    forall|i: int|
        #![trigger a[i]]
        0 <= i < n ==> exists|j: int| 0 <= j < b.len() && (#[trigger] b[j]).eq_spec(&a[i])
}

/// Whether every element of `a` has an equal element somewhere in `b` (and
/// emptiness matches emptiness). This is the loose, one-sided containment
/// check the editor uses to decide whether two slices hold the same items;
/// it ignores multiplicity and order.
pub open spec fn is_loose_permutation_spec<T: PartialEq + PartialEqSpec>(
    a: Seq<T>,
    b: Seq<T>,
) -> bool {
    if a.len() == 0 {
        b.len() == 0
    } else {
        prefix_found_in(a, b, a.len() as int)
    }
}

/// Checks `is_loose_permutation_spec` on slices.
pub fn is_slice_equal_permutation<T: PartialEq + PartialEqSpec>(a: &[T], b: &[T]) -> (r: bool)
    requires
        T::obeys_eq_spec(),
    ensures
        r == is_loose_permutation_spec(a@, b@),
{
    if a.len() == 0 && b.len() != 0 {
        false
    } else if a.len() == 0 {
        true
    } else {
        let mut i: usize = 0;
        while i < a.len()
            invariant
                T::obeys_eq_spec(),
                i <= a@.len(),
                0 < a@.len(),
                prefix_found_in(a@, b@, i as int),
            decreases a@.len() - i,
        {
            let mut found = false;
            let mut j: usize = 0;
            while j < b.len() && !found
                invariant
                    T::obeys_eq_spec(),
                    i < a@.len(),
                    j <= b@.len(),
                    found ==> exists|k: int| 0 <= k < b@.len() && (#[trigger] b@[k]).eq_spec(
                        &a@[i as int],
                    ),
                    !found ==> forall|k: int| 0 <= k < j ==> !(#[trigger] b@[k]).eq_spec(
                        &a@[i as int],
                    ),
                decreases b@.len() - j + (if found { 0int } else { 1int }),
            {
                if b[j] == a[i] {
                    found = true;
                } else {
                    j = j + 1;
                }
            }
            if !found {
                proof {
                    assert(!is_loose_permutation_spec(a@, b@)) by {
                        if prefix_found_in(a@, b@, a@.len() as int) {
                            let x = a@[i as int];
                            assert(exists|j2: int|
                                0 <= j2 < b@.len() && (#[trigger] b@[j2]).eq_spec(
                                    &a@[i as int],
                                ));
                        }
                    }
                }
                return false;
            }
            i = i + 1;
            proof {
                assert(prefix_found_in(a@, b@, i as int)) by {
                    assert forall|k: int| #![trigger a@[k]] 0 <= k < i implies exists|j2: int|
                        0 <= j2 < b@.len() && (#[trigger] b@[j2]).eq_spec(&a@[k]) by {
                        if k < i - 1 {
                            let x = a@[k];
                        }
                    }
                }
            }
        }
        true
    }
}

} // verus!
