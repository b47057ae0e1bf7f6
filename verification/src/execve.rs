//! The argument vector of a program to run: an array of pointers in the
//! memory of the caller, ended by a null pointer.

use vstd::prelude::*;

verus! {

/// The place of the first null pointer among the first `max_string_number`
/// of `pointers`, if one of them is null. The pointers before that place
/// are those of the strings of the vector.
pub open spec fn first_null(pointers: Seq<usize>, max_string_number: nat) -> Option<nat>
    decreases pointers.len(),
{
    if pointers.len() == 0 {
        None
    } else {
        match first_null(pointers.drop_last(), max_string_number) {
            Some(k) => Some(k),
            None => if pointers.len() <= max_string_number && pointers.last() == 0 {
                Some((pointers.len() - 1) as nat)
            } else {
                None
            },
        }
    }
}

/// The first null pointer is null, stands within the bound, and no pointer
/// before it is null; where there is none, no pointer within the bound is
/// null.
pub proof fn lemma_first_null(pointers: Seq<usize>, max_string_number: nat)
    ensures
        match first_null(pointers, max_string_number) {
            Some(k) => k < max_string_number && k < pointers.len() && pointers[k as int] == 0
                && forall|i: int| 0 <= i < k ==> pointers[i] != 0,
            None => forall|i: int|
                0 <= i < max_string_number && i < pointers.len() ==> pointers[i] != 0,
        },
    decreases pointers.len(),
{
    if pointers.len() > 0 {
        let front = pointers.drop_last();
        lemma_first_null(front, max_string_number);
        match first_null(front, max_string_number) {
            Some(k) => {
                assert forall|i: int| 0 <= i < k implies pointers[i] != 0 by {
                    assert(front[i] == pointers[i]);
                }
                assert(front[k as int] == pointers[k as int]);
            },
            None => {
                assert forall|i: int| 0 <= i < pointers.len() - 1 && i
                    < max_string_number implies pointers[i] != 0 by {
                    assert(front[i] == pointers[i]);
                }
            },
        }
    }
}

/// Counts the strings of an argument vector: the number of pointers before
/// the first null pointer, if one of the first `max_string_number` pointers
/// is null.
pub fn count_until_null(pointers: &[usize], max_string_number: usize) -> (r: Option<usize>)
    ensures
        match r {
            Some(k) => first_null(pointers@, max_string_number as nat) == Some(k as nat),
            None => first_null(pointers@, max_string_number as nat) is None,
        },
        match r {
            Some(k) => k < max_string_number && k < pointers@.len() && pointers@[k as int] == 0
                && forall|i: int| 0 <= i < k ==> pointers@[i] != 0,
            None => forall|i: int|
                0 <= i < max_string_number && i < pointers@.len() ==> pointers@[i] != 0,
        },
{
    let mut i: usize = 0;
    while i < pointers.len() && i < max_string_number
        invariant
            i <= pointers@.len(),
            i <= max_string_number,
            first_null(pointers@.take(i as int), max_string_number as nat) is None,
        decreases pointers@.len() - i,
    {
        proof {
            assert(pointers@.take(i + 1).drop_last() =~= pointers@.take(i as int));
            assert(pointers@.take(i + 1).last() == pointers@[i as int]);
        }
        if pointers[i] == 0 {
            proof {
                assert(first_null(pointers@.take(i + 1), max_string_number as nat) == Some(
                    i as nat,
                ));
                lemma_first_null_of_prefix(
                    pointers@,
                    (i + 1) as int,
                    max_string_number as nat,
                    i as nat,
                );
                lemma_first_null(pointers@, max_string_number as nat);
            }
            return Some(i);
        }
        assert(first_null(pointers@.take(i + 1), max_string_number as nat) is None);
        i = i + 1;
    }
    proof {
        lemma_no_null_within_bound(pointers@, i as int, max_string_number as nat);
        lemma_first_null(pointers@, max_string_number as nat);
    }
    None
}

/// A null pointer that is the first of a prefix is the first of the whole.
proof fn lemma_first_null_of_prefix(pointers: Seq<usize>, n: int, max: nat, k: nat)
    requires
        0 <= n <= pointers.len(),
        first_null(pointers.take(n), max) == Some(k),
    ensures
        first_null(pointers, max) == Some(k),
    decreases pointers.len() - n,
{
    if n < pointers.len() {
        assert(pointers.take(n + 1).drop_last() =~= pointers.take(n));
        lemma_first_null_of_prefix(pointers, n + 1, max, k);
    } else {
        assert(pointers.take(n) =~= pointers);
    }
}

/// Where the pointers within the bound hold no null pointer, the whole
/// vector has no first null pointer.
proof fn lemma_no_null_within_bound(pointers: Seq<usize>, n: int, max: nat)
    requires
        0 <= n <= pointers.len(),
        n == pointers.len() || n >= max,
        first_null(pointers.take(n), max) is None,
    ensures
        first_null(pointers, max) is None,
    decreases pointers.len() - n,
{
    if n < pointers.len() {
        assert(pointers.take(n + 1).drop_last() =~= pointers.take(n));
        lemma_no_null_within_bound(pointers, n + 1, max);
    } else {
        assert(pointers.take(n) =~= pointers);
    }
}

} // verus!
