//! Finding the first entry with a given key in a list of keys.
//!
//! The lists of this crate that are searched by name keep their entries in
//! the order in which the names were first listed, and the first entry
//! with a name is the one that counts.

use vstd::prelude::*;

verus! {

/// The position of the first `key` in `keys`, or the length of `keys`
/// when it holds none.
pub open spec fn first_index<A>(keys: Seq<A>, key: A) -> int
    decreases keys.len(),
{
    if keys.len() == 0 {
        0
    } else if keys[0] == key {
        0
    } else {
        1 + first_index(keys.drop_first(), key)
    }
}

/// `first_index` is within bounds, lands on the key, and passes over no
/// entry with the key.
pub proof fn first_index_is_first<A>(keys: Seq<A>, key: A)
    ensures
        0 <= first_index(keys, key) <= keys.len(),
        first_index(keys, key) < keys.len() ==> keys[first_index(keys, key)] == key,
        forall|j: int| 0 <= j < first_index(keys, key) ==> keys[j] != key,
    decreases keys.len(),
{
    if keys.len() > 0 && keys[0] != key {
        let rest = keys.drop_first();
        first_index_is_first(rest, key);
        assert forall|j: int| 0 <= j < first_index(keys, key) implies keys[j] != key by {
            if j > 0 {
                assert(rest[j - 1] == keys[j]);
            }
        }
    }
}

/// A position that holds the key and has no entry with the key before it
/// is the first index of the key; so is the length, when no entry has
/// the key.
pub proof fn first_index_found<A>(keys: Seq<A>, key: A, at: int)
    requires
        0 <= at <= keys.len(),
        forall|j: int| 0 <= j < at ==> keys[j] != key,
        at < keys.len() ==> keys[at] == key,
    ensures
        first_index(keys, key) == at,
{
    first_index_is_first(keys, key);
    let first = first_index(keys, key);
    if first < at {
        assert(keys[first] != key);
    }
}

/// Putting a value under a key, in place where the key is listed and at
/// the end where it is not, lists the key where it was or at the end, and
/// moves no other key.
pub proof fn first_index_after_put<A>(before: Seq<A>, after: Seq<A>, key: A)
    requires
        first_index(before, key) < before.len() ==> after == before,
        first_index(before, key) >= before.len() ==> after == before.push(key),
    ensures
        first_index(after, key) == first_index(before, key),
        first_index(after, key) < after.len(),
        forall|other: A|
            other != key ==> {
                &&& (#[trigger] first_index(after, other) < after.len()) == (first_index(
                    before,
                    other,
                ) < before.len())
                &&& first_index(before, other) < before.len() ==> first_index(after, other)
                    == first_index(before, other)
            },
{
    first_index_is_first(before, key);
    let at = first_index(before, key);
    if at < before.len() {
        assert forall|other: A| other != key implies (#[trigger] first_index(after, other)
            < after.len()) == (first_index(before, other) < before.len()) by {
            first_index_is_first(before, other);
        }
    } else {
        assert forall|j: int| 0 <= j < at implies after[j] != key by {
            assert(after[j] == before[j]);
        }
        first_index_found(after, key, at);
        assert forall|other: A| other != key implies {
            &&& (#[trigger] first_index(after, other) < after.len()) == (first_index(before, other)
                < before.len())
            &&& first_index(before, other) < before.len() ==> first_index(after, other)
                == first_index(before, other)
        } by {
            first_index_is_first(before, other);
            let found = first_index(before, other);
            if found < before.len() {
                assert forall|j: int| 0 <= j < found implies after[j] != other by {
                    assert(after[j] == before[j]);
                }
                assert(after[found] == before[found]);
                first_index_found(after, other, found);
            } else {
                assert forall|j: int| 0 <= j < after.len() implies after[j] != other by {
                    if j < before.len() {
                        assert(after[j] == before[j]);
                    }
                }
                first_index_found(after, other, after.len() as int);
            }
        }
    }
}

} // verus!
