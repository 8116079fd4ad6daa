use vstd::prelude::*;

verus! {

/// The position of the first occurrence of `key` in `keys`; the length of
/// `keys` where it does not occur.
pub open spec fn position<T>(keys: Seq<T>, key: T) -> int
    decreases keys.len(),
{
    if keys.len() == 0 {
        0
    } else if keys[0] == key {
        0
    } else {
        1 + position(keys.drop_first(), key)
    }
}

/// Whether `key` occurs in `keys`.
pub open spec fn occurs<T>(keys: Seq<T>, key: T) -> bool {
    position(keys, key) < keys.len()
}

/// Whether no key occurs twice.
pub open spec fn distinct<T>(keys: Seq<T>) -> bool {
    forall|i: int, j: int| 0 <= i < j < keys.len() ==> keys[i] != keys[j]
}

/// The position lies within the sequence or at its end, holds the key where
/// it lies within, and nothing before it holds the key.
pub proof fn lemma_position<T>(keys: Seq<T>, key: T)
    ensures
        0 <= position(keys, key) <= keys.len(),
        position(keys, key) < keys.len() ==> keys[position(keys, key)] == key,
        forall|j: int| 0 <= j < position(keys, key) ==> keys[j] != key,
    decreases keys.len(),
{
    if keys.len() != 0 && keys[0] != key {
        let rest = keys.drop_first();
        lemma_position(rest, key);
        assert forall|j: int| 0 <= j < position(keys, key) implies keys[j] != key by {
            if j > 0 {
                assert(rest[j - 1] == keys[j]);
            }
        }
    }
}

/// The first place that holds the key is its position.
pub proof fn lemma_position_at<T>(keys: Seq<T>, key: T, i: int)
    requires
        0 <= i < keys.len(),
        keys[i] == key,
        forall|j: int| 0 <= j < i ==> keys[j] != key,
    ensures
        position(keys, key) == i,
{
    lemma_position(keys, key);
}

/// A key that no place holds has the length as its position.
pub proof fn lemma_position_absent<T>(keys: Seq<T>, key: T)
    requires
        forall|j: int| 0 <= j < keys.len() ==> keys[j] != key,
    ensures
        position(keys, key) == keys.len(),
{
    lemma_position(keys, key);
}

/// Among distinct keys, every place is the position of its own key.
pub proof fn lemma_position_distinct<T>(keys: Seq<T>, i: int)
    requires
        distinct(keys),
        0 <= i < keys.len(),
    ensures
        position(keys, keys[i]) == i,
{
    lemma_position(keys, keys[i]);
}

} // verus!
