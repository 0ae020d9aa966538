//! Facts about finding a record by its id in a sequence of ids.

use vstd::prelude::*;

verus! {

/// The position of the first `id` in `ids`, or -1 when `ids` does not hold it.
pub open spec fn first_index(ids: Seq<u128>, id: u128) -> int
    decreases ids.len(),
{
    if ids.len() == 0 {
        -1
    } else if ids[0] == id {
        0
    } else {
        let r = first_index(ids.drop_first(), id);
        if r < 0 {
            -1
        } else {
            r + 1
        }
    }
}

/// `first_index` is the first position that holds `id`, or -1 when none does.
pub proof fn lemma_first_index(ids: Seq<u128>, id: u128)
    ensures
        -1 <= first_index(ids, id) < ids.len(),
        first_index(ids, id) == -1 <==> (forall|j: int| 0 <= j < ids.len() ==> ids[j] != id),
        first_index(ids, id) >= 0 ==> ids[first_index(ids, id)] == id,
        forall|j: int| 0 <= j < first_index(ids, id) ==> ids[j] != id,
    decreases ids.len(),
{
    if ids.len() > 0 {
        let rest = ids.drop_first();
        lemma_first_index(rest, id);
        if ids[0] != id {
            assert forall|j: int| 0 < j < ids.len() implies ids[j] == rest[j - 1] by {}
            if first_index(rest, id) == -1 {
                assert forall|j: int| 0 <= j < ids.len() implies ids[j] != id by {
                    if j > 0 {
                        assert(ids[j] == rest[j - 1]);
                    }
                }
            } else {
                assert forall|j: int| 0 <= j < first_index(ids, id) implies ids[j] != id by {
                    if j > 0 {
                        assert(ids[j] == rest[j - 1]);
                    }
                }
            }
        }
    }
}

/// A position that holds `id` after positions that do not is `first_index`.
pub proof fn lemma_first_index_at(ids: Seq<u128>, id: u128, i: int)
    requires
        0 <= i < ids.len(),
        ids[i] == id,
        forall|j: int| 0 <= j < i ==> ids[j] != id,
    ensures
        first_index(ids, id) == i,
{
    lemma_first_index(ids, id);
}

} // verus!
