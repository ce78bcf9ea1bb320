//! Operations on lists of token ids.
use vstd::prelude::*;

use crate::uint::U256;

verus! {

/// Whether `id` occurs in `ids`.
pub fn contains_id(ids: &Vec<U256>, id: &U256) -> (r: bool)
    ensures
        r == ids@.contains(*id),
{
    let mut i: usize = 0;
    while i < ids.len()
        invariant
            i <= ids@.len(),
            forall|j: int| 0 <= j < i ==> ids@[j] != *id,
        decreases ids@.len() - i,
    {
        if ids[i] == *id {
            assert(ids@[i as int] == *id);
            return true;
        }
        i += 1;
    }
    false
}

/// A copy of `ids`.
pub fn copy_ids(ids: &Vec<U256>) -> (r: Vec<U256>)
    ensures
        r@ == ids@,
{
    let mut r: Vec<U256> = Vec::new();
    let mut i: usize = 0;
    while i < ids.len()
        invariant
            i <= ids@.len(),
            r@ == ids@.subrange(0, i as int),
        decreases ids@.len() - i,
    {
        r.push(ids[i]);
        i += 1;
        assert(r@ =~= ids@.subrange(0, i as int));
    }
    assert(r@ =~= ids@);
    r
}

/// The first position at which `id` occurs in `ids`.
pub open spec fn is_first_position(ids: Seq<U256>, id: U256, i: int) -> bool {
    &&& 0 <= i < ids.len()
    &&& ids[i] == id
    &&& forall|j: int| 0 <= j < i ==> ids[j] != id
}

/// `ids` without the first occurrence of `id`; `ids` itself where `id` does
/// not occur.
pub open spec fn without_first(ids: Seq<U256>, id: U256) -> Seq<U256> {
    if ids.contains(id) {
        ids.remove(choose|i: int| is_first_position(ids, id, i))
    } else {
        ids
    }
}

/// The first position holds exactly at one index.
pub proof fn lemma_first_position_unique(ids: Seq<U256>, id: U256, i: int, j: int)
    requires
        is_first_position(ids, id, i),
        is_first_position(ids, id, j),
    ensures
        i == j,
{
    if i < j {
        assert(ids[i] != id);
    } else if j < i {
        assert(ids[j] != id);
    }
}

/// The first position at which `id` occurs in `ids`, if it occurs.
pub fn position_of(ids: &Vec<U256>, id: &U256) -> (r: Option<usize>)
    ensures
        r is None <==> !ids@.contains(*id),
        r matches Some(i) ==> is_first_position(ids@, *id, i as int),
{
    let mut i: usize = 0;
    while i < ids.len()
        invariant
            i <= ids@.len(),
            forall|j: int| 0 <= j < i ==> ids@[j] != *id,
        decreases ids@.len() - i,
    {
        if ids[i] == *id {
            return Some(i);
        }
        i += 1;
    }
    None
}

/// Removes the first occurrence of `id`, if any; reports whether there was one.
pub fn remove_first(ids: &mut Vec<U256>, id: &U256) -> (found: bool)
    ensures
        found == old(ids)@.contains(*id),
        final(ids)@ == without_first(old(ids)@, *id),
{
    match position_of(ids, id) {
        Some(i) => {
            let ghost c = choose|k: int| is_first_position(old(ids)@, *id, k);
            proof { lemma_first_position_unique(old(ids)@, *id, i as int, c); }
            ids.remove(i);
            true
        },
        None => false,
    }
}

/// In a list where `id` occurs once, removing its first occurrence removes
/// exactly `id` and leaves no repeated id.
pub proof fn lemma_without_first_unique(ids: Seq<U256>, id: U256)
    requires
        ids.no_duplicates(),
        ids.contains(id),
    ensures
        without_first(ids, id).no_duplicates(),
        forall|u: U256| #[trigger] without_first(ids, id).contains(u) <==> (ids.contains(u) && u != id),
        without_first(ids, id).to_set() == ids.to_set().remove(id),
{
    let i = choose|i: int| is_first_position(ids, id, i);
    let k = choose|k: int| 0 <= k < ids.len() && ids[k] == id;
    assert(exists|j: int| is_first_position(ids, id, j)) by {
        assert(is_first_position(ids, id, k)) by {
            assert forall|j: int| 0 <= j < k implies ids[j] != id by {
                assert(ids[j] != ids[k]);
            }
        }
    }
    let r = ids.remove(i);
    ids.remove_ensures(i);
    assert(without_first(ids, id) == r);
    assert forall|a: int, b: int| 0 <= a < b < r.len() implies r[a] != r[b] by {
        let a1 = if a < i { a } else { a + 1 };
        let b1 = if b < i { b } else { b + 1 };
        assert(r[a] == ids[a1]);
        assert(r[b] == ids[b1]);
    }
    assert forall|u: U256| #[trigger] r.contains(u) <==> (ids.contains(u) && u != id) by {
        if r.contains(u) {
            let a = choose|a: int| 0 <= a < r.len() && r[a] == u;
            let a1 = if a < i { a } else { a + 1 };
            assert(r[a] == ids[a1]);
            assert(ids[a1] != ids[i]);
        }
        if ids.contains(u) && u != id {
            let a = choose|a: int| 0 <= a < ids.len() && ids[a] == u;
            if a < i {
                assert(r[a] == u);
            } else {
                assert(a != i);
                assert(r[a - 1] == u);
            }
        }
    }
    assert(r.to_set() =~= ids.to_set().remove(id));
}

} // verus!
