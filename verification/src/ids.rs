//! How documents kept in memory are numbered: each new document gets the number one above
//! how many there are.
use vstd::prelude::*;
use vstd::set_lib::*;

verus! {

/// All ids are positive.
pub open spec fn numbered<V>(documents: Map<i32, V>) -> bool {
    &&& documents.dom().finite()
    &&& forall|id: i32| #[trigger] documents.contains_key(id) ==> id >= 1
}

/// The ids are exactly the numbers from 1 up to how many documents there are.
pub open spec fn dense<V>(documents: Map<i32, V>) -> bool {
    &&& documents.dom().finite()
    &&& forall|id: i32| #[trigger] documents.contains_key(id) <==> 1 <= id <= documents.dom().len()
}

/// Positive ids bound how many documents there are.
pub proof fn lemma_numbered_bound<V>(documents: Map<i32, V>)
    requires
        numbered(documents),
    ensures
        documents.dom().len() <= i32::MAX,
{
    let f = |id: i32| id as int;
    let ids = documents.dom().map(f);
    lemma_map_size(documents.dom(), ids, f);
    lemma_int_range(1, i32::MAX + 1);
    assert(ids.subset_of(set_int_range(1, i32::MAX + 1)));
    lemma_len_subset(ids, set_int_range(1, i32::MAX + 1));
}

/// Where there are no gaps, a new document gets an unused id and leaves no gap.
pub proof fn lemma_dense_insert<V>(documents: Map<i32, V>, id: i32, document: V)
    requires
        dense(documents),
        id == documents.dom().len() + 1,
    ensures
        !documents.contains_key(id),
        dense(documents.insert(id, document)),
        documents.insert(id, document).dom().len() == documents.dom().len() + 1,
{
    assert(documents.insert(id, document).dom() == documents.dom().insert(id));
}

/// Taking away the newest document leaves no gap.
pub proof fn lemma_dense_remove_newest<V>(documents: Map<i32, V>, id: i32)
    requires
        dense(documents),
        id == documents.dom().len(),
        id >= 1,
    ensures
        dense(documents.remove(id)),
{
    assert(documents.contains_key(id));
    assert(documents.remove(id).dom() == documents.dom().remove(id));
}

} // verus!
