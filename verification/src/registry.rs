//! Lookup of entries by name, shared by the instance lists.
use vstd::prelude::*;

verus! {

/// Position of the first name equal to `n`, or -1 when there is none.
pub open spec fn name_index(names: Seq<Seq<char>>, n: Seq<char>) -> int
    decreases names.len(),
{
    if names.len() == 0 {
        -1
    } else if names[0] == n {
        0
    } else {
        let r = name_index(names.drop_first(), n);
        if r < 0 {
            -1
        } else {
            r + 1
        }
    }
}

/// `name_index` finds the first equal name; -1 means there is none.
pub proof fn lemma_name_index(names: Seq<Seq<char>>, n: Seq<char>)
    ensures
        -1 <= name_index(names, n) < names.len(),
        name_index(names, n) >= 0 ==> names[name_index(names, n)] == n,
        forall|j: int| 0 <= j < names.len() && j < name_index(names, n) ==> names[j] != n,
        name_index(names, n) < 0 ==> forall|j: int| 0 <= j < names.len() ==> names[j] != n,
    decreases names.len(),
{
    if names.len() > 0 && names[0] != n {
        lemma_name_index(names.drop_first(), n);
        assert forall|j: int| 1 <= j < names.len() implies names[j] == names.drop_first()[j
            - 1] by {}
    }
}

/// Any index with the defining property of `name_index` is `name_index`.
pub proof fn lemma_name_index_unique(names: Seq<Seq<char>>, n: Seq<char>, k: int)
    requires
        -1 <= k < names.len(),
        k >= 0 ==> names[k] == n,
        forall|j: int| 0 <= j < names.len() && (k < 0 || j < k) ==> names[j] != n,
    ensures
        name_index(names, n) == k,
{
    lemma_name_index(names, n);
    let m = name_index(names, n);
    if m >= 0 && k >= 0 {
        if m < k {
            assert(names[m] != n);
        }
        if k < m {
            assert(names[k] != n);
        }
    } else if m >= 0 {
        assert(names[m] != n);
    } else if k >= 0 {
        assert(names[k] != n);
    }
}

/// No name occurs twice.
pub open spec fn names_unique(names: Seq<Seq<char>>) -> bool {
    forall|i: int, j: int| 0 <= i < j < names.len() ==> names[i] != names[j]
}

/// The largest of the ids, 0 when there are none.
pub open spec fn max_id(ids: Seq<usize>) -> nat
    decreases ids.len(),
{
    if ids.len() == 0 {
        0
    } else {
        let m = max_id(ids.drop_last());
        if ids.last() > m {
            ids.last() as nat
        } else {
            m
        }
    }
}

/// Every id is at most `max_id`.
pub proof fn lemma_max_id(ids: Seq<usize>)
    ensures
        forall|i: int| 0 <= i < ids.len() ==> ids[i] <= max_id(ids),
        max_id(ids) <= usize::MAX,
    decreases ids.len(),
{
    if ids.len() > 0 {
        lemma_max_id(ids.drop_last());
        assert forall|i: int| 0 <= i < ids.len() implies ids[i] <= max_id(ids) by {
            if i < ids.len() - 1 {
                assert(ids[i] == ids.drop_last()[i]);
            }
        }
    }
}

/// The largest id of a list, 0 when it is empty.
pub fn largest_id(ids: &Vec<usize>) -> (m: usize)
    ensures
        m == max_id(ids@),
{
    let mut m: usize = 0;
    let mut i: usize = 0;
    assert(ids@.take(0) =~= Seq::<usize>::empty());
    while i < ids.len()
        invariant
            i <= ids.len(),
            m == max_id(ids@.take(i as int)),
        decreases ids.len() - i,
    {
        assert(ids@.take(i + 1).drop_last() =~= ids@.take(i as int));
        if ids[i] > m {
            m = ids[i];
        }
        i += 1;
    }
    assert(ids@.take(ids.len() as int) =~= ids@);
    m
}

} // verus!
