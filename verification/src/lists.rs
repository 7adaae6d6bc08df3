//! Facts about the members of a list as it grows and shrinks.

use vstd::prelude::*;

verus! {

/// The first `i + 1` elements of a list are the first `i` and the next one; so are their
/// members.
pub proof fn lemma_next_member<A>(v: Seq<A>, i: int)
    requires
        0 <= i < v.len(),
    ensures
        v.take(i + 1) == v.take(i).push(v[i]),
        v.take(i + 1).to_set() == v.take(i).to_set().insert(v[i]),
        forall|x: A| v.take(i + 1).contains(x) <==> v.take(i).contains(x) || x == v[i],
{
    v.lemma_take_succ_push(i);
    v.take(i).lemma_push_to_set_commute(v[i]);
    assert forall|x: A| v.take(i + 1).contains(x) <==> v.take(i).contains(x) || x == v[i] by {
        assert(v.take(i + 1).to_set().contains(x) <==> v.take(i).to_set().insert(v[i]).contains(x));
    }
}

/// The members of a list with an element inserted are those of the list, and the element.
pub proof fn lemma_insert_members<A>(v: Seq<A>, at: int, item: A)
    requires
        0 <= at <= v.len(),
    ensures
        v.insert(at, item).to_set() == v.to_set().insert(item),
{
    let after = v.insert(at, item);
    assert forall|t: A| after.to_set().contains(t) <==> v.to_set().insert(item).contains(t) by {
        if after.contains(t) {
            let k = choose|k: int| 0 <= k < after.len() && after[k] == t;
            if k < at {
                assert(v[k] == t);
            } else if k > at {
                assert(v[k - 1] == t);
            }
        }
        if v.contains(t) {
            let k = choose|k: int| 0 <= k < v.len() && v[k] == t;
            if k < at {
                assert(after[k] == t);
            } else {
                assert(after[k + 1] == t);
            }
        }
        if t == item {
            assert(after[at] == t);
        }
    }
    assert(after.to_set() =~= v.to_set().insert(item));
}

/// The members of a list without repetitions, with one element taken out, are those of the
/// list but for that element.
pub proof fn lemma_remove_members<A>(v: Seq<A>, at: int)
    requires
        0 <= at < v.len(),
        v.no_duplicates(),
    ensures
        v.remove(at).to_set() == v.to_set().remove(v[at]),
{
    let after = v.remove(at);
    assert forall|t: A| after.to_set().contains(t) <==> v.to_set().remove(v[at]).contains(t) by {
        if after.contains(t) {
            let i = choose|i: int| 0 <= i < after.len() && after[i] == t;
            let bi = if i < at {
                i
            } else {
                i + 1
            };
            assert(v[bi] == t);
        }
        if v.contains(t) && t != v[at] {
            let i = choose|i: int| 0 <= i < v.len() && v[i] == t;
            if i < at {
                assert(after[i] == t);
            } else {
                assert(after[i - 1] == t);
            }
        }
    }
    assert(after.to_set() =~= v.to_set().remove(v[at]));
}

} // verus!
