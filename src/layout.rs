//! How a run of elements and a run of groups correspond, and the laws that
//! tie widening and narrowing together.
use vstd::prelude::*;

use crate::sliceomorphic::IsSliceomorphic;

verus! {

/// The elements of a run of groups, group after group.
pub open spec fn flatten<V: IsSliceomorphic>(groups: Seq<V>) -> Seq<V::Element> {
    groups.map_values(|g: V| g.elements()).flatten()
}

/// `groups` cuts `flat` into consecutive pieces of `V::LEN` elements: group
/// `i` holds the elements from `i * LEN` up to `(i + 1) * LEN`, and nothing of
/// `flat` is left over.
pub open spec fn is_grouping<V: IsSliceomorphic>(flat: Seq<V::Element>, groups: Seq<V>) -> bool {
    &&& flat.len() == groups.len() * V::LEN
    &&& forall|i: int|
        0 <= i < groups.len() ==> (#[trigger] groups[i]).elements() == flat.subrange(
            i * V::LEN,
            i * V::LEN + V::LEN,
        )
}

/// Flattening cuts back along the groups: group `i` of a run of groups is the
/// `i`-th piece of `LEN` elements of its flattening.
pub proof fn lemma_flatten_is_grouping<V: IsSliceomorphic>(groups: Seq<V>)
    ensures
        is_grouping(flatten(groups), groups),
    decreases groups.len(),
{
    let len = V::LEN as int;
    if groups.len() == 0 {
        assert(groups.map_values(|g: V| g.elements()) =~= Seq::<Seq<V::Element>>::empty());
        assert(flatten(groups) =~= Seq::<V::Element>::empty());
    } else {
        let rest = groups.drop_first();
        lemma_flatten_is_grouping(rest);
        let mapped = groups.map_values(|g: V| g.elements());
        assert(mapped.drop_first() =~= rest.map_values(|g: V| g.elements()));
        let head = groups[0].elements();
        let tail = flatten(rest);
        assert(flatten(groups) == head + tail);
        groups[0].lemma_elements_len();
        let n = groups.len();
        assert(n * len == len + (n - 1) * len) by (nonlinear_arith);
        let flat = flatten(groups);
        assert forall|i: int| 0 <= i < groups.len() implies (#[trigger] groups[i]).elements()
            == flat.subrange(i * len, i * len + len) by {
            if i == 0 {
                assert(flat.subrange(0, len) =~= head);
            } else {
                assert(groups[i] == rest[i - 1]);
                assert(i * len == len + (i - 1) * len) by (nonlinear_arith);
                assert((i - 1) * len + len <= (n - 1) * len) by (nonlinear_arith)
                    requires
                        i < n,
                        len >= 0,
                ;
                assert(flat.subrange(i * len, i * len + len) =~= tail.subrange(
                    (i - 1) * len,
                    (i - 1) * len + len,
                ));
            }
        }
    }
}

/// A run of groups has `LEN` elements per group once flattened, whatever
/// `LEN` is, zero included.
pub proof fn lemma_flatten_len<V: IsSliceomorphic>(groups: Seq<V>)
    ensures
        flatten(groups).len() == groups.len() * V::LEN,
{
    lemma_flatten_is_grouping(groups);
}

/// Two runs of elements cut into the same groups are the same run.
pub proof fn lemma_grouping_determines_flat<V: IsSliceomorphic>(
    a: Seq<V::Element>,
    b: Seq<V::Element>,
    groups: Seq<V>,
)
    requires
        is_grouping(a, groups),
        is_grouping(b, groups),
    ensures
        a == b,
{
    let len = V::LEN as int;
    let n = groups.len() as int;
    if len == 0 {
        assert(a =~= b);
    } else {
        assert forall|k: int| 0 <= k < a.len() implies a[k] == b[k] by {
            let i = k / len;
            let j = k % len;
            assert(k == i * len + j && 0 <= j < len && 0 <= i) by (nonlinear_arith)
                requires
                    len > 0,
                    k >= 0,
                    i == k / len,
                    j == k % len,
            ;
            assert(i < n) by (nonlinear_arith)
                requires
                    k == i * len + j,
                    0 <= j,
                    k < n * len,
                    len > 0,
            ;
            assert(i * len + len <= n * len) by (nonlinear_arith)
                requires
                    i < n,
                    len > 0,
            ;
            assert(groups[i].elements() == a.subrange(i * len, i * len + len));
            assert(groups[i].elements() == b.subrange(i * len, i * len + len));
            assert(a[k] == a.subrange(i * len, i * len + len)[j]);
            assert(b[k] == b.subrange(i * len, i * len + len)[j]);
        }
        assert(a =~= b);
    }
}

/// Narrowing then widening gives back what was narrowed: for a group size
/// `LEN > 0` that divides the length of `flat`, any run of groups that cuts
/// `flat` into pieces of `LEN` (what narrowing returns) flattens to `flat`
/// again, with the same length.
pub proof fn lemma_nest_then_flat<V: IsSliceomorphic>(flat: Seq<V::Element>, groups: Seq<V>)
    requires
        V::LEN > 0,
        flat.len() % (V::LEN as nat) == 0,
        is_grouping(flat, groups),
    ensures
        flatten(groups) == flat,
        flatten(groups).len() == flat.len(),
{
    lemma_flatten_is_grouping(groups);
    lemma_grouping_determines_flat(flatten(groups), flat, groups);
}

/// Widening then narrowing gives back the same groups: any run of groups that
/// cuts the flattening of `groups` into pieces of `LEN > 0` is `groups`.
pub proof fn lemma_flat_then_nest<V: IsSliceomorphic>(groups: Seq<V>, regrouped: Seq<V>)
    requires
        V::LEN > 0,
        is_grouping(flatten(groups), regrouped),
    ensures
        regrouped == groups,
{
    lemma_flatten_is_grouping(groups);
    let len = V::LEN as int;
    let flat = flatten(groups);
    assert(regrouped.len() * len == groups.len() * len);
    assert(regrouped.len() == groups.len()) by (nonlinear_arith)
        requires
            regrouped.len() * len == groups.len() * len,
            len > 0,
    ;
    assert forall|i: int| 0 <= i < groups.len() implies regrouped[i] == groups[i] by {
        assert(regrouped[i].elements() == flat.subrange(i * len, i * len + len));
        assert(groups[i].elements() == flat.subrange(i * len, i * len + len));
        V::lemma_elements_injective(&regrouped[i], &groups[i]);
    }
    assert(regrouped =~= groups);
}

} // verus!
