//! Laws of the reconciliation engine, proved once and for all inputs.

use vstd::prelude::*;

use crate::collect::{collect_children, collect_parents};
use crate::device::{DeviceView, contains_node, same_identity, seq_contains_node};
use crate::merge::{has_match, merge, merged_children, seq_has_match};

verus! {

/// Replacing a node's child set never changes which device it stands for.
pub proof fn lemma_with_children_identity(t: DeviceView, cs: Seq<DeviceView>)
    ensures
        t.with_children(cs).identity() == t.identity(),
{
}

/// Identity comparison is an equivalence: reflexive, symmetric and
/// transitive, because it depends only on the variant tag and the identity
/// attributes.
pub proof fn lemma_same_identity_equivalence(a: DeviceView, b: DeviceView, c: DeviceView)
    ensures
        same_identity(a, a),
        same_identity(a, b) == same_identity(b, a),
        same_identity(a, b) && same_identity(b, c) ==> same_identity(a, c),
{
}

/// Identity comparison ignores children: swapping either node's child set
/// for any other leaves `same_identity` as it was.
pub proof fn lemma_identity_ignores_children(
    a: DeviceView,
    b: DeviceView,
    cs1: Seq<DeviceView>,
    cs2: Seq<DeviceView>,
)
    ensures
        same_identity(a.with_children(cs1), b.with_children(cs2)) == same_identity(a, b),
{
    lemma_with_children_identity(a, cs1);
    lemma_with_children_identity(b, cs2);
}

/// Putting a node's own children back yields the node itself.
pub proof fn lemma_with_own_children(t: DeviceView)
    ensures
        t.with_children(t.children()) == t,
{
}

proof fn lemma_merged_children_absent(cs: Seq<DeviceView>, donor: DeviceView, n: int)
    requires
        0 <= n <= cs.len(),
        !seq_has_match(cs, donor, n),
    ensures
        merged_children(cs, donor, n) == cs.subrange(0, n),
    decreases cs, 0int, n,
{
    if n > 0 {
        lemma_merged_children_absent(cs, donor, n - 1);
        lemma_merge_no_op(cs[n - 1], donor);
        assert(merged_children(cs, donor, n) =~= cs.subrange(0, n));
    } else {
        assert(merged_children(cs, donor, n) =~= cs.subrange(0, n));
    }
}

/// Merging a donor that matches nothing in the tree is a no-op: the tree
/// comes back unchanged, not an error.
pub proof fn lemma_merge_no_op(t: DeviceView, donor: DeviceView)
    requires
        !has_match(t, donor),
    ensures
        merge(t, donor) == t,
    decreases t, 1int,
{
    if !same_identity(t, donor) && t !is Dataset {
        lemma_merged_children_absent(t.children(), donor, t.children().len() as int);
        assert(merged_children(t.children(), donor, t.children().len() as int) =~= t.children());
        lemma_with_own_children(t);
    }
}

pub proof fn lemma_merged_children_len(cs: Seq<DeviceView>, donor: DeviceView, n: int)
    requires
        0 <= n <= cs.len(),
    ensures
        merged_children(cs, donor, n).len() == n,
    decreases n,
{
    if n > 0 {
        lemma_merged_children_len(cs, donor, n - 1);
    }
}

/// What merging leaves at each child position: a child before which a match
/// was already found is kept verbatim; any other child is merged, which by
/// `lemma_merge_no_op` also leaves it verbatim unless the first match sits
/// below it. Nothing else of the child list changes.
pub proof fn lemma_merged_children_index(cs: Seq<DeviceView>, donor: DeviceView, n: int, j: int)
    requires
        0 <= j < n <= cs.len(),
    ensures
        merged_children(cs, donor, n)[j] == if seq_has_match(cs, donor, j) {
            cs[j]
        } else {
            merge(cs[j], donor)
        },
    decreases n,
{
    lemma_merged_children_len(cs, donor, n - 1);
    if j < n - 1 {
        lemma_merged_children_index(cs, donor, n - 1, j);
    }
}

proof fn lemma_merged_children_idem(cs: Seq<DeviceView>, donor: DeviceView, n: int)
    requires
        0 <= n <= cs.len(),
    ensures
        seq_has_match(merged_children(cs, donor, cs.len() as int), donor, n) == seq_has_match(
            cs,
            donor,
            n,
        ),
        merged_children(merged_children(cs, donor, cs.len() as int), donor, n) == merged_children(
            cs,
            donor,
            cs.len() as int,
        ).subrange(0, n),
    decreases cs, 0int, n,
{
    let mc = merged_children(cs, donor, cs.len() as int);
    lemma_merged_children_len(cs, donor, cs.len() as int);
    if n > 0 {
        lemma_merged_children_idem(cs, donor, n - 1);
        lemma_merged_children_index(cs, donor, cs.len() as int, n - 1);
        if seq_has_match(cs, donor, n - 1) {
            assert(mc[n - 1] == cs[n - 1]);
            assert(merged_children(mc, donor, n) =~= mc.subrange(0, n));
        } else {
            assert(mc[n - 1] == merge(cs[n - 1], donor));
            lemma_merge_again(cs[n - 1], donor);
            if !has_match(cs[n - 1], donor) {
                lemma_merge_no_op(cs[n - 1], donor);
            }
            assert(has_match(mc[n - 1], donor) == has_match(cs[n - 1], donor));
            assert(merged_children(mc, donor, n) =~= mc.subrange(0, n));
        }
    } else {
        assert(merged_children(mc, donor, 0) =~= mc.subrange(0, 0));
    }
}

/// Merging the same donor a second time changes nothing: a match is still a
/// match afterwards, and the second merge is the identity.
pub proof fn lemma_merge_again(t: DeviceView, donor: DeviceView)
    ensures
        has_match(t, donor) ==> has_match(merge(t, donor), donor),
        merge(merge(t, donor), donor) == merge(t, donor),
    decreases t, 1int,
{
    if same_identity(t, donor) {
        assert(same_identity(donor, donor));
    } else if t is Dataset {
        assert(merge(t, donor) == t);
    } else {
        let cs = t.children();
        let mc = merged_children(cs, donor, cs.len() as int);
        let u = t.with_children(mc);
        lemma_merged_children_len(cs, donor, cs.len() as int);
        lemma_with_children_identity(t, mc);
        assert(!same_identity(u, donor));
        assert(u !is Dataset);
        assert(u.children() == mc);
        lemma_merged_children_idem(cs, donor, cs.len() as int);
        assert(merged_children(mc, donor, mc.len() as int) =~= mc);
        lemma_with_own_children(u);
        assert(u.with_children(mc) == u);
    }
}

/// Merging the same donor into the same tree twice yields the same tree as
/// merging it once.
pub proof fn lemma_merge_idempotent(t: DeviceView, donor: DeviceView)
    ensures
        merge(merge(t, donor), donor) == merge(t, donor),
{
    lemma_merge_again(t, donor);
}

proof fn lemma_merged_children_insert(cs: Seq<DeviceView>, donor: DeviceView, n: int)
    requires
        0 <= n <= cs.len(),
        seq_has_match(cs, donor, n),
    ensures
        seq_contains_node(merged_children(cs, donor, cs.len() as int), donor, n),
    decreases cs, 0int, n,
{
    let mc = merged_children(cs, donor, cs.len() as int);
    lemma_merged_children_len(cs, donor, cs.len() as int);
    lemma_merged_children_index(cs, donor, cs.len() as int, n - 1);
    if seq_has_match(cs, donor, n - 1) {
        lemma_merged_children_insert(cs, donor, n - 1);
    } else {
        assert(has_match(cs[n - 1], donor));
        assert(mc[n - 1] == merge(cs[n - 1], donor));
        lemma_merge_single_replacement(cs[n - 1], donor);
        assert(contains_node(mc[n - 1], donor));
    }
}

/// Merging a donor that matches somewhere plants the donor — child set and
/// all — in the result. Together with `lemma_merged_children_index` and
/// `lemma_merge_no_op`, which pin every child position outside the first
/// matching branch to its old value, this is the whole effect of a merge:
/// one replacement, nothing else.
pub proof fn lemma_merge_single_replacement(t: DeviceView, donor: DeviceView)
    requires
        has_match(t, donor),
    ensures
        contains_node(merge(t, donor), donor),
    decreases t, 1int,
{
    if same_identity(t, donor) {
        assert(contains_node(donor, donor));
    } else {
        let cs = t.children();
        let mc = merged_children(cs, donor, cs.len() as int);
        let u = t.with_children(mc);
        lemma_merged_children_len(cs, donor, cs.len() as int);
        lemma_merged_children_insert(cs, donor, cs.len() as int);
        assert(u.children() == mc);
        assert(u !is Dataset);
        assert(seq_contains_node(mc, donor, mc.len() as int));
    }
}

proof fn lemma_collect_children_emits(
    parent: DeviceView,
    cs: Seq<DeviceView>,
    n: int,
    x: DeviceView,
)
    requires
        0 <= n <= cs.len(),
        parent.children() == cs,
        collect_children(parent, cs, n).contains(x),
    ensures
        exists|j: int| 0 <= j < x.children().len() && x.children()[j].is_virtual(),
    decreases cs, 0int, n,
{
    if n > 0 {
        let pre = collect_children(parent, cs, n - 1);
        let i = choose|i: int| 0 <= i < collect_children(parent, cs, n).len()
            && collect_children(parent, cs, n)[i] == x;
        if i < pre.len() {
            assert(pre.contains(x));
            lemma_collect_children_emits(parent, cs, n - 1, x);
        } else if cs[n - 1].is_virtual() {
            assert(x == parent);
            assert(x.children()[n - 1].is_virtual());
        } else {
            assert(collect_parents(cs[n - 1]).contains(x));
            lemma_collect_emits_virtual_parents(cs[n - 1], x);
        }
    }
}

/// Every parent the collector emits has, among its recorded children, at
/// least one virtual device: the one whose discovery caused the emission.
pub proof fn lemma_collect_emits_virtual_parents(d: DeviceView, x: DeviceView)
    requires
        collect_parents(d).contains(x),
    ensures
        exists|j: int| 0 <= j < x.children().len() && x.children()[j].is_virtual(),
    decreases d, 1int,
{
    if d !is Dataset {
        lemma_collect_children_emits(d, d.children(), d.children().len() as int, x);
    }
}

/// The collector/merger round trip: a parent collected on one host, when it
/// matches anywhere in another host's tree, ends up in that tree entire —
/// virtual children included — and it does carry a virtual child.
pub proof fn lemma_collector_merger_round_trip(
    source: DeviceView,
    target: DeviceView,
    donor: DeviceView,
)
    requires
        collect_parents(source).contains(donor),
        has_match(target, donor),
    ensures
        contains_node(merge(target, donor), donor),
        exists|j: int| 0 <= j < donor.children().len() && donor.children()[j].is_virtual(),
{
    lemma_collect_emits_virtual_parents(source, donor);
    lemma_merge_single_replacement(target, donor);
}

} // verus!
