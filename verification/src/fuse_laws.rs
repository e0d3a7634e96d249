//! What holds of the fusing of selections: it takes one node away for
//! every selection fused and keeps all the others, and a second run of
//! the pass changes nothing.

use vstd::prelude::*;
use vstd::multiset::Multiset;
use crate::fuse_selects::{
    absorb, absorb_run, case_replacements, fusable, fuse_case, fuse_list, fuse_node, fuse_region,
    is_bool_select, subst_node, subst_nodes, subst_region, NodeKind, NodeT, RegionT,
    SelectionKind, Val,
};

verus! {

/// The number of nodes among the first `k` of `s`, with those inside them.
pub open spec fn count_nodes(s: Seq<NodeT>, k: nat) -> nat
    decreases s, k,
{
    if k == 0 || k > s.len() {
        0
    } else {
        count_nodes(s, (k - 1) as nat) + count_node(s[k - 1])
    }
}

/// The number of nodes inside the first `k` regions of `s`.
pub open spec fn count_regions(s: Seq<RegionT>, k: nat) -> nat
    decreases s, k,
{
    if k == 0 || k > s.len() {
        0
    } else {
        count_regions(s, (k - 1) as nat) + count_region(s[k - 1])
    }
}

/// The number of nodes that the node stands for: itself and those inside.
pub open spec fn count_node(n: NodeT) -> nat
    decreases n,
{
    1 + count_regions(n.child_regions, n.child_regions.len())
}

/// The number of nodes in the region, at any depth.
pub open spec fn count_region(r: RegionT) -> nat
    decreases r,
{
    count_nodes(r.children, r.children.len())
}

/// The operations of the first `k` nodes of `s`, with those inside them.
pub open spec fn kinds_nodes(s: Seq<NodeT>, k: nat) -> Multiset<NodeKind>
    decreases s, k,
{
    if k == 0 || k > s.len() {
        Multiset::empty()
    } else {
        kinds_nodes(s, (k - 1) as nat).add(kinds_node(s[k - 1]))
    }
}

/// The operations inside the first `k` regions of `s`.
pub open spec fn kinds_regions(s: Seq<RegionT>, k: nat) -> Multiset<NodeKind>
    decreases s, k,
{
    if k == 0 || k > s.len() {
        Multiset::empty()
    } else {
        kinds_regions(s, (k - 1) as nat).add(kinds_region(s[k - 1]))
    }
}

/// The operations of the node: its own and those inside it.
pub open spec fn kinds_node(n: NodeT) -> Multiset<NodeKind>
    decreases n,
{
    Multiset::singleton(n.kind).add(kinds_regions(n.child_regions, n.child_regions.len()))
}

/// The operations in the region, at any depth.
pub open spec fn kinds_region(r: RegionT) -> Multiset<NodeKind>
    decreases r,
{
    kinds_nodes(r.children, r.children.len())
}

/// The count and the operations of the first `k` nodes depend on those
/// nodes alone.
pub proof fn lemma_nodes_prefix(a: Seq<NodeT>, b: Seq<NodeT>, k: nat)
    requires
        k <= a.len(),
        k <= b.len(),
        forall|i: int| 0 <= i < k ==> a[i] == b[i],
    ensures
        count_nodes(a, k) == count_nodes(b, k),
        kinds_nodes(a, k) == kinds_nodes(b, k),
    decreases k,
{
    if k > 0 {
        lemma_nodes_prefix(a, b, (k - 1) as nat);
    }
}

/// Two lists of nodes, one after the other, have the nodes and the
/// operations of both.
pub proof fn lemma_nodes_concat(a: Seq<NodeT>, b: Seq<NodeT>, k: nat)
    requires
        k <= b.len(),
    ensures
        count_nodes(a + b, a.len() + k) == count_nodes(a, a.len()) + count_nodes(b, k),
        kinds_nodes(a + b, a.len() + k) =~= kinds_nodes(a, a.len()).add(kinds_nodes(b, k)),
    decreases k,
{
    if k == 0 {
        lemma_nodes_prefix(a + b, a, a.len());
    } else {
        lemma_nodes_concat(a, b, (k - 1) as nat);
        assert((a + b)[a.len() + k - 1] == b[k - 1]);
    }
}

/// Replacing values changes neither the number of nodes nor their
/// operations.
pub proof fn lemma_subst_node(map: Seq<(u32, Val)>, n: NodeT)
    ensures
        count_node(subst_node(map, n)) == count_node(n),
        kinds_node(subst_node(map, n)) == kinds_node(n),
    decreases n, 1nat,
{
    lemma_subst_regions(map, n, n.child_regions.len());
}

/// Replacing values changes neither the number of nodes in the first `k`
/// regions of a node nor their operations.
pub proof fn lemma_subst_regions(map: Seq<(u32, Val)>, n: NodeT, k: nat)
    requires
        k <= n.child_regions.len(),
    ensures
        count_regions(subst_node(map, n).child_regions, k) == count_regions(n.child_regions, k),
        kinds_regions(subst_node(map, n).child_regions, k) == kinds_regions(n.child_regions, k),
    decreases n, 0nat, k,
{
    if k > 0 {
        lemma_subst_regions(map, n, (k - 1) as nat);
        lemma_subst_region(map, n.child_regions[k - 1]);
    }
}

/// Replacing values changes neither the number of nodes of a region nor
/// their operations.
pub proof fn lemma_subst_region(map: Seq<(u32, Val)>, r: RegionT)
    ensures
        count_region(subst_region(map, r)) == count_region(r),
        kinds_region(subst_region(map, r)) == kinds_region(r),
    decreases r, 1nat,
{
    lemma_subst_children(map, r, r.children.len());
}

/// Replacing values changes neither the number of the first `k` nodes of
/// a region nor their operations.
pub proof fn lemma_subst_children(map: Seq<(u32, Val)>, r: RegionT, k: nat)
    requires
        k <= r.children.len(),
    ensures
        count_nodes(subst_region(map, r).children, k) == count_nodes(r.children, k),
        kinds_nodes(subst_region(map, r).children, k) == kinds_nodes(r.children, k),
    decreases r, 0nat, k,
{
    if k > 0 {
        lemma_subst_children(map, r, (k - 1) as nat);
        lemma_subst_node(map, r.children[k - 1]);
    }
}

/// Replacing values in a list of nodes changes neither their number nor
/// their operations.
pub proof fn lemma_subst_nodes(map: Seq<(u32, Val)>, s: Seq<NodeT>, k: nat)
    requires
        k <= s.len(),
    ensures
        count_nodes(subst_nodes(map, s), k) == count_nodes(s, k),
        kinds_nodes(subst_nodes(map, s), k) == kinds_nodes(s, k),
    decreases k,
{
    if k > 0 {
        lemma_subst_nodes(map, s, (k - 1) as nat);
        lemma_subst_node(map, s[k - 1]);
    }
}

/// A case with the nodes of another fused into it has the nodes and the
/// operations of both.
pub proof fn lemma_fuse_case(outputs: Seq<u32>, base: RegionT, next: RegionT)
    ensures
        count_region(fuse_case(outputs, base, next)) == count_region(base) + count_region(next),
        kinds_region(fuse_case(outputs, base, next)) =~= kinds_region(base).add(
            kinds_region(next),
        ),
{
    let map = case_replacements(outputs, base);
    let moved = subst_nodes(map, next.children);
    lemma_nodes_concat(base.children, moved, moved.len());
    lemma_subst_nodes(map, next.children, next.children.len());
}

/// The first `k` cases of a selection that took another in have the nodes
/// and the operations of the first `k` cases of both.
pub proof fn lemma_absorb_cases(base: NodeT, next: NodeT, k: nat)
    requires
        k <= base.child_regions.len(),
    ensures
        count_regions(absorb(base, next).child_regions, k) == count_regions(base.child_regions, k)
            + count_regions(
            next.child_regions,
            if k <= next.child_regions.len() {
                k
            } else {
                next.child_regions.len()
            },
        ),
        kinds_regions(absorb(base, next).child_regions, k) =~= kinds_regions(
            base.child_regions,
            k,
        ).add(
            kinds_regions(
                next.child_regions,
                if k <= next.child_regions.len() {
                    k
                } else {
                    next.child_regions.len()
                },
            ),
        ),
    decreases k,
{
    if k > 0 {
        lemma_absorb_cases(base, next, (k - 1) as nat);
        if k <= next.child_regions.len() {
            lemma_fuse_case(base.outputs, base.child_regions[k - 1], next.child_regions[k - 1]);
        }
    }
}

/// Fusing a pair of consecutive selections takes one node away and keeps
/// every operation but that of the selection that goes: where a
/// selection by a boolean is followed by another on the same condition
/// that has no outputs and no more cases than the first, the two become
/// one node, which holds all the nodes that were inside the two, with
/// their operations.
pub proof fn lemma_fuse_pair(a: NodeT, c: NodeT)
    requires
        fusable(a, c),
        c.child_regions.len() <= a.child_regions.len(),
    ensures
        fuse_list(seq![a, c]) == seq![absorb(a, c)],
        count_nodes(fuse_list(seq![a, c]), 1) + 1 == count_nodes(seq![a, c], 2),
        kinds_nodes(fuse_list(seq![a, c]), 1).insert(NodeKind::Select(SelectionKind::BoolCond))
            =~= kinds_nodes(seq![a, c], 2),
{
    let pair = seq![a, c];
    let rest = pair.drop_first();
    assert(rest[0] == c);
    assert(rest.drop_first() =~= Seq::<NodeT>::empty());
    let fused = absorb(a, c);
    assert(absorb_run(fused, Seq::<NodeT>::empty()) == (fused, Seq::<NodeT>::empty()));
    assert(absorb_run(a, rest) == (fused, Seq::<NodeT>::empty()));
    assert(fuse_list(Seq::<NodeT>::empty()) == Seq::<NodeT>::empty());
    assert(fuse_list(pair) =~= seq![fused]);
    lemma_absorb_cases(a, c, a.child_regions.len());
    assert(count_nodes(pair, 1) == count_node(a)) by {
        assert(count_nodes(pair, 0) == 0);
    }
    assert(kinds_nodes(pair, 1) =~= kinds_node(a)) by {
        assert(kinds_nodes(pair, 0) =~= Multiset::<NodeKind>::empty());
    }
    assert(count_nodes(seq![fused], 1) == count_node(fused)) by {
        assert(count_nodes(seq![fused], 0) == 0);
    }
    assert(kinds_nodes(seq![fused], 1) =~= kinds_node(fused)) by {
        assert(kinds_nodes(seq![fused], 0) =~= Multiset::<NodeKind>::empty());
    }
    assert(pair[1] == c);
    assert(count_nodes(pair, 2) == count_node(a) + count_node(c));
    assert(kinds_nodes(pair, 2) =~= kinds_node(a).add(kinds_node(c)));
    let n = a.child_regions.len();
    let m = c.child_regions.len();
    assert(fused.child_regions.len() == n);
    assert((if n <= m {
        n
    } else {
        m
    }) == m);
    assert(count_node(fused) == 1 + count_regions(a.child_regions, n) + count_regions(
        c.child_regions,
        m,
    ));
    assert(kinds_node(fused) =~= Multiset::singleton(a.kind).add(
        kinds_regions(a.child_regions, n).add(kinds_regions(c.child_regions, m)),
    ));
    assert(c.kind == NodeKind::Select(SelectionKind::BoolCond));
    assert(kinds_node(fused).insert(NodeKind::Select(SelectionKind::BoolCond)) =~= kinds_node(
        a,
    ).add(kinds_node(c)));
}

/// Whether no node of `s` can be fused into the one before it.
pub open spec fn settled(s: Seq<NodeT>) -> bool {
    forall|i: int| 0 <= i < s.len() - 1 ==> !fusable(#[trigger] s[i], s[i + 1])
}

/// Whether the two nodes agree in what decides a fusing: what they do,
/// what they read, and what they define.
pub open spec fn same_face(a: NodeT, b: NodeT) -> bool {
    a.kind == b.kind && a.inputs == b.inputs && a.outputs == b.outputs
}

/// A node that took others in still does, reads and defines the same, and
/// what is left starts with a node that cannot be fused into it, and is
/// the end of the list that it was.
pub proof fn lemma_absorb_run(base: NodeT, rest: Seq<NodeT>)
    ensures
        same_face(absorb_run(base, rest).0, base),
        absorb_run(base, rest).1.len() <= rest.len(),
        absorb_run(base, rest).1 == rest.subrange(
            rest.len() - absorb_run(base, rest).1.len(),
            rest.len() as int,
        ),
        absorb_run(base, rest).1.len() > 0 ==> !fusable(
            absorb_run(base, rest).0,
            absorb_run(base, rest).1[0],
        ),
        !(rest.len() > 0 && fusable(base, rest[0])) ==> absorb_run(base, rest) == (base, rest),
    decreases rest.len(),
{
    if rest.len() > 0 && fusable(base, rest[0]) {
        lemma_absorb_run(absorb(base, rest[0]), rest.drop_first());
        let left = absorb_run(base, rest).1;
        assert(left =~= rest.subrange(rest.len() - left.len(), rest.len() as int));
    } else {
        assert(rest =~= rest.subrange(0, rest.len() as int));
    }
}

/// After the fusing at one level, no node can be fused into the one
/// before it, and the first node still does, reads and defines what the
/// first node did.
pub proof fn lemma_fuse_list_settles(nodes: Seq<NodeT>)
    ensures
        settled(fuse_list(nodes)),
        nodes.len() > 0 ==> fuse_list(nodes).len() > 0 && same_face(fuse_list(nodes)[0], nodes[0]),
        nodes.len() == 0 ==> fuse_list(nodes).len() == 0,
    decreases nodes.len(),
{
    if nodes.len() > 0 {
        lemma_absorb_run(nodes[0], nodes.drop_first());
        let (base, rest) = absorb_run(nodes[0], nodes.drop_first());
        lemma_fuse_list_settles(rest);
        let tail = fuse_list(rest);
        let all = seq![base] + tail;
        assert(fuse_list(nodes) == all);
        assert forall|i: int| 0 <= i < all.len() - 1 implies !fusable(
            #[trigger] all[i],
            all[i + 1],
        ) by {
            if i == 0 {
                assert(all[1] == tail[0]);
                assert(same_face(tail[0], rest[0]));
            } else {
                assert(all[i] == tail[i - 1]);
                assert(all[i + 1] == tail[i]);
            }
        }
    }
}

/// Where no node can be fused into the one before it, the fusing at that
/// level changes nothing.
pub proof fn lemma_settled_stays(nodes: Seq<NodeT>)
    requires
        settled(nodes),
    ensures
        fuse_list(nodes) == nodes,
    decreases nodes.len(),
{
    if nodes.len() > 0 {
        let rest = nodes.drop_first();
        lemma_absorb_run(nodes[0], rest);
        if rest.len() > 0 {
            assert(rest[0] == nodes[1]);
            assert(!fusable(nodes[0], nodes[1]));
        }
        assert(absorb_run(nodes[0], rest) == (nodes[0], rest));
        assert forall|i: int| 0 <= i < rest.len() - 1 implies !fusable(
            #[trigger] rest[i],
            rest[i + 1],
        ) by {
            assert(rest[i] == nodes[i + 1]);
            assert(rest[i + 1] == nodes[i + 2]);
        }
        lemma_settled_stays(rest);
        assert(seq![nodes[0]] + rest =~= nodes);
    }
}

/// The pass, run a second time to the same depth, changes nothing.
pub proof fn lemma_fuse_twice(depth: nat, r: RegionT)
    ensures
        fuse_region(depth, fuse_region(depth, r)) == fuse_region(depth, r),
    decreases depth, 0nat,
{
    if depth > 0 {
        let fused = fuse_list(r.children);
        let inner = (depth - 1) as nat;
        let once = Seq::new(fused.len(), |i: int| fuse_node(inner, fused[i]));
        assert(fuse_region(depth, r).children == once);
        lemma_fuse_list_settles(r.children);
        assert forall|i: int| 0 <= i < once.len() - 1 implies !fusable(
            #[trigger] once[i],
            once[i + 1],
        ) by {
            assert(same_face(once[i], fused[i]));
            assert(same_face(once[i + 1], fused[i + 1]));
            assert(!fusable(fused[i], fused[i + 1]));
        }
        lemma_settled_stays(once);
        let twice = Seq::new(once.len(), |i: int| fuse_node(inner, once[i]));
        assert(fuse_region(depth, fuse_region(depth, r)).children == twice);
        assert forall|i: int| 0 <= i < once.len() implies twice[i] == once[i] by {
            lemma_fuse_node_twice(inner, fused[i]);
        }
        assert(twice =~= once);
    }
}

/// The pass, run a second time on the regions inside a node, changes
/// nothing.
pub proof fn lemma_fuse_node_twice(depth: nat, n: NodeT)
    ensures
        fuse_node(depth, fuse_node(depth, n)) == fuse_node(depth, n),
    decreases depth, 1nat,
{
    let once = fuse_node(depth, n);
    let twice = fuse_node(depth, once);
    assert forall|i: int| 0 <= i < n.child_regions.len() implies twice.child_regions[i]
        == once.child_regions[i] by {
        lemma_fuse_twice(depth, n.child_regions[i]);
    }
    assert(twice.child_regions =~= once.child_regions);
}

/// The nodes `before`, when no node among them and none right after them
/// can be fused, stay as they are in front of whatever the nodes after
/// them become.
pub proof fn lemma_fuse_after_settled(before: Seq<NodeT>, rest: Seq<NodeT>)
    requires
        settled(before),
        before.len() > 0 && rest.len() > 0 ==> !fusable(before.last(), rest[0]),
    ensures
        fuse_list(before + rest) == before + fuse_list(rest),
    decreases before.len(),
{
    if before.len() == 0 {
        assert(before + rest =~= rest);
        assert(before + fuse_list(rest) =~= fuse_list(rest));
    } else {
        let nodes = before + rest;
        let first = before[0];
        let others = before.drop_first();
        assert(nodes[0] == first);
        assert(nodes.drop_first() =~= others + rest);
        if others.len() > 0 {
            assert((others + rest)[0] == before[1]);
            assert(!fusable(before[0], before[1]));
            assert(others.last() == before.last());
        } else if rest.len() > 0 {
            assert((others + rest)[0] == rest[0]);
            assert(before.last() == first);
        }
        lemma_absorb_run(first, others + rest);
        assert(absorb_run(first, others + rest) == (first, others + rest));
        assert forall|i: int| 0 <= i < others.len() - 1 implies !fusable(
            #[trigger] others[i],
            others[i + 1],
        ) by {
            assert(!fusable(before[i + 1], before[i + 2]));
        }
        lemma_fuse_after_settled(others, rest);
        assert(seq![first] + (others + fuse_list(rest)) =~= before + fuse_list(rest));
    }
}

/// A pair of consecutive selections among other nodes: where a selection
/// by a boolean is followed by another on the same condition that has no
/// outputs, and no other node of the region can be fused, the pass puts
/// the fused selection in the place of the two and leaves every other
/// node where it was. The region has one node less; the first selection
/// keeps what it does, reads and defines; each of its cases holds its own
/// nodes and then those of the same case of the second selection, in
/// their order, with the outputs of the first replaced.
pub proof fn lemma_fuse_pair_among(before: Seq<NodeT>, a: NodeT, c: NodeT, after: Seq<NodeT>)
    requires
        fusable(a, c),
        settled(before + seq![a]),
        settled(after),
        after.len() > 0 ==> !fusable(a, after[0]),
    ensures
        fuse_list(before + seq![a, c] + after) == before + seq![absorb(a, c)] + after,
        (before + seq![absorb(a, c)] + after).len() + 1 == (before + seq![a, c] + after).len(),
        same_face(absorb(a, c), a),
        forall|i: int|
            0 <= i < a.child_regions.len() && i < c.child_regions.len() ==> (#[trigger] absorb(
                a,
                c,
            ).child_regions[i]).children == a.child_regions[i].children + subst_nodes(
                case_replacements(a.outputs, a.child_regions[i]),
                c.child_regions[i].children,
            ),
{
    let fused = absorb(a, c);
    let rest = seq![a, c] + after;
    assert(rest[0] == a);
    assert(rest.drop_first() =~= seq![c] + after);
    assert((seq![c] + after)[0] == c);
    assert((seq![c] + after).drop_first() =~= after);
    lemma_absorb_run(fused, after);
    assert(absorb_run(fused, after) == (fused, after));
    assert(absorb_run(a, seq![c] + after) == (fused, after));
    lemma_settled_stays(after);
    assert(fuse_list(rest) == seq![fused] + after);
    let with_a = before + seq![a];
    assert forall|i: int| 0 <= i < before.len() - 1 implies !fusable(
        #[trigger] before[i],
        before[i + 1],
    ) by {
        assert(with_a[i] == before[i]);
        assert(with_a[i + 1] == before[i + 1]);
    }
    if before.len() > 0 {
        assert(with_a[before.len() - 1] == before.last());
        assert(with_a[before.len() as int] == a);
        assert(!fusable(with_a[before.len() - 1], with_a[before.len() - 1 + 1]));
    }
    lemma_fuse_after_settled(before, rest);
    assert(before + rest =~= before + seq![a, c] + after);
    assert(before + (seq![fused] + after) =~= before + seq![fused] + after);
}

/// As many selections by a boolean as `n`, as a bag of operations.
pub open spec fn gone(n: nat) -> Multiset<NodeKind>
    decreases n,
{
    if n == 0 {
        Multiset::empty()
    } else {
        gone((n - 1) as nat).insert(NodeKind::Select(SelectionKind::BoolCond))
    }
}

/// Whether every selection by a boolean among the nodes has its two
/// cases.
pub open spec fn two_cases(nodes: Seq<NodeT>) -> bool {
    forall|i: int|
        0 <= i < nodes.len() && is_bool_select(#[trigger] nodes[i])
            ==> nodes[i].child_regions.len() == 2
}

/// The bag of `n` selections and the bag of `m` are the bag of both.
pub proof fn lemma_gone_add(n: nat, m: nat)
    ensures
        gone(n + m) =~= gone(n).add(gone(m)),
    decreases m,
{
    if m > 0 {
        lemma_gone_add(n, (m - 1) as nat);
    }
}

/// A selection that takes another in has the nodes of both but the one
/// taken in, and their operations.
pub proof fn lemma_absorb_counts(a: NodeT, c: NodeT)
    requires
        fusable(a, c),
        c.child_regions.len() <= a.child_regions.len(),
    ensures
        count_node(absorb(a, c)) + 1 == count_node(a) + count_node(c),
        kinds_node(absorb(a, c)).insert(NodeKind::Select(SelectionKind::BoolCond)) =~= kinds_node(
            a,
        ).add(kinds_node(c)),
{
    let fused = absorb(a, c);
    let n = a.child_regions.len();
    let m = c.child_regions.len();
    lemma_absorb_cases(a, c, n);
    assert(fused.child_regions.len() == n);
    assert((if n <= m {
        n
    } else {
        m
    }) == m);
    assert(kinds_node(fused) =~= Multiset::singleton(a.kind).add(
        kinds_regions(a.child_regions, n).add(kinds_regions(c.child_regions, m)),
    ));
    assert(c.kind == NodeKind::Select(SelectionKind::BoolCond));
}

/// The count and the operations of a node and the nodes after it.
pub proof fn lemma_nodes_cons(n: NodeT, rest: Seq<NodeT>)
    ensures
        count_nodes(seq![n] + rest, 1 + rest.len()) == count_node(n) + count_nodes(
            rest,
            rest.len(),
        ),
        kinds_nodes(seq![n] + rest, 1 + rest.len()) =~= kinds_node(n).add(
            kinds_nodes(rest, rest.len()),
        ),
{
    lemma_nodes_concat(seq![n], rest, rest.len());
    assert(count_nodes(seq![n], 0) == 0);
    assert(kinds_nodes(seq![n], 0) =~= Multiset::<NodeKind>::empty());
    assert(kinds_nodes(seq![n], 1) =~= kinds_node(n));
}

/// A node that takes in the nodes after it, with the nodes that are
/// left, holds every node that there was but those taken in, and every
/// operation but theirs.
pub proof fn lemma_absorb_run_counts(base: NodeT, rest: Seq<NodeT>)
    requires
        is_bool_select(base) ==> base.child_regions.len() == 2,
        two_cases(rest),
    ensures
        ({
            let (b, r) = absorb_run(base, rest);
            &&& r.len() <= rest.len()
            &&& count_node(b) + count_nodes(r, r.len()) + (rest.len() - r.len()) == count_node(base)
                + count_nodes(rest, rest.len())
            &&& kinds_node(b).add(kinds_nodes(r, r.len())).add(gone((rest.len() - r.len()) as nat))
                =~= kinds_node(base).add(kinds_nodes(rest, rest.len()))
        }),
    decreases rest.len(),
{
    lemma_absorb_run(base, rest);
    if rest.len() > 0 && fusable(base, rest[0]) {
        let c = rest[0];
        let tail = rest.drop_first();
        let fused = absorb(base, c);
        assert(forall|i: int| 0 <= i < tail.len() ==> tail[i] == rest[i + 1]);
        lemma_absorb_counts(base, c);
        lemma_absorb_run_counts(fused, tail);
        lemma_absorb_run(fused, tail);
        assert(seq![c] + tail =~= rest);
        lemma_nodes_cons(c, tail);
        let (b, r) = absorb_run(fused, tail);
        let taken = (tail.len() - r.len()) as nat;
        lemma_gone_add(taken, 1);
        assert(gone(1) =~= Multiset::<NodeKind>::empty().insert(
            NodeKind::Select(SelectionKind::BoolCond),
        )) by {
            assert(gone(0) =~= Multiset::<NodeKind>::empty());
        }
        assert(absorb_run(base, rest) == (b, r));
        assert(rest.len() == 1 + tail.len());
        assert(rest.len() - r.len() == taken + 1);
        assert(count_nodes(rest, rest.len()) == count_node(c) + count_nodes(tail, tail.len()));
        assert(kinds_nodes(rest, rest.len()) =~= kinds_node(c).add(kinds_nodes(tail, tail.len())));
        assert(kinds_node(b).add(kinds_nodes(r, r.len())).add(gone((taken + 1) as nat))
            =~= kinds_node(fused).add(kinds_nodes(tail, tail.len())).insert(
            NodeKind::Select(SelectionKind::BoolCond),
        ));
        let select = NodeKind::Select(SelectionKind::BoolCond);
        let both = kinds_node(fused).insert(select);
        let inside = kinds_nodes(tail, tail.len());
        assert(both =~= kinds_node(base).add(kinds_node(c)));
        assert(both.add(inside) =~= kinds_node(fused).add(inside).insert(select));
        assert(kinds_node(base).add(kinds_nodes(rest, rest.len())) =~= kinds_node(base).add(
            kinds_node(c),
        ).add(inside));
    } else {
        assert(absorb_run(base, rest) == (base, rest));
        assert(gone(0) =~= Multiset::<NodeKind>::empty());
        assert(kinds_node(base).add(kinds_nodes(rest, rest.len())).add(gone(0)) =~= kinds_node(
            base,
        ).add(kinds_nodes(rest, rest.len())));
    }
}

/// The fusing at one level takes one node away for every selection that
/// it fuses into another, and keeps every other node at any depth, with
/// its operation: none is dropped, and none is there twice.
pub proof fn lemma_fuse_list_counts(nodes: Seq<NodeT>)
    requires
        two_cases(nodes),
    ensures
        fuse_list(nodes).len() <= nodes.len(),
        count_nodes(fuse_list(nodes), fuse_list(nodes).len()) + (nodes.len() - fuse_list(
            nodes,
        ).len()) == count_nodes(nodes, nodes.len()),
        kinds_nodes(fuse_list(nodes), fuse_list(nodes).len()).add(
            gone((nodes.len() - fuse_list(nodes).len()) as nat),
        ) =~= kinds_nodes(nodes, nodes.len()),
    decreases nodes.len(),
{
    if nodes.len() == 0 {
        assert(gone(0) =~= Multiset::<NodeKind>::empty());
    } else {
        let first = nodes[0];
        let others = nodes.drop_first();
        assert(forall|i: int| 0 <= i < others.len() ==> others[i] == nodes[i + 1]);
        let (base, rest) = absorb_run(first, others);
        lemma_absorb_run(first, others);
        lemma_absorb_run_counts(first, others);
        assert(forall|i: int|
            0 <= i < rest.len() ==> rest[i] == others[others.len() - rest.len() + i]);
        lemma_fuse_list_counts(rest);
        let tail = fuse_list(rest);
        assert(fuse_list(nodes) == seq![base] + tail);
        assert(seq![first] + others =~= nodes);
        lemma_nodes_cons(first, others);
        lemma_nodes_cons(base, tail);
        let taken = (others.len() - rest.len()) as nat;
        let fused = (rest.len() - tail.len()) as nat;
        lemma_gone_add(taken, fused);
        assert(nodes.len() - (seq![base] + tail).len() == taken + fused);
        assert(kinds_node(base).add(kinds_nodes(tail, tail.len())).add(gone(taken + fused))
            =~= kinds_node(base).add(kinds_nodes(rest, rest.len())).add(gone(taken)));
    }
}

/// Whether every selection by a boolean that is the node or inside it,
/// at any depth, has its two cases.
pub open spec fn paired_node(n: NodeT) -> bool
    decreases n,
{
    &&& is_bool_select(n) ==> n.child_regions.len() == 2
    &&& paired_regions(n.child_regions, n.child_regions.len())
}

/// Whether every selection by a boolean inside the first `k` regions of
/// `s` has its two cases.
pub open spec fn paired_regions(s: Seq<RegionT>, k: nat) -> bool
    decreases s, k,
{
    k == 0 || (k <= s.len() && paired_regions(s, (k - 1) as nat) && paired_nodes(
        s[k - 1].children,
        s[k - 1].children.len(),
    ))
}

/// Whether every selection by a boolean among the first `k` nodes of `s`
/// or inside them has its two cases.
pub open spec fn paired_nodes(s: Seq<NodeT>, k: nat) -> bool
    decreases s, k,
{
    k == 0 || (k <= s.len() && paired_nodes(s, (k - 1) as nat) && paired_node(s[k - 1]))
}

/// The first `k` nodes are paired where each of them is.
pub proof fn lemma_paired_each(s: Seq<NodeT>, k: nat)
    requires
        k <= s.len(),
    ensures
        paired_nodes(s, k) == (forall|i: int| 0 <= i < k ==> paired_node(#[trigger] s[i])),
    decreases k,
{
    if k > 0 {
        lemma_paired_each(s, (k - 1) as nat);
        if paired_nodes(s, k) {
            assert forall|i: int| 0 <= i < k implies paired_node(#[trigger] s[i]) by {}
        }
    }
}

/// The first `k` regions are paired where the nodes of each of them are.
pub proof fn lemma_paired_each_region(s: Seq<RegionT>, k: nat)
    requires
        k <= s.len(),
    ensures
        paired_regions(s, k) == (forall|i: int|
            0 <= i < k ==> paired_nodes((#[trigger] s[i]).children, s[i].children.len())),
    decreases k,
{
    if k > 0 {
        lemma_paired_each_region(s, (k - 1) as nat);
        if paired_regions(s, k) {
            assert forall|i: int| 0 <= i < k implies paired_nodes(
                (#[trigger] s[i]).children,
                s[i].children.len(),
            ) by {}
        }
    }
}

/// Replacing values leaves a paired node paired.
pub proof fn lemma_subst_paired(map: Seq<(u32, Val)>, n: NodeT)
    requires
        paired_node(n),
    ensures
        paired_node(subst_node(map, n)),
    decreases n,
{
    let m = subst_node(map, n);
    lemma_paired_each_region(n.child_regions, n.child_regions.len());
    lemma_paired_each_region(m.child_regions, m.child_regions.len());
    assert forall|i: int| 0 <= i < m.child_regions.len() implies paired_nodes(
        (#[trigger] m.child_regions[i]).children,
        m.child_regions[i].children.len(),
    ) by {
        let r = n.child_regions[i];
        assert(paired_nodes(r.children, r.children.len()));
        assert(m.child_regions[i].children =~= subst_nodes(map, r.children));
        lemma_subst_paired_nodes(map, r.children);
    }
}

/// Replacing values leaves paired nodes paired.
pub proof fn lemma_subst_paired_nodes(map: Seq<(u32, Val)>, s: Seq<NodeT>)
    requires
        paired_nodes(s, s.len()),
    ensures
        paired_nodes(subst_nodes(map, s), s.len()),
    decreases s,
{
    let t = subst_nodes(map, s);
    lemma_paired_each(s, s.len());
    lemma_paired_each(t, t.len());
    assert forall|i: int| 0 <= i < t.len() implies paired_node(#[trigger] t[i]) by {
        assert(paired_node(s[i]));
        lemma_subst_paired(map, s[i]);
    }
}

/// A paired selection that takes another paired one in is paired.
pub proof fn lemma_absorb_paired(a: NodeT, c: NodeT)
    requires
        fusable(a, c),
        paired_node(a),
        paired_node(c),
    ensures
        paired_node(absorb(a, c)),
{
    let fused = absorb(a, c);
    lemma_paired_each_region(a.child_regions, a.child_regions.len());
    lemma_paired_each_region(c.child_regions, c.child_regions.len());
    lemma_paired_each_region(fused.child_regions, fused.child_regions.len());
    assert forall|i: int| 0 <= i < fused.child_regions.len() implies paired_nodes(
        (#[trigger] fused.child_regions[i]).children,
        fused.child_regions[i].children.len(),
    ) by {
        let own = a.child_regions[i].children;
        assert(paired_nodes(own, own.len()));
        let from = c.child_regions[i].children;
        assert(paired_nodes(from, from.len()));
        let moved = subst_nodes(case_replacements(a.outputs, a.child_regions[i]), from);
        lemma_subst_paired_nodes(case_replacements(a.outputs, a.child_regions[i]), from);
        let all = own + moved;
        assert(fused.child_regions[i].children == all);
        lemma_paired_each(own, own.len());
        lemma_paired_each(moved, moved.len());
        lemma_paired_each(all, all.len());
        assert forall|j: int| 0 <= j < all.len() implies paired_node(#[trigger] all[j]) by {
            if j < own.len() {
                assert(all[j] == own[j]);
            } else {
                assert(all[j] == moved[j - own.len()]);
            }
        }
    }
}

/// A paired node that takes in the paired nodes after it is paired, and
/// so are the nodes that are left.
pub proof fn lemma_absorb_run_paired(base: NodeT, rest: Seq<NodeT>)
    requires
        paired_node(base),
        paired_nodes(rest, rest.len()),
    ensures
        paired_node(absorb_run(base, rest).0),
        paired_nodes(absorb_run(base, rest).1, absorb_run(base, rest).1.len()),
    decreases rest.len(),
{
    if rest.len() > 0 && fusable(base, rest[0]) {
        let tail = rest.drop_first();
        lemma_paired_each(rest, rest.len());
        lemma_paired_each(tail, tail.len());
        assert forall|i: int| 0 <= i < tail.len() implies paired_node(#[trigger] tail[i]) by {
            assert(tail[i] == rest[i + 1]);
        }
        lemma_absorb_paired(base, rest[0]);
        lemma_absorb_run_paired(absorb(base, rest[0]), tail);
    }
}

/// The fusing at one level leaves paired nodes paired.
pub proof fn lemma_fuse_list_paired(nodes: Seq<NodeT>)
    requires
        paired_nodes(nodes, nodes.len()),
    ensures
        paired_nodes(fuse_list(nodes), fuse_list(nodes).len()),
        two_cases(nodes),
    decreases nodes.len(),
{
    lemma_paired_each(nodes, nodes.len());
    if nodes.len() > 0 {
        let others = nodes.drop_first();
        lemma_paired_each(others, others.len());
        assert forall|i: int| 0 <= i < others.len() implies paired_node(#[trigger] others[i]) by {
            assert(others[i] == nodes[i + 1]);
        }
        lemma_absorb_run(nodes[0], others);
        lemma_absorb_run_paired(nodes[0], others);
        let (base, rest) = absorb_run(nodes[0], others);
        lemma_fuse_list_paired(rest);
        let tail = fuse_list(rest);
        let all = seq![base] + tail;
        assert(fuse_list(nodes) == all);
        lemma_paired_each(tail, tail.len());
        lemma_paired_each(all, all.len());
        assert forall|i: int| 0 <= i < all.len() implies paired_node(#[trigger] all[i]) by {
            if i > 0 {
                assert(all[i] == tail[i - 1]);
            }
        }
    } else {
        assert(fuse_list(nodes).len() == 0);
    }
}

/// The pass drops no operation and has none twice: in a body where every
/// selection by a boolean has its two cases, the nodes that are gone
/// after the pass are as many selections by a boolean as the body has
/// fewer nodes, and every other operation is there as often as before,
/// at any depth.
pub proof fn lemma_pass_keeps_operations(depth: nat, r: RegionT)
    requires
        paired_nodes(r.children, r.children.len()),
    ensures
        count_region(fuse_region(depth, r)) <= count_region(r),
        kinds_region(fuse_region(depth, r)).add(
            gone((count_region(r) - count_region(fuse_region(depth, r))) as nat),
        ) =~= kinds_region(r),
    decreases depth, 0nat, 0nat,
{
    if depth == 0 {
        assert(gone(0) =~= Multiset::<NodeKind>::empty());
    } else {
        let nodes = r.children;
        let fused = fuse_list(nodes);
        let inner = (depth - 1) as nat;
        let after = fuse_region(depth, r).children;
        lemma_fuse_list_paired(nodes);
        lemma_fuse_list_counts(nodes);
        lemma_fused_keep_operations(inner, fused, fused.len());
        let mapped = Seq::new(fused.len(), |i: int| fuse_node(inner, fused[i]));
        assert(after =~= mapped);
        assert(count_nodes(after, after.len()) <= count_nodes(fused, fused.len()));
        assert(kinds_nodes(after, after.len()).add(
            gone((count_nodes(fused, fused.len()) - count_nodes(after, after.len())) as nat),
        ) =~= kinds_nodes(fused, fused.len()));
        let here = (count_nodes(nodes, nodes.len()) - count_nodes(fused, fused.len())) as nat;
        let below = (count_nodes(fused, fused.len()) - count_nodes(after, after.len())) as nat;
        assert(here == nodes.len() - fused.len());
        lemma_gone_add(below, here);
        assert(kinds_nodes(after, after.len()).add(gone(below + here)) =~= kinds_nodes(
            fused,
            fused.len(),
        ).add(gone(here)));
        assert(count_region(r) - count_region(fuse_region(depth, r)) == below + here);
    }
}

/// The first `k` of the nodes, each after the pass was run on the regions
/// inside it, have every operation that they had but those of the
/// selections that are gone.
pub proof fn lemma_fused_keep_operations(depth: nat, nodes: Seq<NodeT>, k: nat)
    requires
        k <= nodes.len(),
        paired_nodes(nodes, nodes.len()),
    ensures
        ({
            let after = Seq::new(nodes.len(), |i: int| fuse_node(depth, nodes[i]));
            &&& count_nodes(after, k) <= count_nodes(nodes, k)
            &&& kinds_nodes(after, k).add(
                gone((count_nodes(nodes, k) - count_nodes(after, k)) as nat),
            ) =~= kinds_nodes(nodes, k)
        }),
    decreases depth, 2nat, k,
{
    let after = Seq::new(nodes.len(), |i: int| fuse_node(depth, nodes[i]));
    if k == 0 {
        assert(gone(0) =~= Multiset::<NodeKind>::empty());
    } else {
        let j = (k - 1) as nat;
        lemma_fused_keep_operations(depth, nodes, j);
        lemma_paired_each(nodes, nodes.len());
        let n = nodes[k - 1];
        assert(paired_node(n));
        lemma_node_keeps_operations(depth, n, n.child_regions.len());
        let m = fuse_node(depth, n);
        assert(after[k - 1] == m);
        assert(m.child_regions.len() == n.child_regions.len());
        let before = (count_nodes(nodes, j) - count_nodes(after, j)) as nat;
        let inside = (count_node(n) - count_node(m)) as nat;
        lemma_gone_add(before, inside);
        assert(kinds_node(m).add(gone(inside)) =~= kinds_node(n));
        assert(kinds_nodes(after, k).add(gone(before + inside)) =~= kinds_nodes(after, j).add(
            gone(before),
        ).add(kinds_node(m).add(gone(inside))));
    }
}

/// The first `k` regions of a node, after the pass was run on them, have
/// every operation that they had but those of the selections that are
/// gone.
pub proof fn lemma_node_keeps_operations(depth: nat, n: NodeT, k: nat)
    requires
        k <= n.child_regions.len(),
        paired_node(n),
    ensures
        count_regions(fuse_node(depth, n).child_regions, k) <= count_regions(n.child_regions, k),
        kinds_regions(fuse_node(depth, n).child_regions, k).add(
            gone(
                (count_regions(n.child_regions, k) - count_regions(
                    fuse_node(depth, n).child_regions,
                    k,
                )) as nat,
            ),
        ) =~= kinds_regions(n.child_regions, k),
    decreases depth, 1nat, k,
{
    let m = fuse_node(depth, n);
    if k == 0 {
        assert(gone(0) =~= Multiset::<NodeKind>::empty());
    } else {
        let j = (k - 1) as nat;
        lemma_node_keeps_operations(depth, n, j);
        lemma_paired_each_region(n.child_regions, n.child_regions.len());
        let r = n.child_regions[k - 1];
        assert(paired_nodes(r.children, r.children.len()));
        lemma_pass_keeps_operations(depth, r);
        let f = fuse_region(depth, r);
        assert(m.child_regions[k - 1] == f);
        let before = (count_regions(n.child_regions, j) - count_regions(m.child_regions, j)) as nat;
        let inside = (count_region(r) - count_region(f)) as nat;
        lemma_gone_add(before, inside);
        assert(kinds_regions(m.child_regions, k).add(gone(before + inside)) =~= kinds_regions(
            m.child_regions,
            j,
        ).add(gone(before)).add(kinds_region(f).add(gone(inside))));
    }
}

} // verus!
