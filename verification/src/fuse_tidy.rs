//! Bodies in single assignment form: every variable is defined once, and
//! before it is used. Each fusing leaves the nodes of such a body in that
//! form, and such a body runs after the pass as it ran before.

use vstd::prelude::*;
use crate::fuse_laws::lemma_absorb_run;
use crate::fuse_runs::{
    defines_node, defines_nodes, fusings_keep_rules, lemma_pass_runs_alike,
    lemma_replacement_is_entry, lemma_subst_defines, lemma_subst_defines_node, level_keeps_rules,
    node_keeps_rules, pass_keeps_rules, run_all, runs_as_select, single_assignment, Env,
};
use crate::fuse_selects::{
    absorb, absorb_run, case_replacements, fusable, fuse_case, fuse_list, fuse_region,
    is_bool_select, replace, replacement, subst_node, subst_nodes, subst_region, NodeT, RegionT,
    Val,
};

verus! {

/// Whether a run of the node can read the variable `d`.
pub open spec fn uses_node(n: NodeT, d: u32) -> bool
    decreases n,
{
    if runs_as_select(n) {
        n.inputs[0] == Val::Var(d) || uses_region(n.child_regions[0], d) || uses_region(
            n.child_regions[1],
            d,
        )
    } else {
        n.inputs.contains(Val::Var(d))
    }
}

/// Whether a run of the region can read the variable `d`, in one of its
/// nodes or to hand it out.
pub open spec fn uses_region(r: RegionT, d: u32) -> bool
    decreases r,
{
    r.outputs.contains(Val::Var(d)) || uses_nodes(r.children, r.children.len(), d)
}

/// Whether a run of the first `k` nodes of `s` can read the variable `d`.
pub open spec fn uses_nodes(s: Seq<NodeT>, k: nat, d: u32) -> bool
    decreases s, k,
{
    0 < k <= s.len() && (uses_nodes(s, (k - 1) as nat, d) || uses_node(s[k - 1], d))
}

/// Whether the first `k` nodes of `b`, put after the first `j` nodes of
/// `a`, define nothing that those read or define.
pub open spec fn comes_after(a: Seq<NodeT>, j: nat, b: Seq<NodeT>, k: nat) -> bool {
    forall|d: u32| #[trigger]
        defines_nodes(b, k, d) ==> !uses_nodes(a, j, d) && !defines_nodes(a, j, d)
}

/// Whether the node is in single assignment form. A selection by a
/// boolean has its two cases; its outputs are distinct variables; it does
/// not define its own condition; and each of its cases is in that form.
pub open spec fn tidy_node(n: NodeT) -> bool
    decreases n,
{
    &&& is_bool_select(n) ==> n.child_regions.len() >= 2
    &&& runs_as_select(n) ==> {
        &&& forall|i: int, j: int|
            0 <= i < j < n.outputs.len() ==> #[trigger] n.outputs[i] != #[trigger] n.outputs[j]
        &&& forall|d: u32| #[trigger] defines_node(n, d) ==> n.inputs[0] != Val::Var(d)
        &&& tidy_case(n.outputs, n.child_regions[0])
        &&& tidy_case(n.outputs, n.child_regions[1])
    }
}

/// Whether the case `r` of a selection with the outputs `outs` is in
/// single assignment form: it hands out a value for each output, its
/// nodes are in that form, and it neither reads nor defines an output of
/// its selection.
pub open spec fn tidy_case(outs: Seq<u32>, r: RegionT) -> bool
    decreases r,
{
    &&& outs.len() <= r.outputs.len()
    &&& tidy_list(r.children, r.children.len())
    &&& forall|j: int|
        0 <= j < outs.len() ==> !uses_region(r, #[trigger] outs[j]) && !defines_nodes(
            r.children,
            r.children.len(),
            outs[j],
        )
}

/// Whether the first `k` nodes of `s` are in single assignment form: each
/// is, and none defines what a node before it reads or defines.
pub open spec fn tidy_list(s: Seq<NodeT>, k: nat) -> bool
    decreases s, k,
{
    k == 0 || {
        &&& k <= s.len()
        &&& tidy_list(s, (k - 1) as nat)
        &&& tidy_node(s[k - 1])
        &&& forall|d: u32| #[trigger]
            defines_node(s[k - 1], d) ==> !uses_nodes(s, (k - 1) as nat, d) && !defines_nodes(
                s,
                (k - 1) as nat,
                d,
            )
    }
}

/// What the first `k` nodes read and define depends on those nodes alone.
pub proof fn lemma_reach_prefix(s: Seq<NodeT>, t: Seq<NodeT>, k: nat, d: u32)
    requires
        k <= s.len(),
        k <= t.len(),
        forall|i: int| 0 <= i < k ==> s[i] == t[i],
    ensures
        defines_nodes(s, k, d) == defines_nodes(t, k, d),
        uses_nodes(s, k, d) == uses_nodes(t, k, d),
    decreases k,
{
    if k > 0 {
        lemma_reach_prefix(s, t, (k - 1) as nat, d);
    }
}

/// What two lists of nodes read and define, one after the other, is what
/// either reads and defines.
pub proof fn lemma_reach_concat(a: Seq<NodeT>, b: Seq<NodeT>, k: nat, d: u32)
    requires
        k <= b.len(),
    ensures
        defines_nodes(a + b, a.len() + k, d) == (defines_nodes(a, a.len(), d) || defines_nodes(
            b,
            k,
            d,
        )),
        uses_nodes(a + b, a.len() + k, d) == (uses_nodes(a, a.len(), d) || uses_nodes(b, k, d)),
    decreases k,
{
    if k == 0 {
        lemma_reach_prefix(a + b, a, a.len(), d);
    } else {
        lemma_reach_concat(a, b, (k - 1) as nat, d);
        assert((a + b)[a.len() + k - 1] == b[k - 1]);
    }
}

/// What a node reads and defines, the first nodes of its list read and
/// define.
pub proof fn lemma_reach_member(s: Seq<NodeT>, k: nat, i: int, d: u32)
    requires
        0 <= i < k <= s.len(),
    ensures
        defines_node(s[i], d) ==> defines_nodes(s, k, d),
        uses_node(s[i], d) ==> uses_nodes(s, k, d),
    decreases k,
{
    if i < k - 1 {
        lemma_reach_member(s, (k - 1) as nat, i, d);
    }
}

/// What a list of one node reads and defines is what the node does.
pub proof fn lemma_reach_one(n: NodeT, d: u32)
    ensures
        defines_nodes(seq![n], 1, d) == defines_node(n, d),
        uses_nodes(seq![n], 1, d) == uses_node(n, d),
{
    assert(!defines_nodes(seq![n], 0, d));
    assert(!uses_nodes(seq![n], 0, d));
    assert(seq![n][0] == n);
}

/// Whether the first nodes of a list are in single assignment form
/// depends on those nodes alone.
pub proof fn lemma_tidy_prefix(s: Seq<NodeT>, t: Seq<NodeT>, k: nat)
    requires
        k <= s.len(),
        k <= t.len(),
        forall|i: int| 0 <= i < k ==> s[i] == t[i],
    ensures
        tidy_list(s, k) == tidy_list(t, k),
    decreases k,
{
    if k > 0 {
        lemma_tidy_prefix(s, t, (k - 1) as nat);
        assert forall|d: u32|
            #![trigger defines_nodes(s, (k - 1) as nat, d)]
            #![trigger uses_nodes(s, (k - 1) as nat, d)]
            defines_nodes(s, (k - 1) as nat, d) == defines_nodes(t, (k - 1) as nat, d)
                && uses_nodes(s, (k - 1) as nat, d) == uses_nodes(t, (k - 1) as nat, d) by {
            lemma_reach_prefix(s, t, (k - 1) as nat, d);
        }
    }
}

/// Two lists of nodes, one after the other, are in single assignment form
/// where both are and the second comes after the first.
pub proof fn lemma_tidy_concat(a: Seq<NodeT>, b: Seq<NodeT>, k: nat)
    requires
        k <= b.len(),
    ensures
        tidy_list(a + b, a.len() + k) == (tidy_list(a, a.len()) && tidy_list(b, k) && comes_after(
            a,
            a.len(),
            b,
            k,
        )),
    decreases k,
{
    if k == 0 {
        lemma_tidy_prefix(a + b, a, a.len());
        assert forall|d: u32| !#[trigger] defines_nodes(b, 0, d) by {}
    } else {
        let j = (k - 1) as nat;
        lemma_tidy_concat(a, b, j);
        let last = b[k - 1];
        assert((a + b)[a.len() + k - 1] == last);
        assert forall|d: u32|
            #![trigger defines_nodes(a + b, a.len() + j, d)]
            #![trigger uses_nodes(a + b, a.len() + j, d)]
            #![trigger defines_nodes(b, j, d)]
            defines_nodes(a + b, a.len() + j, d) == (defines_nodes(a, a.len(), d)
                || defines_nodes(b, j, d)) && uses_nodes(a + b, a.len() + j, d) == (uses_nodes(
                a,
                a.len(),
                d,
            ) || uses_nodes(b, j, d)) by {
            lemma_reach_concat(a, b, j, d);
        }
        if tidy_list(a + b, a.len() + k) {
            assert(tidy_list(b, k));
            assert forall|d: u32| #[trigger] defines_nodes(b, k, d) implies !uses_nodes(
                a,
                a.len(),
                d,
            ) && !defines_nodes(a, a.len(), d) by {
                if defines_nodes(b, j, d) {
                } else {
                    assert(defines_node(last, d));
                }
            }
        }
        if tidy_list(a, a.len()) && tidy_list(b, k) && comes_after(a, a.len(), b, k) {
            assert forall|d: u32| #[trigger] defines_nodes(b, j, d) implies !uses_nodes(
                a,
                a.len(),
                d,
            ) && !defines_nodes(a, a.len(), d) by {
                assert(defines_nodes(b, k, d));
            }
            assert forall|d: u32| #[trigger] defines_node(last, d) implies !uses_nodes(
                a + b,
                a.len() + j,
                d,
            ) && !defines_nodes(a + b, a.len() + j, d) by {
                assert(defines_nodes(b, k, d));
            }
            assert(tidy_list(a + b, a.len() + k));
        }
    }
}

/// Whether no replacement of `map` is the variable `d`.
pub open spec fn hands_none(map: Seq<(u32, Val)>, d: u32) -> bool {
    forall|x: u32| #![trigger replacement(map, x)] replacement(map, x) != Some(Val::Var(d))
}

/// A value that is the variable `d` after replacements that do not hand
/// out `d` was that variable before, and `d` is not replaced.
pub proof fn lemma_replaced_is(map: Seq<(u32, Val)>, v: Val, d: u32)
    requires
        hands_none(map, d),
        replace(map, v) == Val::Var(d),
    ensures
        v == Val::Var(d),
        replacement(map, d) is None,
{
    match v {
        Val::Const(_) => {},
        Val::Var(x) => {
            assert(replacement(map, x) != Some(Val::Var(d)));
        },
    }
}

/// A node after replacements that do not hand out `d` reads `d` only
/// where it did before, and where `d` is not replaced.
pub proof fn lemma_subst_uses_node(map: Seq<(u32, Val)>, n: NodeT, d: u32)
    requires
        hands_none(map, d),
    ensures
        uses_node(subst_node(map, n), d) ==> uses_node(n, d) && replacement(map, d) is None,
    decreases n,
{
    let m = subst_node(map, n);
    if uses_node(m, d) {
        if runs_as_select(n) {
            assert(runs_as_select(m));
            if m.inputs[0] == Val::Var(d) {
                lemma_replaced_is(map, n.inputs[0], d);
            }
            lemma_subst_uses_region(map, n.child_regions[0], d);
            lemma_subst_uses_region(map, n.child_regions[1], d);
        } else {
            assert(!runs_as_select(m));
            let i = choose|i: int| 0 <= i < m.inputs.len() && m.inputs[i] == Val::Var(d);
            lemma_replaced_is(map, n.inputs[i], d);
        }
    }
}

/// A region after replacements that do not hand out `d` reads `d` only
/// where it did before, and where `d` is not replaced.
pub proof fn lemma_subst_uses_region(map: Seq<(u32, Val)>, r: RegionT, d: u32)
    requires
        hands_none(map, d),
    ensures
        uses_region(subst_region(map, r), d) ==> uses_region(r, d) && replacement(map, d) is None,
    decreases r,
{
    let m = subst_region(map, r);
    assert(m.children =~= subst_nodes(map, r.children));
    if uses_region(m, d) {
        if m.outputs.contains(Val::Var(d)) {
            let i = choose|i: int| 0 <= i < m.outputs.len() && m.outputs[i] == Val::Var(d);
            lemma_replaced_is(map, r.outputs[i], d);
        } else {
            lemma_subst_uses_nodes(map, r.children, r.children.len(), d);
        }
    }
}

/// Nodes after replacements that do not hand out `d` read `d` only where
/// they did before, and where `d` is not replaced.
pub proof fn lemma_subst_uses_nodes(map: Seq<(u32, Val)>, s: Seq<NodeT>, k: nat, d: u32)
    requires
        hands_none(map, d),
        k <= s.len(),
    ensures
        uses_nodes(subst_nodes(map, s), k, d) ==> uses_nodes(s, k, d) && replacement(map, d)
            is None,
    decreases s, k,
{
    if k > 0 {
        lemma_subst_uses_nodes(map, s, (k - 1) as nat, d);
        lemma_subst_uses_node(map, s[k - 1], d);
        assert(subst_nodes(map, s)[k - 1] == subst_node(map, s[k - 1]));
    }
}

/// A node in single assignment form stays in it under replacements that
/// hand out nothing that the node defines.
pub proof fn lemma_subst_tidy_node(map: Seq<(u32, Val)>, n: NodeT)
    requires
        tidy_node(n),
        forall|d: u32| #[trigger] defines_node(n, d) ==> hands_none(map, d),
    ensures
        tidy_node(subst_node(map, n)),
    decreases n,
{
    let m = subst_node(map, n);
    if runs_as_select(n) {
        assert(runs_as_select(m));
        assert forall|d: u32| #[trigger] defines_node(m, d) implies m.inputs[0] != Val::Var(
            d,
        ) by {
            lemma_subst_defines_node(map, n, d);
            if m.inputs[0] == Val::Var(d) {
                lemma_replaced_is(map, n.inputs[0], d);
            }
        }
        assert forall|j: int| 0 <= j < n.outputs.len() implies hands_none(
            map,
            #[trigger] n.outputs[j],
        ) by {
            assert(n.outputs.contains(n.outputs[j]));
            assert(defines_node(n, n.outputs[j]));
        }
        let r0 = n.child_regions[0];
        let r1 = n.child_regions[1];
        assert forall|d: u32| #[trigger]
            defines_nodes(r0.children, r0.children.len(), d) implies hands_none(map, d) by {
            assert(defines_node(n, d));
        }
        assert forall|d: u32| #[trigger]
            defines_nodes(r1.children, r1.children.len(), d) implies hands_none(map, d) by {
            assert(defines_node(n, d));
        }
        lemma_subst_tidy_case(map, n.outputs, r0);
        lemma_subst_tidy_case(map, n.outputs, r1);
    } else {
        assert(!runs_as_select(m));
    }
}

/// A case in single assignment form stays in it under replacements that
/// hand out neither an output of its selection nor what the case defines.
pub proof fn lemma_subst_tidy_case(map: Seq<(u32, Val)>, outs: Seq<u32>, r: RegionT)
    requires
        tidy_case(outs, r),
        forall|j: int| 0 <= j < outs.len() ==> hands_none(map, #[trigger] outs[j]),
        forall|d: u32| #[trigger]
            defines_nodes(r.children, r.children.len(), d) ==> hands_none(map, d),
    ensures
        tidy_case(outs, subst_region(map, r)),
    decreases r,
{
    let m = subst_region(map, r);
    assert(m.children =~= subst_nodes(map, r.children));
    lemma_subst_tidy_list(map, r.children, r.children.len());
    assert forall|j: int| 0 <= j < outs.len() implies !uses_region(m, #[trigger] outs[j])
        && !defines_nodes(m.children, m.children.len(), outs[j]) by {
        lemma_subst_uses_region(map, r, outs[j]);
        lemma_subst_defines(map, r.children, r.children.len(), outs[j]);
    }
}

/// Nodes in single assignment form stay in it under replacements that
/// hand out nothing that the nodes define.
pub proof fn lemma_subst_tidy_list(map: Seq<(u32, Val)>, s: Seq<NodeT>, k: nat)
    requires
        k <= s.len(),
        tidy_list(s, k),
        forall|d: u32| #[trigger] defines_nodes(s, k, d) ==> hands_none(map, d),
    ensures
        tidy_list(subst_nodes(map, s), k),
    decreases s, k,
{
    if k > 0 {
        let j = (k - 1) as nat;
        let t = subst_nodes(map, s);
        assert(t[k - 1] == subst_node(map, s[k - 1]));
        assert forall|d: u32| #[trigger] defines_nodes(s, j, d) implies hands_none(map, d) by {
            assert(defines_nodes(s, k, d));
        }
        lemma_subst_tidy_list(map, s, j);
        assert forall|d: u32| #[trigger] defines_node(s[k - 1], d) implies hands_none(map, d) by {
            assert(defines_nodes(s, k, d));
        }
        lemma_subst_tidy_node(map, s[k - 1]);
        assert forall|d: u32| #[trigger] defines_node(t[k - 1], d) implies !uses_nodes(t, j, d)
            && !defines_nodes(t, j, d) by {
            lemma_subst_defines_node(map, s[k - 1], d);
            assert(defines_node(s[k - 1], d));
            lemma_subst_uses_nodes(map, s, j, d);
            lemma_subst_defines(map, s, j, d);
        }
    }
}

/// The replacements of a case hand out only what the case hands out.
pub proof fn lemma_case_hands(outs: Seq<u32>, r: RegionT, d: u32)
    requires
        !r.outputs.contains(Val::Var(d)),
    ensures
        hands_none(case_replacements(outs, r), d),
{
    let map = case_replacements(outs, r);
    assert forall|x: u32| #![trigger replacement(map, x)] replacement(map, x) != Some(
        Val::Var(d),
    ) by {
        lemma_replacement_is_entry(map, x);
        if replacement(map, x) == Some(Val::Var(d)) {
            let j = choose|j: int| 0 <= j < map.len() && (#[trigger] map[j]).1 == Val::Var(d);
            assert(r.outputs[j] == Val::Var(d));
        }
    }
}

/// A variable that a list of replacements has an entry for is replaced.
pub proof fn lemma_key_replaced(map: Seq<(u32, Val)>, j: int)
    requires
        0 <= j < map.len(),
    ensures
        replacement(map, map[j].0) is Some,
    decreases map.len(),
{
    if map.last().0 != map[j].0 {
        lemma_key_replaced(map.drop_last(), j);
    }
}

/// Whether the node `c`, put after the node `a`, defines nothing that `a`
/// reads or defines.
pub open spec fn node_after(a: NodeT, c: NodeT) -> bool {
    forall|d: u32| #[trigger] defines_node(c, d) ==> !uses_node(a, d) && !defines_node(a, d)
}

/// The fusing of two selections in single assignment form, the second of
/// which comes after the first, keeps to the rules.
pub proof fn lemma_tidy_pair_keeps_rules(a: NodeT, c: NodeT, k: int)
    requires
        fusable(a, c),
        tidy_node(a),
        tidy_node(c),
        node_after(a, c),
        k == 0 || k == 1,
    ensures
        single_assignment(a, c, k),
{
    let a_case = a.child_regions[k];
    let c_case = c.child_regions[k];
    assert forall|d: u32| #[trigger]
        defines_nodes(a_case.children, a_case.children.len(), d) implies a.inputs[0]
        != Val::Var(d) by {
        assert(defines_node(a, d));
    }
    assert forall|j: int| 0 <= j < a.outputs.len() implies a.inputs[0] != Val::Var(
        #[trigger] a.outputs[j],
    ) by {
        assert(a.outputs.contains(a.outputs[j]));
        assert(defines_node(a, a.outputs[j]));
    }
    assert forall|d: u32| #[trigger]
        defines_nodes(c_case.children, c_case.children.len(), d) implies !a.outputs.contains(d)
        && forall|j: int|
        0 <= j < a_case.outputs.len() ==> #[trigger] a_case.outputs[j] != Val::Var(d) by {
        assert(defines_node(c, d));
        assert(!defines_node(a, d));
        assert(!uses_node(a, d));
        assert(!uses_region(a_case, d));
    }
}

/// The case of two fused selections in single assignment form, the second
/// of which comes after the first: it is in that form, it defines what
/// the two cases defined, and it reads only what they read.
pub proof fn lemma_fuse_case_tidy(a: NodeT, c: NodeT, k: int)
    requires
        fusable(a, c),
        tidy_node(a),
        tidy_node(c),
        node_after(a, c),
        k == 0 || k == 1,
    ensures
        tidy_case(a.outputs, fuse_case(a.outputs, a.child_regions[k], c.child_regions[k])),
        forall|d: u32| #[trigger]
            defines_nodes(
                fuse_case(a.outputs, a.child_regions[k], c.child_regions[k]).children,
                fuse_case(a.outputs, a.child_regions[k], c.child_regions[k]).children.len(),
                d,
            ) ==> defines_node(a, d) || defines_node(c, d),
        forall|d: u32| #[trigger]
            uses_region(fuse_case(a.outputs, a.child_regions[k], c.child_regions[k]), d)
                ==> uses_node(a, d) || uses_node(c, d),
{
    let a_case = a.child_regions[k];
    let c_case = c.child_regions[k];
    let map = case_replacements(a.outputs, a_case);
    let moved = subst_nodes(map, c_case.children);
    let fused = fuse_case(a.outputs, a_case, c_case);
    let own = a_case.children;
    assert(fused.children == own + moved);
    assert(tidy_case(a.outputs, a_case));
    assert(tidy_case(c.outputs, c_case));
    assert forall|d: u32| #[trigger]
        defines_nodes(c_case.children, c_case.children.len(), d) implies hands_none(map, d) by {
        assert(defines_node(c, d));
        assert(!uses_node(a, d));
        assert(!uses_region(a_case, d));
        lemma_case_hands(a.outputs, a_case, d);
    }
    lemma_subst_tidy_list(map, c_case.children, c_case.children.len());
    assert forall|d: u32| #[trigger] defines_nodes(moved, moved.len(), d) implies !uses_nodes(
        own,
        own.len(),
        d,
    ) && !defines_nodes(own, own.len(), d) by {
        lemma_subst_defines(map, c_case.children, c_case.children.len(), d);
        assert(defines_node(c, d));
        assert(!uses_node(a, d));
        assert(!uses_region(a_case, d));
        assert(!defines_node(a, d));
    }
    lemma_tidy_concat(own, moved, moved.len());
    assert forall|d: u32|
        #![trigger defines_nodes(fused.children, fused.children.len(), d)]
        #![trigger uses_region(fused, d)]
        (defines_nodes(fused.children, fused.children.len(), d) ==> defines_node(a, d)
            || defines_node(c, d)) && (uses_region(fused, d) ==> uses_node(a, d) || uses_node(
            c,
            d,
        )) by {
        lemma_reach_concat(own, moved, moved.len(), d);
        lemma_subst_defines(map, c_case.children, c_case.children.len(), d);
        if uses_nodes(moved, moved.len(), d) && !uses_region(a_case, d) {
            lemma_case_hands(a.outputs, a_case, d);
            lemma_subst_uses_nodes(map, c_case.children, c_case.children.len(), d);
            assert(uses_region(c_case, d));
        }
    }
    assert forall|j: int| 0 <= j < a.outputs.len() implies !uses_region(
        fused,
        #[trigger] a.outputs[j],
    ) && !defines_nodes(fused.children, fused.children.len(), a.outputs[j]) by {
        let y = a.outputs[j];
        lemma_reach_concat(own, moved, moved.len(), y);
        lemma_subst_defines(map, c_case.children, c_case.children.len(), y);
        assert(a.outputs.contains(y));
        assert(defines_node(a, y));
        assert(!uses_region(a_case, y));
        lemma_case_hands(a.outputs, a_case, y);
        lemma_subst_uses_nodes(map, c_case.children, c_case.children.len(), y);
        assert(map[j].0 == y);
        lemma_key_replaced(map, j);
        if defines_nodes(c_case.children, c_case.children.len(), y) {
            assert(defines_node(c, y));
        }
    }
}

/// Two fused selections in single assignment form, the second of which
/// comes after the first, are one selection in that form, which defines
/// and reads only what the two did.
pub proof fn lemma_absorb_tidy(a: NodeT, c: NodeT)
    requires
        fusable(a, c),
        tidy_node(a),
        tidy_node(c),
        node_after(a, c),
    ensures
        tidy_node(absorb(a, c)),
        forall|d: u32| #[trigger]
            defines_node(absorb(a, c), d) ==> defines_node(a, d) || defines_node(c, d),
        forall|d: u32| #[trigger]
            uses_node(absorb(a, c), d) ==> uses_node(a, d) || uses_node(c, d),
{
    let f = absorb(a, c);
    lemma_fuse_case_tidy(a, c, 0);
    lemma_fuse_case_tidy(a, c, 1);
    assert(f.child_regions[0] == fuse_case(a.outputs, a.child_regions[0], c.child_regions[0]));
    assert(f.child_regions[1] == fuse_case(a.outputs, a.child_regions[1], c.child_regions[1]));
    assert(runs_as_select(f));
    assert(runs_as_select(a));
    assert(runs_as_select(c));
    let f0 = f.child_regions[0];
    let f1 = f.child_regions[1];
    assert forall|d: u32| #[trigger] defines_node(f, d) implies defines_node(a, d)
        || defines_node(c, d) by {
        if f.outputs.contains(d) {
            assert(a.outputs.contains(d));
            assert(defines_node(a, d));
        } else if defines_nodes(f0.children, f0.children.len(), d) {
        } else {
            assert(defines_nodes(f1.children, f1.children.len(), d));
        }
    }
    assert forall|d: u32| #[trigger] uses_node(f, d) implies uses_node(a, d) || uses_node(
        c,
        d,
    ) by {
        if f.inputs[0] == Val::Var(d) {
            assert(uses_node(a, d));
        } else if uses_region(f0, d) {
        } else {
            assert(uses_region(f1, d));
        }
    }
    assert forall|d: u32| #[trigger] defines_node(f, d) implies f.inputs[0] != Val::Var(d) by {
        assert(defines_node(a, d) || defines_node(c, d));
    }
}

/// A list of one node is in single assignment form where the node is.
pub proof fn lemma_tidy_one(n: NodeT)
    ensures
        tidy_list(seq![n], 1) == tidy_node(n),
{
    assert(tidy_list(seq![n], 0));
    assert(seq![n][0] == n);
    assert forall|d: u32| !uses_nodes(seq![n], 0, d) && !defines_nodes(seq![n], 0, d) by {}
}

/// In a list in single assignment form, every fusing into its first node
/// keeps to the rules, and leaves a list in that form.
pub proof fn lemma_tidy_fusings(base: NodeT, rest: Seq<NodeT>)
    requires
        tidy_list(seq![base] + rest, 1 + rest.len()),
    ensures
        fusings_keep_rules(base, rest),
        tidy_list(
            seq![absorb_run(base, rest).0] + absorb_run(base, rest).1,
            1 + absorb_run(base, rest).1.len(),
        ),
    decreases rest.len(),
{
    if rest.len() > 0 && fusable(base, rest[0]) {
        let c = rest[0];
        let tail = rest.drop_first();
        let f = absorb(base, c);
        assert(rest =~= seq![c] + tail);
        lemma_tidy_concat(seq![base], rest, rest.len());
        lemma_tidy_concat(seq![c], tail, tail.len());
        lemma_tidy_one(base);
        lemma_tidy_one(c);
        assert forall|d: u32| #[trigger] defines_node(c, d) implies !uses_node(base, d)
            && !defines_node(base, d) by {
            lemma_reach_member(rest, rest.len(), 0, d);
            lemma_reach_one(base, d);
        }
        lemma_tidy_pair_keeps_rules(base, c, 0);
        lemma_tidy_pair_keeps_rules(base, c, 1);
        lemma_absorb_tidy(base, c);
        lemma_tidy_one(f);
        assert forall|d: u32| #[trigger] defines_nodes(tail, tail.len(), d) implies !uses_nodes(
            seq![f],
            1,
            d,
        ) && !defines_nodes(seq![f], 1, d) by {
            lemma_reach_concat(seq![c], tail, tail.len(), d);
            assert(defines_nodes(rest, rest.len(), d));
            lemma_reach_one(base, d);
            lemma_reach_one(c, d);
            lemma_reach_one(f, d);
        }
        lemma_tidy_concat(seq![f], tail, tail.len());
        lemma_tidy_fusings(f, tail);
    }
}

/// In a list in single assignment form, every fusing at its level keeps
/// to the rules, and leaves nodes in that form.
pub proof fn lemma_tidy_level(nodes: Seq<NodeT>)
    requires
        tidy_list(nodes, nodes.len()),
    ensures
        level_keeps_rules(nodes),
        forall|i: int| 0 <= i < fuse_list(nodes).len() ==> tidy_node(#[trigger] fuse_list(nodes)[i]),
    decreases nodes.len(),
{
    if nodes.len() > 0 {
        let first = nodes[0];
        let others = nodes.drop_first();
        let (base, rest) = absorb_run(first, others);
        assert(nodes =~= seq![first] + others);
        lemma_tidy_fusings(first, others);
        lemma_absorb_run(first, others);
        lemma_tidy_concat(seq![base], rest, rest.len());
        lemma_tidy_one(base);
        lemma_tidy_level(rest);
        let after = fuse_list(nodes);
        assert(after == seq![base] + fuse_list(rest));
        assert forall|i: int| 0 <= i < after.len() implies tidy_node(#[trigger] after[i]) by {
            if i > 0 {
                assert(after[i] == fuse_list(rest)[i - 1]);
            }
        }
    }
}

/// In a body in single assignment form, every fusing that the pass makes
/// keeps to the rules.
pub proof fn lemma_tidy_pass(depth: nat, r: RegionT)
    requires
        tidy_list(r.children, r.children.len()),
    ensures
        pass_keeps_rules(depth, r),
    decreases depth,
{
    if depth > 0 {
        let inner = (depth - 1) as nat;
        let fused = fuse_list(r.children);
        lemma_tidy_level(r.children);
        assert forall|i: int| 0 <= i < fused.len() implies node_keeps_rules(
            inner,
            #[trigger] fused[i],
        ) by {
            let n = fused[i];
            assert(tidy_node(n));
            if runs_as_select(n) {
                assert(tidy_case(n.outputs, n.child_regions[0]));
                assert(tidy_case(n.outputs, n.child_regions[1]));
                lemma_tidy_pass(inner, n.child_regions[0]);
                lemma_tidy_pass(inner, n.child_regions[1]);
            }
        }
    }
}

/// A body in single assignment form runs after the pass as it ran before:
/// under any assignment of truth to conditions and from any environment,
/// the steps taken are the same, on the same values, and so is what the
/// variables stand for afterwards, and what the body hands out.
pub proof fn lemma_pass_keeps_behaviour(
    truth: spec_fn(Val) -> bool,
    env: Env,
    depth: nat,
    r: RegionT,
)
    requires
        tidy_list(r.children, r.children.len()),
    ensures
        run_all(truth, env, fuse_region(depth, r).children) == run_all(truth, env, r.children),
        fuse_region(depth, r).outputs == r.outputs,
{
    lemma_tidy_pass(depth, r);
    lemma_pass_runs_alike(truth, env, depth, r);
}

} // verus!
