//! What a body does when it runs, and why fusing two selections does not
//! change it: a selection by a boolean runs the case that its condition
//! picks, and hands out what the case hands out; any other node is one
//! step.

use vstd::prelude::*;
use crate::fuse_selects::{
    absorb, absorb_run, case_replacements, fusable, fuse_list, fuse_node, fuse_region,
    is_bool_select, replace, replace_all, replacement, subst_node, subst_nodes, NodeKind, NodeT,
    RegionT, Val,
};

verus! {

/// One step of a run: what was done, on which values, defining what.
pub struct Event {
    pub kind: NodeKind,
    pub inputs: Seq<Val>,
    pub outputs: Seq<u32>,
}

/// What the variables stand for that selections have handed out so far.
pub type Env = Map<u32, Val>;

/// The value that `v` stands for: a variable that a selection handed out
/// stands for what was handed out, anything else for itself.
pub open spec fn resolve(env: Env, v: Val) -> Val {
    match v {
        Val::Const(_) => v,
        Val::Var(x) => if env.dom().contains(x) {
            env[x]
        } else {
            v
        },
    }
}

/// The values that `vs` stand for.
pub open spec fn resolve_all(env: Env, vs: Seq<Val>) -> Seq<Val> {
    Seq::new(vs.len(), |i: int| resolve(env, vs[i]))
}

/// The environment after the first `k` of the variables `outs` were given
/// the values `vals`, in order.
pub open spec fn bind(env: Env, outs: Seq<u32>, vals: Seq<Val>, k: nat) -> Env
    decreases k,
{
    if k == 0 || k > outs.len() || k > vals.len() {
        env
    } else {
        bind(env, outs, vals, (k - 1) as nat).insert(outs[k - 1], vals[k - 1])
    }
}

/// How many of the variables `outs` get one of the values `vals`.
pub open spec fn pairs(outs: Seq<u32>, vals: Seq<Val>) -> nat {
    if outs.len() <= vals.len() {
        outs.len()
    } else {
        vals.len()
    }
}

/// Whether the node runs as a selection by a boolean: it is one, and has
/// the two cases to choose from.
pub open spec fn runs_as_select(n: NodeT) -> bool {
    is_bool_select(n) && n.child_regions.len() >= 2
}

/// The case that a selection runs: the first where its condition holds,
/// the second where not.
pub open spec fn chosen(truth: spec_fn(Val) -> bool, env: Env, n: NodeT) -> int {
    if truth(resolve(env, n.inputs[0])) {
        0
    } else {
        1
    }
}

/// The run of the first `k` nodes of `s`: the environment afterwards, and
/// the steps taken.
pub open spec fn run_nodes(truth: spec_fn(Val) -> bool, env: Env, s: Seq<NodeT>, k: nat) -> (
    Env,
    Seq<Event>,
)
    decreases s, k,
{
    if k == 0 || k > s.len() {
        (env, Seq::empty())
    } else {
        let (e1, t1) = run_nodes(truth, env, s, (k - 1) as nat);
        let (e2, t2) = run_node(truth, e1, s[k - 1]);
        (e2, t1 + t2)
    }
}

/// The run of one node. A selection by a boolean runs the case chosen and
/// then gives its outputs the values that the case hands out; any other
/// node is one step on the values that its inputs stand for.
pub open spec fn run_node(truth: spec_fn(Val) -> bool, env: Env, n: NodeT) -> (Env, Seq<Event>)
    decreases n,
{
    if runs_as_select(n) {
        let c = chosen(truth, env, n);
        let case = n.child_regions[c];
        let (e1, t) = run_nodes(truth, env, case.children, case.children.len());
        let vals = resolve_all(e1, case.outputs);
        (bind(e1, n.outputs, vals, pairs(n.outputs, vals)), t)
    } else {
        (
            env,
            seq![Event { kind: n.kind, inputs: resolve_all(env, n.inputs), outputs: n.outputs }],
        )
    }
}

/// Whether a run of the node can give the variable `d` a value.
pub open spec fn defines_node(n: NodeT, d: u32) -> bool
    decreases n,
{
    runs_as_select(n) && (n.outputs.contains(d) || defines_nodes(
        n.child_regions[0].children,
        n.child_regions[0].children.len(),
        d,
    ) || defines_nodes(n.child_regions[1].children, n.child_regions[1].children.len(), d))
}

/// Whether a run of the first `k` nodes of `s` can give the variable `d` a
/// value.
pub open spec fn defines_nodes(s: Seq<NodeT>, k: nat, d: u32) -> bool
    decreases s, k,
{
    0 < k <= s.len() && (defines_nodes(s, (k - 1) as nat, d) || defines_node(s[k - 1], d))
}

/// Whether the replacements `map` and the bindings `bound` say the same:
/// the variables that are bound are those that are replaced, and each is
/// bound to what its replacement stands for.
pub open spec fn agree(env: Env, map: Seq<(u32, Val)>, bound: Env) -> bool {
    forall|x: u32|
        #![trigger replacement(map, x)]
        #![trigger bound.dom().contains(x)]
        match replacement(map, x) {
            Some(r) => bound.dom().contains(x) && bound[x] == resolve(env, r),
            None => !bound.dom().contains(x),
        }
}

/// Whether the variable `d` is out of the way of the replacements: it is
/// not bound, and no replacement is that variable.
pub open spec fn clear_of(map: Seq<(u32, Val)>, bound: Env, d: u32) -> bool {
    !bound.dom().contains(d) && forall|x: u32|
        #![trigger replacement(map, x)]
        replacement(map, x) != Some(Val::Var(d))
}

/// Whether every variable that a run of the first `k` nodes of `s` can
/// define is out of the way of the replacements.
pub open spec fn all_clear(s: Seq<NodeT>, k: nat, map: Seq<(u32, Val)>, bound: Env) -> bool {
    forall|d: u32| #[trigger] defines_nodes(s, k, d) ==> clear_of(map, bound, d)
}

/// Where replacements and bindings agree, a value after replacement
/// stands for what the value stands for under the bindings.
pub proof fn lemma_agree_resolve(env: Env, map: Seq<(u32, Val)>, bound: Env, v: Val)
    requires
        agree(env, map, bound),
    ensures
        resolve(env.union_prefer_right(bound), v) == resolve(env, replace(map, v)),
{
    match v {
        Val::Const(_) => {},
        Val::Var(x) => {
            let r = replacement(map, x);
            assert(bound.dom().contains(x) == r.is_some());
        },
    }
}

/// The same, for a list of values.
pub proof fn lemma_agree_resolve_all(env: Env, map: Seq<(u32, Val)>, bound: Env, vs: Seq<Val>)
    requires
        agree(env, map, bound),
    ensures
        resolve_all(env.union_prefer_right(bound), vs) == resolve_all(env, replace_all(map, vs)),
{
    assert forall|i: int| 0 <= i < vs.len() implies resolve(
        env.union_prefer_right(bound),
        vs[i],
    ) == resolve(env, replace_all(map, vs)[i]) by {
        lemma_agree_resolve(env, map, bound, vs[i]);
    }
    assert(resolve_all(env.union_prefer_right(bound), vs) =~= resolve_all(
        env,
        replace_all(map, vs),
    ));
}

/// Giving values to variables that are out of the way goes past the
/// bindings, and leaves replacements and bindings in agreement.
pub proof fn lemma_bind_past(
    env: Env,
    map: Seq<(u32, Val)>,
    bound: Env,
    outs: Seq<u32>,
    vals: Seq<Val>,
    k: nat,
)
    requires
        agree(env, map, bound),
        forall|j: int| 0 <= j < outs.len() ==> clear_of(map, bound, #[trigger] outs[j]),
    ensures
        bind(env.union_prefer_right(bound), outs, vals, k) == bind(
            env,
            outs,
            vals,
            k,
        ).union_prefer_right(bound),
        agree(bind(env, outs, vals, k), map, bound),
    decreases k,
{
    if !(k == 0 || k > outs.len() || k > vals.len()) {
        lemma_bind_past(env, map, bound, outs, vals, (k - 1) as nat);
        let before = bind(env, outs, vals, (k - 1) as nat);
        let d = outs[k - 1];
        assert(clear_of(map, bound, d));
        assert(before.union_prefer_right(bound).insert(d, vals[k - 1]) =~= before.insert(
            d,
            vals[k - 1],
        ).union_prefer_right(bound));
        let after = before.insert(d, vals[k - 1]);
        assert forall|x: u32|
            #![trigger replacement(map, x)]
            #![trigger bound.dom().contains(x)]
            match replacement(map, x) {
                Some(r) => bound.dom().contains(x) && bound[x] == resolve(after, r),
                None => !bound.dom().contains(x),
            } by {
            match replacement(map, x) {
                Some(r) => {
                    assert(r != Val::Var(d));
                    assert(resolve(after, r) == resolve(before, r));
                },
                None => {},
            }
        }
    }
}

/// A run of nodes after replacement, and a run of the nodes as they were
/// under the bindings that the replacements stand for, take the same
/// steps, and end in environments that differ by the bindings alone.
pub proof fn lemma_subst_run_nodes(
    truth: spec_fn(Val) -> bool,
    env: Env,
    map: Seq<(u32, Val)>,
    bound: Env,
    s: Seq<NodeT>,
    k: nat,
)
    requires
        k <= s.len(),
        agree(env, map, bound),
        all_clear(s, k, map, bound),
    ensures
        run_nodes(truth, env.union_prefer_right(bound), s, k).1 == run_nodes(
            truth,
            env,
            subst_nodes(map, s),
            k,
        ).1,
        run_nodes(truth, env.union_prefer_right(bound), s, k).0 == run_nodes(
            truth,
            env,
            subst_nodes(map, s),
            k,
        ).0.union_prefer_right(bound),
        agree(run_nodes(truth, env, subst_nodes(map, s), k).0, map, bound),
    decreases s, k,
{
    if k > 0 {
        assert forall|d: u32| #[trigger]
            defines_nodes(s, (k - 1) as nat, d) implies clear_of(map, bound, d) by {
            assert(defines_nodes(s, k, d));
        }
        lemma_subst_run_nodes(truth, env, map, bound, s, (k - 1) as nat);
        let e1 = run_nodes(truth, env, subst_nodes(map, s), (k - 1) as nat).0;
        assert forall|d: u32| #[trigger] defines_node(s[k - 1], d) implies clear_of(
            map,
            bound,
            d,
        ) by {
            assert(defines_nodes(s, k, d));
        }
        lemma_subst_run_node(truth, e1, map, bound, s[k - 1]);
        assert(subst_nodes(map, s)[k - 1] == subst_node(map, s[k - 1]));
    }
}

/// The same, for one node.
pub proof fn lemma_subst_run_node(
    truth: spec_fn(Val) -> bool,
    env: Env,
    map: Seq<(u32, Val)>,
    bound: Env,
    n: NodeT,
)
    requires
        agree(env, map, bound),
        forall|d: u32| #[trigger] defines_node(n, d) ==> clear_of(map, bound, d),
    ensures
        run_node(truth, env.union_prefer_right(bound), n).1 == run_node(
            truth,
            env,
            subst_node(map, n),
        ).1,
        run_node(truth, env.union_prefer_right(bound), n).0 == run_node(
            truth,
            env,
            subst_node(map, n),
        ).0.union_prefer_right(bound),
        agree(run_node(truth, env, subst_node(map, n)).0, map, bound),
    decreases n,
{
    let both = env.union_prefer_right(bound);
    let m = subst_node(map, n);
    if runs_as_select(n) {
        assert(runs_as_select(m));
        lemma_agree_resolve(env, map, bound, n.inputs[0]);
        assert(m.inputs[0] == replace(map, n.inputs[0]));
        let c = chosen(truth, both, n);
        assert(c == chosen(truth, env, m));
        let case = n.child_regions[c];
        let moved = m.child_regions[c];
        assert(moved.children =~= subst_nodes(map, case.children));
        assert(moved.outputs == replace_all(map, case.outputs));
        assert forall|d: u32| #[trigger]
            defines_nodes(case.children, case.children.len(), d) implies clear_of(
            map,
            bound,
            d,
        ) by {
            assert(defines_node(n, d));
        }
        lemma_subst_run_nodes(truth, env, map, bound, case.children, case.children.len());
        let e1 = run_nodes(truth, env, moved.children, moved.children.len()).0;
        lemma_agree_resolve_all(e1, map, bound, case.outputs);
        let vals = resolve_all(e1, moved.outputs);
        assert forall|j: int| 0 <= j < n.outputs.len() implies clear_of(
            map,
            bound,
            #[trigger] n.outputs[j],
        ) by {
            assert(n.outputs.contains(n.outputs[j]));
            assert(defines_node(n, n.outputs[j]));
        }
        lemma_bind_past(e1, map, bound, n.outputs, vals, pairs(n.outputs, vals));
    } else {
        assert(!runs_as_select(m));
        lemma_agree_resolve_all(env, map, bound, n.inputs);
    }
}

/// A run of two lists of nodes, one after the other, is the run of the
/// first and then the run of the second.
pub proof fn lemma_run_concat(
    truth: spec_fn(Val) -> bool,
    env: Env,
    a: Seq<NodeT>,
    b: Seq<NodeT>,
    k: nat,
)
    requires
        k <= b.len(),
    ensures
        run_nodes(truth, env, a + b, a.len() + k).0 == run_nodes(
            truth,
            run_nodes(truth, env, a, a.len()).0,
            b,
            k,
        ).0,
        run_nodes(truth, env, a + b, a.len() + k).1 == run_nodes(truth, env, a, a.len()).1
            + run_nodes(truth, run_nodes(truth, env, a, a.len()).0, b, k).1,
    decreases k,
{
    if k == 0 {
        lemma_run_prefix(truth, env, a + b, a, a.len());
        assert(run_nodes(truth, env, a, a.len()).1 + Seq::<Event>::empty() =~= run_nodes(
            truth,
            env,
            a,
            a.len(),
        ).1);
    } else {
        lemma_run_concat(truth, env, a, b, (k - 1) as nat);
        assert((a + b)[a.len() + k - 1] == b[k - 1]);
        let mid = run_nodes(truth, env, a, a.len());
        let upto = run_nodes(truth, mid.0, b, (k - 1) as nat);
        let last = run_node(truth, upto.0, b[k - 1]);
        assert(mid.1 + (upto.1 + last.1) =~= (mid.1 + upto.1) + last.1);
    }
}

/// The run of the first `k` nodes depends on those nodes alone.
pub proof fn lemma_run_prefix(
    truth: spec_fn(Val) -> bool,
    env: Env,
    a: Seq<NodeT>,
    b: Seq<NodeT>,
    k: nat,
)
    requires
        k <= a.len(),
        k <= b.len(),
        forall|i: int| 0 <= i < k ==> a[i] == b[i],
    ensures
        run_nodes(truth, env, a, k) == run_nodes(truth, env, b, k),
    decreases k,
{
    if k > 0 {
        lemma_run_prefix(truth, env, a, b, (k - 1) as nat);
    }
}

/// The bindings that the outputs `outs` of a selection get from the values
/// `vals`, on their own.
pub open spec fn bindings(outs: Seq<u32>, vals: Seq<Val>) -> Env {
    bind(Map::empty(), outs, vals, pairs(outs, vals))
}

/// Giving values to variables adds the bindings to the environment.
pub proof fn lemma_bind_is_union(env: Env, outs: Seq<u32>, vals: Seq<Val>, k: nat)
    ensures
        bind(env, outs, vals, k) == env.union_prefer_right(bind(Map::empty(), outs, vals, k)),
    decreases k,
{
    if k == 0 || k > outs.len() || k > vals.len() {
        assert(env =~= env.union_prefer_right(Map::<u32, Val>::empty()));
    } else {
        lemma_bind_is_union(env, outs, vals, (k - 1) as nat);
        let before = bind(Map::<u32, Val>::empty(), outs, vals, (k - 1) as nat);
        assert(env.union_prefer_right(before).insert(outs[k - 1], vals[k - 1]) =~= env.union_prefer_right(
            before.insert(outs[k - 1], vals[k - 1]),
        ));
    }
}

/// The first `k` replacements of a case say the same as the first `k`
/// bindings of the outputs to what the case hands out.
pub proof fn lemma_bindings_agree(env: Env, outs: Seq<u32>, handed: Seq<Val>, k: nat)
    requires
        k <= outs.len(),
        k <= handed.len(),
    ensures
        agree(
            env,
            Seq::new(k, |j: int| (outs[j], handed[j])),
            bind(Map::empty(), outs, resolve_all(env, handed), k),
        ),
    decreases k,
{
    let map = Seq::new(k, |j: int| (outs[j], handed[j]));
    let vals = resolve_all(env, handed);
    let bound = bind(Map::<u32, Val>::empty(), outs, vals, k);
    if k == 0 {
        assert forall|x: u32|
            #![trigger replacement(map, x)]
            #![trigger bound.dom().contains(x)]
            match replacement(map, x) {
                Some(r) => bound.dom().contains(x) && bound[x] == resolve(env, r),
                None => !bound.dom().contains(x),
            } by {}
    } else {
        lemma_bindings_agree(env, outs, handed, (k - 1) as nat);
        let shorter = Seq::new((k - 1) as nat, |j: int| (outs[j], handed[j]));
        assert(map.drop_last() =~= shorter);
        assert(map.last() == (outs[k - 1], handed[k - 1]));
        let before = bind(Map::<u32, Val>::empty(), outs, vals, (k - 1) as nat);
        assert(bound == before.insert(outs[k - 1], vals[k - 1]));
        assert forall|x: u32|
            #![trigger replacement(map, x)]
            #![trigger bound.dom().contains(x)]
            match replacement(map, x) {
                Some(r) => bound.dom().contains(x) && bound[x] == resolve(env, r),
                None => !bound.dom().contains(x),
            } by {
            if x == outs[k - 1] {
                assert(replacement(map, x) == Some(handed[k - 1]));
            } else {
                assert(replacement(map, x) == replacement(shorter, x));
                assert(before.dom().contains(x) == bound.dom().contains(x));
            }
        }
    }
}

/// Whether the fusing of the selection `c` into the selection `a` before
/// it keeps to the rules of single assignment, as far as the case `k`
/// goes: no variable is defined twice, and none is used before it is
/// defined. So a run of the case of `a` defines neither the condition nor
/// the outputs of `a`; the outputs of `a` are distinct variables; and a
/// run of the case of `c` defines neither the outputs of `a` nor what the
/// case of `a` hands out.
pub open spec fn single_assignment(a: NodeT, c: NodeT, k: int) -> bool {
    let a_case = a.child_regions[k];
    let c_case = c.child_regions[k];
    let map = case_replacements(a.outputs, a_case);
    &&& forall|d: u32| #[trigger]
        defines_nodes(a_case.children, a_case.children.len(), d) ==> a.inputs[0] != Val::Var(d)
    &&& forall|j: int| 0 <= j < a.outputs.len() ==> a.inputs[0] != Val::Var(#[trigger] a.outputs[j])
    &&& forall|i: int, j: int|
        0 <= i < j < a.outputs.len() ==> #[trigger] a.outputs[i] != #[trigger] a.outputs[j]
    &&& forall|d: u32| #[trigger]
        defines_nodes(c_case.children, c_case.children.len(), d) ==> {
            &&& !a.outputs.contains(d)
            &&& forall|j: int| 0 <= j < a_case.outputs.len() ==> #[trigger] a_case.outputs[j]
                != Val::Var(d)
        }
}

/// Two selections on one condition, run one after the other, do what the
/// one selection does that they are fused into: under any assignment of
/// truth to conditions and from any environment, the steps taken are the
/// same, and so is the environment afterwards. This holds of a pair that
/// can be fused, where both selections have their two cases and the
/// fusing keeps to the rules of single assignment.
pub proof fn lemma_fused_pair_runs_alike(
    truth: spec_fn(Val) -> bool,
    env: Env,
    a: NodeT,
    c: NodeT,
)
    requires
        fusable(a, c),
        a.child_regions.len() >= 2,
        c.child_regions.len() >= 2,
        single_assignment(a, c, 0),
        single_assignment(a, c, 1),
    ensures
        run_nodes(truth, env, seq![absorb(a, c)], 1) == run_nodes(truth, env, seq![a, c], 2),
{
    let pair = seq![a, c];
    let fused = absorb(a, c);
    let k = chosen(truth, env, a);
    let a_case = a.child_regions[k];
    let c_case = c.child_regions[k];
    let map = case_replacements(a.outputs, a_case);
    assert(single_assignment(a, c, k));
    // The run of the pair.
    let first = run_node(truth, env, a);
    let e1 = run_nodes(truth, env, a_case.children, a_case.children.len()).0;
    let t1 = run_nodes(truth, env, a_case.children, a_case.children.len()).1;
    let handed = resolve_all(e1, a_case.outputs);
    let n = pairs(a.outputs, handed);
    let bound = bindings(a.outputs, handed);
    let e2 = first.0;
    assert(e2 == bind(e1, a.outputs, handed, n));
    lemma_bind_is_union(e1, a.outputs, handed, n);
    assert(e2 == e1.union_prefer_right(bound));
    lemma_bindings_agree(e1, a.outputs, a_case.outputs, n);
    assert(map =~= Seq::new(n, |j: int| (a.outputs[j], a_case.outputs[j])));
    assert(agree(e1, map, bound));
    // The condition stands for the same value after the first selection.
    assert(resolve(e2, c.inputs[0]) == resolve(env, a.inputs[0])) by {
        lemma_cond_stays(truth, env, a, c, k);
    }
    assert(chosen(truth, e2, c) == k);
    // The case of the second selection, as it was and after replacement.
    assert(all_clear(c_case.children, c_case.children.len(), map, bound)) by {
        assert forall|d: u32| #[trigger]
            defines_nodes(c_case.children, c_case.children.len(), d) implies clear_of(
            map,
            bound,
            d,
        ) by {
            lemma_bound_dom(a.outputs, handed, n, d);
            assert forall|x: u32| #![trigger replacement(map, x)] replacement(map, x) != Some(
                Val::Var(d),
            ) by {
                lemma_replacement_is_entry(map, x);
            }
        }
    }
    lemma_subst_run_nodes(truth, e1, map, bound, c_case.children, c_case.children.len());
    let moved = subst_nodes(map, c_case.children);
    let e3 = run_nodes(truth, e1, moved, moved.len()).0;
    let t2 = run_nodes(truth, e1, moved, moved.len()).1;
    let second = run_node(truth, e2, c);
    assert(second.1 == t2);
    assert(second.0 == e3.union_prefer_right(bound)) by {
        assert(pairs(c.outputs, resolve_all(e3.union_prefer_right(bound), c_case.outputs)) == 0);
    }
    // The run of the fused selection.
    assert(runs_as_select(fused));
    assert(chosen(truth, env, fused) == k);
    let f_case = fused.child_regions[k];
    assert(f_case.children == a_case.children + moved);
    assert(f_case.outputs == a_case.outputs);
    lemma_run_concat(truth, env, a_case.children, moved, moved.len());
    assert(run_nodes(truth, env, f_case.children, f_case.children.len()).0 == e3);
    assert(run_nodes(truth, env, f_case.children, f_case.children.len()).1 == t1 + t2);
    let handed_late = resolve_all(e3, a_case.outputs);
    assert(handed_late =~= handed) by {
        assert forall|j: int| 0 <= j < a_case.outputs.len() implies resolve(
            e3,
            a_case.outputs[j],
        ) == resolve(e1, a_case.outputs[j]) by {
            assert forall|d: u32| #[trigger] defines_nodes(moved, moved.len(), d) implies a_case.outputs[j]
                != Val::Var(d) by {
                lemma_subst_defines(map, c_case.children, c_case.children.len(), d);
            }
            lemma_run_keeps(truth, e1, moved, moved.len(), a_case.outputs[j]);
        }
    }
    lemma_bind_is_union(e3, a.outputs, handed, n);
    let whole = run_node(truth, env, fused);
    assert(whole.0 == e3.union_prefer_right(bound));
    assert(whole.1 == t1 + t2);
    // Both runs, as runs of lists.
    assert(run_nodes(truth, env, seq![fused], 0) == (env, Seq::<Event>::empty()));
    assert(run_nodes(truth, env, seq![fused], 1).1 =~= t1 + t2);
    assert(run_nodes(truth, env, pair, 0) == (env, Seq::<Event>::empty()));
    assert(run_nodes(truth, env, pair, 1).0 == e2);
    assert(run_nodes(truth, env, pair, 1).1 =~= t1);
    assert(pair[1] == c);
    assert(run_nodes(truth, env, pair, 2).1 =~= t1 + t2);
}

/// The condition of the second selection stands for the same value after
/// the first selection has run.
pub proof fn lemma_cond_stays(truth: spec_fn(Val) -> bool, env: Env, a: NodeT, c: NodeT, k: int)
    requires
        fusable(a, c),
        a.child_regions.len() >= 2,
        k == chosen(truth, env, a),
        single_assignment(a, c, k),
    ensures
        resolve(run_node(truth, env, a).0, c.inputs[0]) == resolve(env, a.inputs[0]),
{
    let a_case = a.child_regions[k];
    let e1 = run_nodes(truth, env, a_case.children, a_case.children.len()).0;
    lemma_run_keeps(truth, env, a_case.children, a_case.children.len(), a.inputs[0]);
    let handed = resolve_all(e1, a_case.outputs);
    lemma_bind_keeps(e1, a.outputs, handed, pairs(a.outputs, handed), a.inputs[0]);
}

/// Giving values to variables leaves the value alone that any other
/// variable stands for.
pub proof fn lemma_bind_keeps(env: Env, outs: Seq<u32>, vals: Seq<Val>, k: nat, v: Val)
    requires
        forall|j: int| 0 <= j < outs.len() ==> v != Val::Var(#[trigger] outs[j]),
    ensures
        resolve(bind(env, outs, vals, k), v) == resolve(env, v),
    decreases k,
{
    if !(k == 0 || k > outs.len() || k > vals.len()) {
        lemma_bind_keeps(env, outs, vals, (k - 1) as nat, v);
        assert(v != Val::Var(outs[k - 1]));
    }
}

/// A run leaves the value alone that a variable stands for which it
/// cannot define.
pub proof fn lemma_run_keeps(
    truth: spec_fn(Val) -> bool,
    env: Env,
    s: Seq<NodeT>,
    k: nat,
    v: Val,
)
    requires
        k <= s.len(),
        forall|d: u32| #[trigger] defines_nodes(s, k, d) ==> v != Val::Var(d),
    ensures
        resolve(run_nodes(truth, env, s, k).0, v) == resolve(env, v),
    decreases s, k,
{
    if k > 0 {
        assert forall|d: u32| #[trigger] defines_nodes(s, (k - 1) as nat, d) implies v != Val::Var(
            d,
        ) by {
            assert(defines_nodes(s, k, d));
        }
        lemma_run_keeps(truth, env, s, (k - 1) as nat, v);
        let e1 = run_nodes(truth, env, s, (k - 1) as nat).0;
        let n = s[k - 1];
        assert(run_nodes(truth, env, s, k).0 == run_node(truth, e1, n).0);
        if runs_as_select(n) {
            let c = chosen(truth, e1, n);
            let case = n.child_regions[c];
            assert forall|d: u32| #[trigger]
                defines_nodes(case.children, case.children.len(), d) implies v != Val::Var(d) by {
                assert(defines_node(n, d));
                assert(defines_nodes(s, k, d));
            }
            lemma_run_keeps(truth, e1, case.children, case.children.len(), v);
            let e2 = run_nodes(truth, e1, case.children, case.children.len()).0;
            let vals = resolve_all(e2, case.outputs);
            assert forall|j: int| 0 <= j < n.outputs.len() implies v != Val::Var(
                #[trigger] n.outputs[j],
            ) by {
                assert(n.outputs.contains(n.outputs[j]));
                assert(defines_node(n, n.outputs[j]));
                assert(defines_nodes(s, k, n.outputs[j]));
            }
            lemma_bind_keeps(e2, n.outputs, vals, pairs(n.outputs, vals), v);
            assert(run_node(truth, e1, n).0 == bind(e2, n.outputs, vals, pairs(n.outputs, vals)));
        } else {
            assert(run_node(truth, e1, n).0 == e1);
        }
    }
}

/// The bindings of outputs bind outputs only.
pub proof fn lemma_bound_dom(outs: Seq<u32>, vals: Seq<Val>, k: nat, d: u32)
    ensures
        bind(Map::empty(), outs, vals, k).dom().contains(d) ==> outs.contains(d),
    decreases k,
{
    if !(k == 0 || k > outs.len() || k > vals.len()) {
        lemma_bound_dom(outs, vals, (k - 1) as nat, d);
        if d == outs[k - 1] {
            assert(outs.contains(d));
        }
    }
}

/// What a list of replacements gives for a variable is the value of one of
/// its entries.
pub proof fn lemma_replacement_is_entry(map: Seq<(u32, Val)>, x: u32)
    ensures
        replacement(map, x) matches Some(r) ==> exists|j: int|
            0 <= j < map.len() && (#[trigger] map[j]).1 == r,
    decreases map.len(),
{
    if map.len() > 0 {
        if map.last().0 == x {
            assert(map[map.len() - 1].1 == map.last().1);
        } else {
            lemma_replacement_is_entry(map.drop_last(), x);
            match replacement(map.drop_last(), x) {
                Some(r) => {
                    let j = choose|j: int|
                        0 <= j < map.drop_last().len() && (#[trigger] map.drop_last()[j]).1 == r;
                    assert(map[j].1 == r);
                },
                None => {},
            }
        }
    }
}

/// Nodes after replacement can define what they could define before.
pub proof fn lemma_subst_defines(map: Seq<(u32, Val)>, s: Seq<NodeT>, k: nat, d: u32)
    requires
        k <= s.len(),
    ensures
        defines_nodes(subst_nodes(map, s), k, d) == defines_nodes(s, k, d),
    decreases s, k,
{
    if k > 0 {
        lemma_subst_defines(map, s, (k - 1) as nat, d);
        lemma_subst_defines_node(map, s[k - 1], d);
        assert(subst_nodes(map, s)[k - 1] == subst_node(map, s[k - 1]));
    }
}

/// A node after replacement can define what it could define before.
pub proof fn lemma_subst_defines_node(map: Seq<(u32, Val)>, n: NodeT, d: u32)
    ensures
        defines_node(subst_node(map, n), d) == defines_node(n, d),
    decreases n,
{
    let m = subst_node(map, n);
    if runs_as_select(n) {
        assert(runs_as_select(m));
        assert(m.child_regions[0].children =~= subst_nodes(map, n.child_regions[0].children));
        assert(m.child_regions[1].children =~= subst_nodes(map, n.child_regions[1].children));
        lemma_subst_defines(
            map,
            n.child_regions[0].children,
            n.child_regions[0].children.len(),
            d,
        );
        lemma_subst_defines(
            map,
            n.child_regions[1].children,
            n.child_regions[1].children.len(),
            d,
        );
    } else {
        assert(!runs_as_select(m));
    }
}

/// The run of a whole list of nodes.
pub open spec fn run_all(truth: spec_fn(Val) -> bool, env: Env, s: Seq<NodeT>) -> (Env, Seq<Event>) {
    run_nodes(truth, env, s, s.len())
}

/// Whether every fusing into the node `base` of the nodes that follow it
/// in `rest` keeps to the rules of single assignment, at the moment at
/// which it is made, and is a fusing of selections with two cases.
pub open spec fn fusings_keep_rules(base: NodeT, rest: Seq<NodeT>) -> bool
    decreases rest.len(),
{
    if rest.len() > 0 && fusable(base, rest[0]) {
        &&& base.child_regions.len() >= 2
        &&& rest[0].child_regions.len() >= 2
        &&& single_assignment(base, rest[0], 0)
        &&& single_assignment(base, rest[0], 1)
        &&& fusings_keep_rules(absorb(base, rest[0]), rest.drop_first())
    } else {
        true
    }
}

/// Whether every fusing that the pass makes among the nodes of one region
/// keeps to the rules.
pub open spec fn level_keeps_rules(nodes: Seq<NodeT>) -> bool
    decreases nodes.len(),
{
    if nodes.len() == 0 {
        true
    } else {
        let rest = absorb_run(nodes[0], nodes.drop_first()).1;
        fusings_keep_rules(nodes[0], nodes.drop_first()) && (rest.len() < nodes.len()
            ==> level_keeps_rules(rest))
    }
}

/// Whether every fusing that the pass makes in the region, down to `depth`
/// levels, keeps to the rules.
pub open spec fn pass_keeps_rules(depth: nat, r: RegionT) -> bool
    decreases depth, 0nat,
{
    depth == 0 || {
        let fused = fuse_list(r.children);
        level_keeps_rules(r.children) && forall|i: int|
            0 <= i < fused.len() ==> node_keeps_rules((depth - 1) as nat, #[trigger] fused[i])
    }
}

/// Whether every fusing that the pass makes inside the node keeps to the
/// rules.
pub open spec fn node_keeps_rules(depth: nat, n: NodeT) -> bool
    decreases depth, 1nat,
{
    runs_as_select(n) ==> pass_keeps_rules(depth, n.child_regions[0]) && pass_keeps_rules(
        depth,
        n.child_regions[1],
    )
}

/// A run of one node and then a list is the run of the list with the node
/// in front.
pub proof fn lemma_run_cons(truth: spec_fn(Val) -> bool, env: Env, n: NodeT, rest: Seq<NodeT>)
    ensures
        run_all(truth, env, seq![n] + rest).0 == run_all(
            truth,
            run_node(truth, env, n).0,
            rest,
        ).0,
        run_all(truth, env, seq![n] + rest).1 == run_node(truth, env, n).1 + run_all(
            truth,
            run_node(truth, env, n).0,
            rest,
        ).1,
{
    lemma_run_concat(truth, env, seq![n], rest, rest.len());
    assert(run_nodes(truth, env, seq![n], 0) == (env, Seq::<Event>::empty()));
    assert(run_nodes(truth, env, seq![n], 1).1 =~= run_node(truth, env, n).1);
}

/// A node that takes in the nodes after it, with those that are left, runs
/// as the node and all the nodes after it did.
pub proof fn lemma_absorb_run_runs_alike(
    truth: spec_fn(Val) -> bool,
    env: Env,
    base: NodeT,
    rest: Seq<NodeT>,
)
    requires
        fusings_keep_rules(base, rest),
    ensures
        run_all(truth, env, seq![absorb_run(base, rest).0] + absorb_run(base, rest).1) == run_all(
            truth,
            env,
            seq![base] + rest,
        ),
    decreases rest.len(),
{
    if rest.len() > 0 && fusable(base, rest[0]) {
        let c = rest[0];
        let tail = rest.drop_first();
        let fused = absorb(base, c);
        lemma_absorb_run_runs_alike(truth, env, fused, tail);
        lemma_fused_pair_runs_alike(truth, env, base, c);
        // The fused node and the tail, against the pair and the tail.
        lemma_run_concat(truth, env, seq![fused], tail, tail.len());
        lemma_run_concat(truth, env, seq![base, c], tail, tail.len());
        assert(seq![base, c] + tail =~= seq![base] + rest);
        assert((seq![fused] + tail).len() == 1 + tail.len());
        assert((seq![base] + rest).len() == 2 + tail.len());
    }
}

/// The nodes of one region run after the fusing at their level as they
/// ran before.
pub proof fn lemma_fuse_list_runs_alike(truth: spec_fn(Val) -> bool, env: Env, nodes: Seq<NodeT>)
    requires
        level_keeps_rules(nodes),
    ensures
        run_all(truth, env, fuse_list(nodes)) == run_all(truth, env, nodes),
    decreases nodes.len(),
{
    if nodes.len() > 0 {
        let (base, rest) = absorb_run(nodes[0], nodes.drop_first());
        crate::fuse_laws::lemma_absorb_run(nodes[0], nodes.drop_first());
        lemma_absorb_run_runs_alike(truth, env, nodes[0], nodes.drop_first());
        assert(seq![nodes[0]] + nodes.drop_first() =~= nodes);
        let mid = run_node(truth, env, base).0;
        lemma_fuse_list_runs_alike(truth, mid, rest);
        lemma_run_cons(truth, env, base, rest);
        lemma_run_cons(truth, env, base, fuse_list(rest));
    }
}

/// Two lists of nodes that run alike node by node, from any environment,
/// run alike as lists.
pub proof fn lemma_run_alike_by_node(
    truth: spec_fn(Val) -> bool,
    env: Env,
    a: Seq<NodeT>,
    b: Seq<NodeT>,
    k: nat,
)
    requires
        k <= a.len(),
        k <= b.len(),
        forall|i: int, e: Env|
            0 <= i < k ==> #[trigger] run_node(truth, e, a[i]) == run_node(truth, e, b[i]),
    ensures
        run_nodes(truth, env, a, k) == run_nodes(truth, env, b, k),
    decreases k,
{
    if k > 0 {
        lemma_run_alike_by_node(truth, env, a, b, (k - 1) as nat);
        let e1 = run_nodes(truth, env, a, (k - 1) as nat).0;
        assert(run_node(truth, e1, a[k - 1]) == run_node(truth, e1, b[k - 1]));
    }
}

/// A body runs after the pass as it ran before: under any assignment of
/// truth to conditions and from any environment, the steps taken are the
/// same, with the same values, and so is what the variables stand for
/// afterwards, and what the body hands out. This holds wherever every
/// fusing that the pass makes keeps to the rules of single assignment.
pub proof fn lemma_pass_runs_alike(truth: spec_fn(Val) -> bool, env: Env, depth: nat, r: RegionT)
    requires
        pass_keeps_rules(depth, r),
    ensures
        run_all(truth, env, fuse_region(depth, r).children) == run_all(truth, env, r.children),
        fuse_region(depth, r).outputs == r.outputs,
    decreases depth, 0nat,
{
    if depth > 0 {
        let fused = fuse_list(r.children);
        let inner = (depth - 1) as nat;
        let after = fuse_region(depth, r).children;
        lemma_fuse_list_runs_alike(truth, env, r.children);
        assert forall|i: int, e: Env| 0 <= i < fused.len() implies #[trigger] run_node(
            truth,
            e,
            after[i],
        ) == run_node(truth, e, fused[i]) by {
            assert(node_keeps_rules(inner, fused[i]));
            lemma_node_runs_alike(truth, e, inner, fused[i]);
        }
        lemma_run_alike_by_node(truth, env, after, fused, fused.len());
    }
}

/// A node runs after the pass was run on the regions inside it as it ran
/// before.
pub proof fn lemma_node_runs_alike(truth: spec_fn(Val) -> bool, env: Env, depth: nat, n: NodeT)
    requires
        node_keeps_rules(depth, n),
    ensures
        run_node(truth, env, fuse_node(depth, n)) == run_node(truth, env, n),
    decreases depth, 1nat,
{
    let m = fuse_node(depth, n);
    if runs_as_select(n) {
        assert(runs_as_select(m));
        let c = chosen(truth, env, n);
        assert(c == chosen(truth, env, m));
        lemma_pass_runs_alike(truth, env, depth, n.child_regions[c]);
        assert(m.child_regions[c] == fuse_region(depth, n.child_regions[c]));
    } else {
        assert(!runs_as_select(m));
    }
}

} // verus!
