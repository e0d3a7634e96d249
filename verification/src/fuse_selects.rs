//! A pass over structured control flow: consecutive selections on the same
//! condition are fused into one, where the later one has no outputs.

use vstd::prelude::*;
use crate::removal::{
    ascending, buffer_at, buffer_len, buffer_new, buffer_push, kept, lemma_kept_run,
    lemma_next_mark, noted,
};

verus! {

/// A value: a constant, or the variable that a node or a region defines.
#[derive(Clone, Copy, Debug, PartialEq, Eq, Structural)]
pub enum Val {
    Const(u32),
    Var(u32),
}

/// What a selection selects by.
#[derive(Clone, Copy, Debug, PartialEq, Eq, Structural)]
pub enum SelectionKind {
    /// By a boolean: the first case where it holds, the second where not.
    BoolCond,
    /// By an integer, among any number of cases.
    Switch,
}

/// What a node does.
#[derive(Clone, Copy, Debug, PartialEq, Eq, Structural)]
pub enum NodeKind {
    /// It runs one of its child regions.
    Select(SelectionKind),
    /// Anything else, by a number that stands for the operation.
    Op(u32),
}

/// A node of a function's body.
#[derive(Debug, PartialEq, Eq)]
pub struct Node {
    pub kind: NodeKind,
    /// The values that the node reads; the first one of a selection is
    /// what it selects by.
    pub inputs: Vec<Val>,
    /// The variables that the node defines.
    pub outputs: Vec<u32>,
    /// The regions inside the node: the cases of a selection.
    pub child_regions: Vec<Region>,
}

/// A region: nodes that run in order, and the values that it hands out.
#[derive(Debug, PartialEq, Eq)]
pub struct Region {
    pub children: Vec<Node>,
    pub outputs: Vec<Val>,
}

/// The body of a function.
#[derive(Debug, PartialEq, Eq)]
pub struct FuncDefBody {
    pub body: Region,
}

/// The mathematical content of a [`Node`].
pub struct NodeT {
    pub kind: NodeKind,
    pub inputs: Seq<Val>,
    pub outputs: Seq<u32>,
    pub child_regions: Seq<RegionT>,
}

/// The mathematical content of a [`Region`].
pub struct RegionT {
    pub children: Seq<NodeT>,
    pub outputs: Seq<Val>,
}

/// The content of a region.
pub open spec fn region_view(r: Region) -> RegionT
    decreases r,
{
    RegionT {
        children: Seq::new(
            r.children@.len(),
            |i: int|
                if 0 <= i < r.children@.len() {
                    node_view(r.children@[i])
                } else {
                    arbitrary()
                },
        ),
        outputs: r.outputs@,
    }
}

/// The content of a node.
pub open spec fn node_view(n: Node) -> NodeT
    decreases n,
{
    NodeT {
        kind: n.kind,
        inputs: n.inputs@,
        outputs: n.outputs@,
        child_regions: Seq::new(
            n.child_regions@.len(),
            |i: int|
                if 0 <= i < n.child_regions@.len() {
                    region_view(n.child_regions@[i])
                } else {
                    arbitrary()
                },
        ),
    }
}

/// The contents of a list of nodes.
pub open spec fn nodes_view(s: Seq<Node>) -> Seq<NodeT> {
    Seq::new(s.len(), |i: int| node_view(s[i]))
}

impl View for Region {
    type V = RegionT;

    open spec fn view(&self) -> RegionT {
        region_view(*self)
    }
}

impl View for Node {
    type V = NodeT;

    open spec fn view(&self) -> NodeT {
        node_view(*self)
    }
}

impl View for FuncDefBody {
    type V = RegionT;

    open spec fn view(&self) -> RegionT {
        region_view(self.body)
    }
}

/// The value that `map` gives for the variable `var`: that of the last
/// entry for it.
pub open spec fn replacement(map: Seq<(u32, Val)>, var: u32) -> Option<Val>
    decreases map.len(),
{
    if map.len() == 0 {
        None
    } else if map.last().0 == var {
        Some(map.last().1)
    } else {
        replacement(map.drop_last(), var)
    }
}

/// The value `v` after the replacements of `map`: a variable that the map
/// knows is replaced, a constant never.
pub open spec fn replace(map: Seq<(u32, Val)>, v: Val) -> Val {
    match v {
        Val::Const(_) => v,
        Val::Var(x) => match replacement(map, x) {
            Some(r) => r,
            None => v,
        },
    }
}

/// The values `vs`, each after the replacements of `map`.
pub open spec fn replace_all(map: Seq<(u32, Val)>, vs: Seq<Val>) -> Seq<Val> {
    Seq::new(vs.len(), |i: int| replace(map, vs[i]))
}

/// The region after the replacements of `map`, in all of its depth.
pub open spec fn subst_region(map: Seq<(u32, Val)>, r: RegionT) -> RegionT
    decreases r,
{
    RegionT {
        children: Seq::new(
            r.children.len(),
            |i: int|
                if 0 <= i < r.children.len() {
                    subst_node(map, r.children[i])
                } else {
                    arbitrary()
                },
        ),
        outputs: replace_all(map, r.outputs),
    }
}

/// The node after the replacements of `map`, in all of its depth.
pub open spec fn subst_node(map: Seq<(u32, Val)>, n: NodeT) -> NodeT
    decreases n,
{
    NodeT {
        kind: n.kind,
        inputs: replace_all(map, n.inputs),
        outputs: n.outputs,
        child_regions: Seq::new(
            n.child_regions.len(),
            |i: int|
                if 0 <= i < n.child_regions.len() {
                    subst_region(map, n.child_regions[i])
                } else {
                    arbitrary()
                },
        ),
    }
}

/// The nodes after the replacements of `map`.
pub open spec fn subst_nodes(map: Seq<(u32, Val)>, s: Seq<NodeT>) -> Seq<NodeT> {
    Seq::new(s.len(), |i: int| subst_node(map, s[i]))
}

/// Whether the node is a selection by a boolean, with its condition.
pub open spec fn is_bool_select(n: NodeT) -> bool {
    n.kind == NodeKind::Select(SelectionKind::BoolCond) && n.inputs.len() >= 1
}

/// Whether the node `next` can be fused into the node `base` before it:
/// both are selections by a boolean, on the same condition, and `next`
/// has no outputs.
pub open spec fn fusable(base: NodeT, next: NodeT) -> bool {
    &&& is_bool_select(base)
    &&& is_bool_select(next)
    &&& next.inputs[0] == base.inputs[0]
    &&& next.outputs.len() == 0
}

/// The replacements that hold in the case `r` of a selection with the
/// outputs `outputs`: each output of the selection is the output of the
/// case at the same position.
pub open spec fn case_replacements(outputs: Seq<u32>, r: RegionT) -> Seq<(u32, Val)> {
    Seq::new(
        if outputs.len() <= r.outputs.len() {
            outputs.len()
        } else {
            r.outputs.len()
        },
        |j: int| (outputs[j], r.outputs[j]),
    )
}

/// The case `base` of a selection with the outputs `outputs`, with the
/// nodes of the case `next` of a later selection after its own. In the
/// nodes that move, each output of the selection is replaced by what it
/// stands for in this case.
pub open spec fn fuse_case(outputs: Seq<u32>, base: RegionT, next: RegionT) -> RegionT {
    RegionT {
        children: base.children + subst_nodes(case_replacements(outputs, base), next.children),
        outputs: base.outputs,
    }
}

/// The selection `base` with the cases of the selection `next` fused into
/// its own, case by case.
pub open spec fn absorb(base: NodeT, next: NodeT) -> NodeT {
    NodeT {
        child_regions: Seq::new(
            base.child_regions.len(),
            |i: int|
                if 0 <= i < next.child_regions.len() {
                    fuse_case(base.outputs, base.child_regions[i], next.child_regions[i])
                } else {
                    base.child_regions[i]
                },
        ),
        ..base
    }
}

/// The node `base` with every node fused into it that follows it in
/// `rest` and can be, and the nodes that are left.
pub open spec fn absorb_run(base: NodeT, rest: Seq<NodeT>) -> (NodeT, Seq<NodeT>)
    decreases rest.len(),
{
    if rest.len() > 0 && fusable(base, rest[0]) {
        absorb_run(absorb(base, rest[0]), rest.drop_first())
    } else {
        (base, rest)
    }
}

/// The nodes of one region after the fusing at their level: from left to
/// right, each node takes in the fusable nodes that follow it.
pub open spec fn fuse_list(nodes: Seq<NodeT>) -> Seq<NodeT>
    decreases nodes.len(),
{
    if nodes.len() == 0 {
        Seq::empty()
    } else {
        let (base, rest) = absorb_run(nodes[0], nodes.drop_first());
        if rest.len() < nodes.len() {
            seq![base] + fuse_list(rest)
        } else {
            seq![base]
        }
    }
}

/// The region after the pass, down to `depth` levels of regions: its own
/// nodes are fused first, then the regions inside them are seen to.
pub open spec fn fuse_region(depth: nat, r: RegionT) -> RegionT
    decreases depth, 0nat,
{
    if depth == 0 {
        r
    } else {
        let fused = fuse_list(r.children);
        RegionT {
            children: Seq::new(fused.len(), |i: int| fuse_node((depth - 1) as nat, fused[i])),
            outputs: r.outputs,
        }
    }
}

/// The node after the pass was run on the regions inside it.
pub open spec fn fuse_node(depth: nat, n: NodeT) -> NodeT
    decreases depth, 1nat,
{
    NodeT {
        child_regions: Seq::new(
            n.child_regions.len(),
            |i: int| fuse_region(depth, n.child_regions[i]),
        ),
        ..n
    }
}

/// How many levels of regions the pass goes down: more than a function
/// that fits in memory has.
pub open spec fn depth_limit() -> nat {
    usize::MAX as nat
}

/// Looks up the replacement of a variable.
fn find_replacement(map: &Vec<(u32, Val)>, var: u32) -> (r: Option<Val>)
    ensures
        r == replacement(map@, var),
{
    let mut i: usize = map.len();
    assert(map@.subrange(0, i as int) =~= map@);
    while i > 0
        invariant
            i <= map.len(),
            replacement(map@, var) == replacement(map@.subrange(0, i as int), var),
        decreases i,
    {
        let ghost s = map@.subrange(0, i as int);
        assert(s.last() == map@[i - 1]);
        if map[i - 1].0 == var {
            return Some(map[i - 1].1);
        }
        assert(s.drop_last() =~= map@.subrange(0, i - 1));
        i -= 1;
    }
    None
}

/// Replaces the values of `vals` by what `map` gives for them.
fn replace_values(map: &Vec<(u32, Val)>, vals: &mut Vec<Val>)
    ensures
        final(vals)@ == replace_all(map@, old(vals)@),
{
    let mut i: usize = 0;
    while i < vals.len()
        invariant
            i <= vals.len(),
            vals.len() == old(vals).len(),
            forall|k: int| 0 <= k < i ==> vals@[k] == replace(map@, old(vals)@[k]),
            forall|k: int| i <= k < vals.len() ==> vals@[k] == old(vals)@[k],
        decreases vals.len() - i,
    {
        let v = match vals[i] {
            Val::Const(c) => Val::Const(c),
            Val::Var(x) => match find_replacement(map, x) {
                Some(r) => r,
                None => Val::Var(x),
            },
        };
        vals.set(i, v);
        i += 1;
    }
    assert(vals@ =~= replace_all(map@, old(vals)@));
}

/// Replaces the values in the region, in all of its depth.
fn substitute_region(map: &Vec<(u32, Val)>, r: &mut Region)
    ensures
        region_view(*final(r)) == subst_region(map@, region_view(*old(r))),
    decreases *old(r),
{
    substitute_nodes(map, &mut r.children);
    replace_values(map, &mut r.outputs);
    proof {
        let want = subst_region(map@, region_view(*old(r))).children;
        assert forall|i: int| 0 <= i < r.children@.len() implies #[trigger] region_view(
            *r,
        ).children[i] == want[i] by {
            assert(nodes_view(r.children@)[i] == node_view(r.children@[i]));
            assert(subst_nodes(map@, nodes_view(old(r).children@))[i] == subst_node(
                map@,
                node_view(old(r).children@[i]),
            ));
        }
        assert(region_view(*r).children =~= want);
    }
}

/// Replaces the values in the nodes, in all of their depth.
fn substitute_nodes(map: &Vec<(u32, Val)>, nodes: &mut Vec<Node>)
    ensures
        nodes_view(final(nodes)@) == subst_nodes(map@, nodes_view(old(nodes)@)),
        final(nodes).len() == old(nodes).len(),
    decreases *old(nodes),
{
    let mut i: usize = 0;
    while i < nodes.len()
        invariant
            i <= nodes.len(),
            nodes.len() == old(nodes).len(),
            forall|k: int|
                0 <= k < i ==> node_view(nodes@[k]) == subst_node(map@, node_view(old(nodes)@[k])),
            forall|k: int| i <= k < nodes.len() ==> nodes@[k] == old(nodes)@[k],
        decreases nodes.len() - i,
    {
        substitute_node(map, &mut nodes[i]);
        i += 1;
    }
    assert(nodes_view(nodes@) =~= subst_nodes(map@, nodes_view(old(nodes)@)));
}

/// Replaces the values in the node, in all of its depth.
fn substitute_node(map: &Vec<(u32, Val)>, n: &mut Node)
    ensures
        node_view(*final(n)) == subst_node(map@, node_view(*old(n))),
    decreases *old(n),
{
    replace_values(map, &mut n.inputs);
    let mut i: usize = 0;
    while i < n.child_regions.len()
        invariant
            i <= n.child_regions.len(),
            n.child_regions.len() == old(n).child_regions.len(),
            n.kind == old(n).kind,
            n.outputs == old(n).outputs,
            n.inputs@ == replace_all(map@, old(n).inputs@),
            forall|k: int|
                0 <= k < i ==> region_view(n.child_regions@[k]) == subst_region(
                    map@,
                    region_view(old(n).child_regions@[k]),
                ),
            forall|k: int|
                i <= k < n.child_regions.len() ==> n.child_regions@[k] == old(n).child_regions@[k],
        decreases n.child_regions.len() - i,
    {
        substitute_region(map, &mut n.child_regions[i]);
        i += 1;
    }
    assert(node_view(*n).child_regions =~= subst_node(map@, node_view(*old(n))).child_regions);
}

/// Tells whether the node is a selection by a boolean, with its condition.
fn bool_select(n: &Node) -> (r: bool)
    ensures
        r == is_bool_select(node_view(*n)),
{
    match n.kind {
        NodeKind::Select(SelectionKind::BoolCond) => n.inputs.len() >= 1,
        _ => false,
    }
}

/// Tells whether the node `next` can be fused into the node `base`.
fn can_fuse(base: &Node, next: &Node) -> (r: bool)
    ensures
        r == fusable(node_view(*base), node_view(*next)),
{
    bool_select(base) && bool_select(next) && next.inputs[0] == base.inputs[0]
        && next.outputs.len() == 0
}

/// The replacements that hold in the case `r` of a selection with the
/// outputs `outputs`.
fn replacements_of(outputs: &Vec<u32>, r: &Region) -> (map: Vec<(u32, Val)>)
    ensures
        map@ == case_replacements(outputs@, region_view(*r)),
{
    let n = if outputs.len() <= r.outputs.len() {
        outputs.len()
    } else {
        r.outputs.len()
    };
    let mut map: Vec<(u32, Val)> = Vec::new();
    let mut j: usize = 0;
    while j < n
        invariant
            j <= n,
            n <= outputs.len(),
            n <= r.outputs.len(),
            map.len() == j,
            forall|k: int| 0 <= k < j ==> map@[k] == (outputs@[k], r.outputs@[k]),
        decreases n - j,
    {
        map.push((outputs[j], r.outputs[j]));
        j += 1;
    }
    assert(map@ =~= case_replacements(outputs@, region_view(*r)));
    map
}

/// Fuses the cases of the selection `next` into those of `base`.
fn absorb_node(base: &mut Node, next: Node)
    ensures
        node_view(*final(base)) == absorb(node_view(*old(base)), node_view(next)),
{
    let mut next = next;
    let ghost nv = node_view(next);
    let ghost bv = node_view(*base);
    let mut i: usize = 0;
    while i < base.child_regions.len() && i < next.child_regions.len()
        invariant
            i <= base.child_regions.len(),
            i <= next.child_regions.len(),
            base.child_regions.len() == old(base).child_regions.len(),
            next.child_regions.len() == nv.child_regions.len(),
            base.kind == old(base).kind,
            base.inputs == old(base).inputs,
            base.outputs == old(base).outputs,
            bv == node_view(*old(base)),
            forall|k: int|
                0 <= k < i ==> region_view(base.child_regions@[k]) == fuse_case(
                    bv.outputs,
                    bv.child_regions[k],
                    nv.child_regions[k],
                ),
            forall|k: int|
                i <= k < base.child_regions.len() ==> base.child_regions@[k] == old(
                    base,
                ).child_regions@[k],
            forall|k: int|
                i <= k < next.child_regions.len() ==> region_view(next.child_regions@[k])
                    == nv.child_regions[k],
        decreases base.child_regions.len() - i,
    {
        let map = replacements_of(&base.outputs, &base.child_regions[i]);
        let mut moved: Vec<Node> = Vec::new();
        let ghost before_next = region_view(next.child_regions@[i as int]);
        let ghost before_base = region_view(base.child_regions@[i as int]);
        assert(before_base == bv.child_regions[i as int]);
        std::mem::swap(&mut moved, &mut next.child_regions[i].children);
        assert(nodes_view(moved@) =~= before_next.children);
        substitute_nodes(&map, &mut moved);
        let ghost moved_view = nodes_view(moved@);
        base.child_regions[i].children.append(&mut moved);
        assert(region_view(base.child_regions@[i as int]).children =~= before_base.children
            + moved_view);
        i += 1;
    }
    assert(node_view(*base).child_regions =~= absorb(bv, nv).child_regions);
}

/// Takes the node at the position `at` out of the list, and leaves a node
/// without content in its place.
fn take_node(children: &mut Vec<Node>, at: usize) -> (r: Node)
    requires
        at < old(children).len(),
    ensures
        r == old(children)@[at as int],
        final(children).len() == old(children).len(),
        forall|k: int|
            0 <= k < old(children).len() && k != at ==> final(children)@[k] == old(children)@[k],
{
    let mut taken = Node {
        kind: NodeKind::Op(0),
        inputs: Vec::new(),
        outputs: Vec::new(),
        child_regions: Vec::new(),
    };
    std::mem::swap(&mut taken, &mut children[at]);
    taken
}

/// Fuses the nodes of one region at their level. Each node takes in the
/// fusable nodes right after it, whose positions are noted; when the list
/// has been walked, the nodes at the positions noted are removed.
fn fuse_children(children: Vec<Node>) -> (r: Vec<Node>)
    ensures
        nodes_view(r@) == fuse_list(nodes_view(children@)),
{
    let mut children = children;
    let ghost orig = nodes_view(children@);
    let n = children.len();
    let mut nodes_to_remove = buffer_new();
    let mut i: usize = 0;
    assert(orig.subrange(0, n as int) =~= orig);
    assert(kept(orig, noted(nodes_to_remove), 0) + fuse_list(orig) =~= fuse_list(orig));
    while i < n
        invariant
            i <= n,
            children.len() == n,
            orig.len() == n,
            forall|k: int| i <= k < n ==> node_view(children@[k]) == orig[k],
            ascending(noted(nodes_to_remove), i as int),
            fuse_list(orig) == kept(nodes_view(children@), noted(nodes_to_remove), i as nat)
                + fuse_list(orig.subrange(i as int, n as int)),
        decreases n - i,
    {
        let ghost before = nodes_view(children@);
        let ghost marks_before = noted(nodes_to_remove);
        let ghost rest = orig.subrange(i as int, n as int);
        assert(rest[0] == orig[i as int]);
        assert(rest.drop_first() =~= orig.subrange(i + 1, n as int));
        let mut base = take_node(&mut children, i);
        let mut j: usize = i + 1;
        while j < n && can_fuse(&base, &children[j])
            invariant
                i < j <= n,
                children.len() == n,
                orig.len() == n,
                before.len() == n,
                forall|k: int| j <= k < n ==> node_view(children@[k]) == orig[k],
                forall|k: int| 0 <= k < i ==> node_view(children@[k]) == before[k],
                absorb_run(orig[i as int], orig.subrange(i + 1, n as int)) == absorb_run(
                    node_view(base),
                    orig.subrange(j as int, n as int),
                ),
                noted(nodes_to_remove).len() == marks_before.len() + (j - i - 1),
                forall|t: int|
                    0 <= t < marks_before.len() ==> noted(nodes_to_remove)[t] == marks_before[t],
                forall|t: int|
                    marks_before.len() <= t < noted(nodes_to_remove).len() ==> noted(
                        nodes_to_remove,
                    )[t] == i + 1 + (t - marks_before.len()),
            decreases n - j,
        {
            let ghost tail = orig.subrange(j as int, n as int);
            assert(tail[0] == orig[j as int]);
            assert(tail.drop_first() =~= orig.subrange(j + 1, n as int));
            let next = take_node(&mut children, j);
            absorb_node(&mut base, next);
            buffer_push(&mut nodes_to_remove, j);
            j += 1;
        }
        let ghost fused = node_view(base);
        let ghost tail = orig.subrange(j as int, n as int);
        proof {
            if j < n {
                assert(tail[0] == orig[j as int]);
            }
            assert(absorb_run(fused, tail) == (fused, tail));
            assert(fuse_list(rest) =~= seq![fused] + fuse_list(tail));
        }
        children.set(i, base);
        proof {
            let after = nodes_view(children@);
            assert(after[i as int] == fused);
            lemma_kept_run(before, marks_before, after, noted(nodes_to_remove), i as nat, j as nat);
            assert(kept(before, marks_before, i as nat) + (seq![fused] + fuse_list(tail)) =~= kept(
                before,
                marks_before,
                i as nat,
            ).push(fused) + fuse_list(tail));
        }
        i = j;
    }
    let ghost fused = nodes_view(children@);
    let ghost marks = noted(nodes_to_remove);
    assert(fuse_list(orig.subrange(n as int, n as int)) =~= Seq::<NodeT>::empty());
    assert(kept(fused, marks, n as nat) + Seq::<NodeT>::empty() =~= kept(fused, marks, n as nat));
    let count = buffer_len(&nodes_to_remove);
    let mut out: Vec<Node> = Vec::new();
    let mut seen: usize = 0;
    let mut at: usize = 0;
    while at < n
        invariant
            at <= n,
            children.len() == n,
            fused.len() == n,
            marks == noted(nodes_to_remove),
            count == marks.len(),
            seen <= count,
            ascending(marks, n as int),
            forall|t: int| 0 <= t < seen ==> marks[t] < at,
            forall|t: int| seen <= t < count ==> marks[t] >= at,
            forall|k: int| at <= k < n ==> node_view(children@[k]) == fused[k],
            nodes_view(out@) == kept(fused, marks, at as nat),
        decreases n - at,
    {
        proof {
            lemma_next_mark(marks, seen as int, at as int);
        }
        if seen < count && buffer_at(&nodes_to_remove, seen) == at {
            seen += 1;
        } else {
            let ghost so_far = nodes_view(out@);
            let node = take_node(&mut children, at);
            out.push(node);
            assert(nodes_view(out@) =~= so_far.push(fused[at as int]));
        }
        at += 1;
    }
    out
}

/// Runs the pass on a region, down to `depth` levels.
fn fuse_in_region(depth: usize, r: &mut Region)
    ensures
        region_view(*final(r)) == fuse_region(depth as nat, region_view(*old(r))),
    decreases depth, 0nat,
{
    if depth == 0 {
        return ;
    }
    let mut children: Vec<Node> = Vec::new();
    std::mem::swap(&mut children, &mut r.children);
    assert(nodes_view(children@) =~= region_view(*old(r)).children);
    let mut fused = fuse_children(children);
    let ghost fv = nodes_view(fused@);
    let mut i: usize = 0;
    while i < fused.len()
        invariant
            i <= fused.len(),
            fused.len() == fv.len(),
            depth > 0,
            forall|k: int|
                0 <= k < i ==> node_view(fused@[k]) == fuse_node((depth - 1) as nat, fv[k]),
            forall|k: int| i <= k < fused.len() ==> node_view(fused@[k]) == fv[k],
        decreases fused.len() - i,
    {
        fuse_in_node(depth - 1, &mut fused[i]);
        i += 1;
    }
    r.children = fused;
    assert(region_view(*r).children =~= fuse_region(
        depth as nat,
        region_view(*old(r)),
    ).children);
}

/// Runs the pass on the regions inside a node.
fn fuse_in_node(depth: usize, n: &mut Node)
    ensures
        node_view(*final(n)) == fuse_node(depth as nat, node_view(*old(n))),
    decreases depth, 1nat,
{
    let ghost nv = node_view(*n);
    let mut i: usize = 0;
    while i < n.child_regions.len()
        invariant
            i <= n.child_regions.len(),
            n.child_regions.len() == old(n).child_regions.len(),
            n.kind == old(n).kind,
            n.inputs == old(n).inputs,
            n.outputs == old(n).outputs,
            nv == node_view(*old(n)),
            forall|k: int|
                0 <= k < i ==> region_view(n.child_regions@[k]) == fuse_region(
                    depth as nat,
                    nv.child_regions[k],
                ),
            forall|k: int|
                i <= k < n.child_regions.len() ==> region_view(n.child_regions@[k])
                    == nv.child_regions[k],
        decreases n.child_regions.len() - i,
    {
        fuse_in_region(depth, &mut n.child_regions[i]);
        i += 1;
    }
    assert(node_view(*n).child_regions =~= fuse_node(depth as nat, nv).child_regions);
}

/// Combines consecutive selections in the body of a function: in every
/// region, from the outermost inwards, a selection by a boolean takes in
/// the selections right after it that are on the same condition and have
/// no outputs; their cases are appended to its own, and in what moves,
/// the outputs of the first selection are replaced by the values that
/// they stand for in the case.
pub fn fuse_selects_in_func(func_def_body: &mut FuncDefBody)
    ensures
        final(func_def_body)@ == fuse_region(depth_limit(), old(func_def_body)@),
{
    fuse_in_region(usize::MAX, &mut func_def_body.body);
}

} // verus!
