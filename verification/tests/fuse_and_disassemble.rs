//! The fusing of selections, and the plan of a disassembly.

use rustc_codegen_spirv::codegen_args::{CodegenArgs, Parsed};
use rustc_codegen_spirv::disassemble::{compact_ids, DisassembleError, Disassembly};
use rustc_codegen_spirv::fuse_selects::{
    fuse_selects_in_func, FuncDefBody, Node, NodeKind, Region, SelectionKind, Val,
};
use rustc_codegen_spirv::module::{Block, Function, Instruction, Module, Operand};

fn op(k: u32, inputs: Vec<Val>) -> Node {
    Node { kind: NodeKind::Op(k), inputs, outputs: Vec::new(), child_regions: Vec::new() }
}

fn region(children: Vec<Node>) -> Region {
    Region { children, outputs: Vec::new() }
}

fn select(cond: Val, then: Region, otherwise: Region) -> Node {
    Node {
        kind: NodeKind::Select(SelectionKind::BoolCond),
        inputs: vec![cond],
        outputs: Vec::new(),
        child_regions: vec![then, otherwise],
    }
}

fn count(r: &Region) -> usize {
    r.children.iter().map(|n| 1 + n.child_regions.iter().map(count).sum::<usize>()).sum()
}

fn ops(r: &Region, out: &mut Vec<u32>) {
    for n in &r.children {
        if let NodeKind::Op(k) = n.kind {
            out.push(k);
        }
        for c in &n.child_regions {
            ops(c, out);
        }
    }
}

#[test]
fn two_selections_on_one_condition_become_one() {
    let c = Val::Var(1);
    let body = region(vec![
        select(c, region(vec![op(10, vec![])]), region(vec![op(11, vec![])])),
        select(c, region(vec![op(12, vec![])]), region(vec![op(13, vec![])])),
        op(99, vec![]),
    ]);
    let mut func = FuncDefBody { body };
    fuse_selects_in_func(&mut func);
    let expected = region(vec![
        select(
            c,
            region(vec![op(10, vec![]), op(12, vec![])]),
            region(vec![op(11, vec![]), op(13, vec![])]),
        ),
        op(99, vec![]),
    ]);
    assert_eq!(func.body, expected);
    fuse_selects_in_func(&mut func);
    assert_eq!(func.body, expected);
}

#[test]
fn outputs_of_the_first_selection_are_replaced_in_what_moves() {
    let c = Val::Var(1);
    let mut first = select(
        c,
        Region { children: vec![op(10, vec![])], outputs: vec![Val::Var(20), Val::Const(5)] },
        Region { children: Vec::new(), outputs: vec![Val::Const(7), Val::Var(21)] },
    );
    first.outputs = vec![30, 31];
    let nested = select(Val::Var(30), region(vec![op(14, vec![Val::Var(31)])]), region(Vec::new()));
    let second = select(
        c,
        region(vec![op(12, vec![Val::Var(30), Val::Var(31), Val::Var(40), Val::Const(30)]), nested]),
        region(vec![op(13, vec![Val::Var(31), Val::Var(30)])]),
    );
    let mut func = FuncDefBody { body: region(vec![first, second]) };
    fuse_selects_in_func(&mut func);
    assert_eq!(func.body.children.len(), 1);
    let fused = &func.body.children[0];
    assert_eq!(fused.outputs, vec![30, 31]);
    assert_eq!(fused.child_regions[0].outputs, vec![Val::Var(20), Val::Const(5)]);
    assert_eq!(
        fused.child_regions[0].children[1],
        op(12, vec![Val::Var(20), Val::Const(5), Val::Var(40), Val::Const(30)])
    );
    assert_eq!(
        fused.child_regions[0].children[2],
        select(Val::Var(20), region(vec![op(14, vec![Val::Const(5)])]), region(Vec::new()))
    );
    assert_eq!(
        fused.child_regions[1].children,
        vec![op(13, vec![Val::Var(21), Val::Const(7)])]
    );
}

#[test]
fn what_cannot_be_fused_stays() {
    let c = Val::Var(1);
    let d = Val::Var(2);
    let plain = || select(c, region(vec![op(1, vec![])]), region(Vec::new()));
    let mut with_outputs = plain();
    with_outputs.outputs = vec![9];
    let mut switch = plain();
    switch.kind = NodeKind::Select(SelectionKind::Switch);
    let cases: Vec<(&str, Vec<Node>)> = vec![
        ("other condition", vec![plain(), select(d, region(Vec::new()), region(Vec::new()))]),
        ("outputs on the second", vec![plain(), with_outputs]),
        ("a node between", vec![plain(), op(5, vec![]), plain()]),
        ("a switch", vec![plain(), switch]),
        ("no selection", vec![op(1, vec![]), op(2, vec![])]),
    ];
    for (what, children) in cases {
        let n = children.len();
        let mut func = FuncDefBody { body: region(children) };
        fuse_selects_in_func(&mut func);
        assert_eq!(func.body.children.len(), n, "{}", what);
    }
}

#[test]
fn a_run_of_selections_is_fused_into_the_first() {
    let c = Val::Var(1);
    let s = |k| select(c, region(vec![op(k, vec![])]), region(vec![op(k + 100, vec![])]));
    let mut first = s(1);
    first.outputs = vec![50];
    first.child_regions[0].outputs = vec![Val::Const(1)];
    first.child_regions[1].outputs = vec![Val::Const(2)];
    let mut func = FuncDefBody { body: region(vec![op(0, vec![]), first, s(2), s(3), op(9, vec![]), s(4), s(5)]) };
    let before = count(&func.body);
    let mut before_ops = Vec::new();
    ops(&func.body, &mut before_ops);
    fuse_selects_in_func(&mut func);
    let kinds: Vec<bool> = func.body.children.iter().map(|n| matches!(n.kind, NodeKind::Op(_))).collect();
    assert_eq!(kinds, vec![true, false, true, false]);
    assert_eq!(count(&func.body), before - 3);
    let mut after_ops = Vec::new();
    ops(&func.body, &mut after_ops);
    before_ops.sort();
    after_ops.sort();
    assert_eq!(after_ops, before_ops);
    let fused = &func.body.children[1];
    let inner: Vec<NodeKind> = fused.child_regions[0].children.iter().map(|n| n.kind).collect();
    assert_eq!(inner, vec![NodeKind::Op(1), NodeKind::Op(2), NodeKind::Op(3)]);
}

#[test]
fn a_long_run_is_fused_and_its_nodes_removed() {
    let c = Val::Var(1);
    let d = Val::Var(2);
    let mut children = vec![op(0, vec![])];
    for k in 0..12 {
        children.push(select(c, region(vec![op(100 + k, vec![])]), region(Vec::new())));
    }
    children.push(op(1, vec![]));
    for k in 0..3 {
        children.push(select(d, region(Vec::new()), region(vec![op(200 + k, vec![])])));
    }
    let mut func = FuncDefBody { body: region(children) };
    fuse_selects_in_func(&mut func);
    let expected = region(vec![
        op(0, vec![]),
        select(c, region((0..12).map(|k| op(100 + k, vec![])).collect()), region(Vec::new())),
        op(1, vec![]),
        select(d, region(Vec::new()), region((0..3).map(|k| op(200 + k, vec![])).collect())),
    ]);
    assert_eq!(func.body, expected);
}

#[test]
fn selections_apart_are_not_fused() {
    let body = region(vec![
        select(Val::Var(1), region(vec![op(1, vec![])]), region(Vec::new())),
        select(Val::Var(2), region(vec![op(2, vec![])]), region(Vec::new())),
        select(Val::Var(2), region(vec![op(3, vec![])]), region(Vec::new())),
        select(Val::Var(1), region(vec![op(4, vec![])]), region(Vec::new())),
    ]);
    let mut func = FuncDefBody { body };
    fuse_selects_in_func(&mut func);
    let expected = region(vec![
        select(Val::Var(1), region(vec![op(1, vec![])]), region(Vec::new())),
        select(Val::Var(2), region(vec![op(2, vec![]), op(3, vec![])]), region(Vec::new())),
        select(Val::Var(1), region(vec![op(4, vec![])]), region(Vec::new())),
    ]);
    assert_eq!(func.body, expected);
}

#[test]
fn regions_inside_are_fused_after_those_around_them() {
    let c = Val::Var(1);
    let d = Val::Var(2);
    let inner = |k| select(d, region(vec![op(k, vec![])]), region(Vec::new()));
    let outer = |k| select(c, region(vec![inner(k)]), region(Vec::new()));
    let mut func = FuncDefBody { body: region(vec![outer(1), outer(2)]) };
    fuse_selects_in_func(&mut func);
    let expected = region(vec![select(
        c,
        region(vec![select(d, region(vec![op(1, vec![]), op(2, vec![])]), region(Vec::new()))]),
        region(Vec::new()),
    )]);
    assert_eq!(func.body, expected);
    fuse_selects_in_func(&mut func);
    assert_eq!(func.body, expected);
}

fn inst(opcode: u32, ty: Option<u32>, id: Option<u32>, operands: Vec<Operand>) -> Instruction {
    Instruction::new(opcode, ty, id, operands)
}

fn function(id: u32) -> Function {
    Function {
        def: Some(inst(54, Some(900), Some(id), vec![Operand::IdRef(901)])),
        end: Some(inst(56, None, None, Vec::new())),
        parameters: vec![inst(55, Some(902), Some(id + 1), Vec::new())],
        blocks: vec![Block {
            label: Some(inst(248, None, Some(id + 2), Vec::new())),
            instructions: vec![
                inst(128, Some(902), Some(id + 3), vec![Operand::IdRef(id + 1), Operand::IdRef(id + 1)]),
                inst(
                    62,
                    None,
                    None,
                    vec![Operand::IdRef(77), Operand::IdRef(id + 3), Operand::LiteralBit32(id + 3)],
                ),
            ],
        }],
    }
}

fn module() -> Module {
    let name = |id: u32, s: &str| inst(5, None, None, vec![Operand::IdRef(id), Operand::LiteralString(s.to_string())]);
    Module {
        header: None,
        capabilities: Vec::new(),
        extensions: Vec::new(),
        ext_inst_imports: Vec::new(),
        memory_model: None,
        entry_points: vec![inst(
            15,
            None,
            None,
            vec![
                Operand::Enumerant(rustc_codegen_spirv::grammar::OperandKind::ExecutionModel, 4),
                Operand::IdRef(2000),
                Operand::LiteralString("main".to_string()),
            ],
        )],
        execution_modes: Vec::new(),
        debug_names: vec![name(1000, "first"), name(2000, "second"), name(3000, "ghost")],
        annotations: Vec::new(),
        types_global_values: Vec::new(),
        functions: vec![function(1000), function(2000)],
    }
}

#[test]
fn ids_are_renumbered_in_the_order_of_their_first_use() {
    let (f, bound) = compact_ids(&function(1000));
    assert_eq!(bound, 9);
    assert_eq!(f.def, Some(inst(54, Some(2), Some(1), vec![Operand::IdRef(3)])));
    assert_eq!(f.parameters, vec![inst(55, Some(5), Some(4), Vec::new())]);
    assert_eq!(f.blocks[0].label, Some(inst(248, None, Some(6), Vec::new())));
    assert_eq!(
        f.blocks[0].instructions,
        vec![
            inst(128, Some(5), Some(7), vec![Operand::IdRef(4), Operand::IdRef(4)]),
            inst(62, None, None, vec![Operand::IdRef(8), Operand::IdRef(7), Operand::LiteralBit32(1003)]),
        ]
    );
    assert_eq!(compact_ids(&f).0, f);
}

#[test]
fn the_plan_lists_what_the_options_ask_for() {
    let mut args = match CodegenArgs::parse(&Vec::new(), None) {
        Ok(Parsed::Args(a)) => a,
        other => panic!("{:?}", other),
    };
    let m = module();
    assert_eq!(args.do_disassemble(&m), Ok(Vec::new()));
    args.disassemble = true;
    args.disassemble_globals = true;
    args.disassemble_fn = Some("second".to_string());
    args.disassemble_entry = Some("main".to_string());
    let shown = compact_ids(&function(2000)).0;
    assert_eq!(
        args.do_disassemble(&m),
        Ok(vec![
            Disassembly::WholeModule,
            Disassembly::Function(shown.clone()),
            Disassembly::Function(shown),
            Disassembly::Globals,
        ])
    );
    args.disassemble_fn = Some("third".to_string());
    assert_eq!(args.do_disassemble(&m), Err(DisassembleError::NoFunctionNamed("third".to_string())));
    args.disassemble_fn = Some("ghost".to_string());
    assert_eq!(args.do_disassemble(&m), Err(DisassembleError::NoFunctionWithId(3000)));
    args.disassemble_fn = None;
    args.disassemble_entry = Some("frag".to_string());
    assert_eq!(args.do_disassemble(&m), Err(DisassembleError::NoEntryPointNamed("frag".to_string())));
}
