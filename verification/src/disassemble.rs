//! What the options ask to be disassembled: the whole module, one function
//! by its name or by the name of its entry point, and the globals. A
//! function is shown with its ids renumbered from 1 in the order of their
//! first use, so that they stay the same from one compilation to the next.

use vstd::prelude::*;
use crate::asm_ids::{find_id_type, id_type};
use crate::codegen_args::CodegenArgs;
use crate::grammar::{OP_ENTRY_POINT, OP_NAME};
use crate::module::{
    Block, BlockView, Function, FunctionView, Instruction, InstructionView, Module, Operand,
    OperandView, Word,
};
use crate::text::str_eq;

verus! {

/// The number that the id after `len` others is renumbered to.
pub open spec fn next_compact(len: nat) -> Word {
    if len < u32::MAX {
        (len + 1) as Word
    } else {
        u32::MAX
    }
}

/// Renumbering the id `id`: the number it has, or the next one, which it
/// then keeps.
pub open spec fn compact_id(map: Seq<(Word, Word)>, id: Word) -> (Seq<(Word, Word)>, Word) {
    match id_type(map, id) {
        Some(n) => (map, n),
        None => (map.push((id, next_compact(map.len()))), next_compact(map.len())),
    }
}

/// Renumbering the id of an operand, if it refers to one.
pub open spec fn compact_operand(map: Seq<(Word, Word)>, op: OperandView) -> (
    Seq<(Word, Word)>,
    OperandView,
) {
    match op {
        OperandView::IdRef(w) => (compact_id(map, w).0, OperandView::IdRef(compact_id(map, w).1)),
        OperandView::IdScope(w) => (
            compact_id(map, w).0,
            OperandView::IdScope(compact_id(map, w).1),
        ),
        OperandView::IdMemorySemantics(w) => (
            compact_id(map, w).0,
            OperandView::IdMemorySemantics(compact_id(map, w).1),
        ),
        other => (map, other),
    }
}

/// Renumbering the ids of the first `k` operands, in order.
pub open spec fn compact_operands(map: Seq<(Word, Word)>, ops: Seq<OperandView>, k: nat) -> (
    Seq<(Word, Word)>,
    Seq<OperandView>,
)
    decreases k,
{
    if k == 0 {
        (map, Seq::empty())
    } else {
        let (m, done) = compact_operands(map, ops, (k - 1) as nat);
        let (m2, op) = compact_operand(m, ops[k - 1]);
        (m2, done.push(op))
    }
}

/// Renumbering an id that may be absent.
pub open spec fn compact_opt_id(map: Seq<(Word, Word)>, id: Option<Word>) -> (
    Seq<(Word, Word)>,
    Option<Word>,
) {
    match id {
        Some(w) => (compact_id(map, w).0, Some(compact_id(map, w).1)),
        None => (map, None),
    }
}

/// Renumbering the ids of an instruction: its result, then its result
/// type, then its operands.
pub open spec fn compact_inst(map: Seq<(Word, Word)>, i: InstructionView) -> (
    Seq<(Word, Word)>,
    InstructionView,
) {
    let (m1, result_id) = compact_opt_id(map, i.result_id);
    let (m2, result_type) = compact_opt_id(m1, i.result_type);
    let (m3, operands) = compact_operands(m2, i.operands, i.operands.len());
    (m3, InstructionView { opcode: i.opcode, result_type, result_id, operands })
}

/// Renumbering the ids of the first `k` instructions, in order.
pub open spec fn compact_insts(map: Seq<(Word, Word)>, insts: Seq<InstructionView>, k: nat) -> (
    Seq<(Word, Word)>,
    Seq<InstructionView>,
)
    decreases k,
{
    if k == 0 {
        (map, Seq::empty())
    } else {
        let (m, done) = compact_insts(map, insts, (k - 1) as nat);
        let (m2, i) = compact_inst(m, insts[k - 1]);
        (m2, done.push(i))
    }
}

/// Renumbering the ids of an instruction that may be absent.
pub open spec fn compact_opt_inst(map: Seq<(Word, Word)>, i: Option<InstructionView>) -> (
    Seq<(Word, Word)>,
    Option<InstructionView>,
) {
    match i {
        Some(x) => (compact_inst(map, x).0, Some(compact_inst(map, x).1)),
        None => (map, None),
    }
}

/// Renumbering the ids of a block: its label, then its instructions.
pub open spec fn compact_block(map: Seq<(Word, Word)>, b: BlockView) -> (
    Seq<(Word, Word)>,
    BlockView,
) {
    let (m1, label) = compact_opt_inst(map, b.label);
    let (m2, instructions) = compact_insts(m1, b.instructions, b.instructions.len());
    (m2, BlockView { label, instructions })
}

/// Renumbering the ids of the first `k` blocks, in order.
pub open spec fn compact_blocks(map: Seq<(Word, Word)>, blocks: Seq<BlockView>, k: nat) -> (
    Seq<(Word, Word)>,
    Seq<BlockView>,
)
    decreases k,
{
    if k == 0 {
        (map, Seq::empty())
    } else {
        let (m, done) = compact_blocks(map, blocks, (k - 1) as nat);
        let (m2, b) = compact_block(m, blocks[k - 1]);
        (m2, done.push(b))
    }
}

/// Renumbering the ids of a function from 1, in the order of their first
/// use: the defining instruction, the parameters, the blocks, the end.
/// With the function comes one more than the number of its ids.
pub open spec fn compact_function(f: FunctionView) -> (FunctionView, Word) {
    let (m1, def) = compact_opt_inst(Seq::empty(), f.def);
    let (m2, parameters) = compact_insts(m1, f.parameters, f.parameters.len());
    let (m3, blocks) = compact_blocks(m2, f.blocks, f.blocks.len());
    let (m4, end) = compact_opt_inst(m3, f.end);
    (FunctionView { def, end, parameters, blocks }, next_compact(m4.len()))
}

/// Renumbers the id `id`.
fn renumber(map: &mut Vec<(Word, Word)>, id: Word) -> (r: Word)
    ensures
        (final(map)@, r) == compact_id(old(map)@, id),
{
    match find_id_type(map, id) {
        Some(n) => n,
        None => {
            let n: Word = if map.len() < 0xffff_ffff {
                (map.len() + 1) as Word
            } else {
                0xffff_ffff
            };
            map.push((id, n));
            n
        },
    }
}

/// Renumbers an id that may be absent.
fn renumber_opt(map: &mut Vec<(Word, Word)>, id: Option<Word>) -> (r: Option<Word>)
    ensures
        (final(map)@, r) == compact_opt_id(old(map)@, id),
{
    match id {
        Some(w) => Some(renumber(map, w)),
        None => None,
    }
}

/// Renumbers the ids of an instruction.
fn renumber_inst(map: &mut Vec<(Word, Word)>, i: &Instruction) -> (r: Instruction)
    ensures
        (final(map)@, r@) == compact_inst(old(map)@, i@),
{
    let result_id = renumber_opt(map, i.result_id);
    let result_type = renumber_opt(map, i.result_type);
    let ghost start = map@;
    let ghost ops = i.operands.deep_view();
    let mut operands: Vec<Operand> = Vec::new();
    let mut k: usize = 0;
    assert(operands.deep_view() =~= Seq::<OperandView>::empty());
    while k < i.operands.len()
        invariant
            k <= i.operands.len(),
            ops == i.operands.deep_view(),
            (map@, operands.deep_view()) == compact_operands(start, ops, k as nat),
        decreases i.operands.len() - k,
    {
        assert(ops[k as int] == i.operands@[k as int]@);
        let op = match &i.operands[k] {
            Operand::IdRef(w) => Operand::IdRef(renumber(map, *w)),
            Operand::IdScope(w) => Operand::IdScope(renumber(map, *w)),
            Operand::IdMemorySemantics(w) => Operand::IdMemorySemantics(renumber(map, *w)),
            other => other.duplicate(),
        };
        let ghost before = operands.deep_view();
        let ghost ov = op@;
        operands.push(op);
        assert(operands.deep_view() =~= before.push(ov));
        k += 1;
    }
    Instruction { opcode: i.opcode, result_type, result_id, operands }
}

/// Renumbers the ids of an instruction that may be absent.
fn renumber_opt_inst(map: &mut Vec<(Word, Word)>, i: &Option<Instruction>) -> (r: Option<
    Instruction,
>)
    ensures
        (final(map)@, r.deep_view()) == compact_opt_inst(old(map)@, i.deep_view()),
{
    match i {
        Some(x) => Some(renumber_inst(map, x)),
        None => None,
    }
}

/// Renumbers the ids of a list of instructions.
fn renumber_insts(map: &mut Vec<(Word, Word)>, insts: &Vec<Instruction>) -> (r: Vec<Instruction>)
    ensures
        (final(map)@, r.deep_view()) == compact_insts(
            old(map)@,
            insts.deep_view(),
            insts.len() as nat,
        ),
{
    let ghost all = insts.deep_view();
    let mut out: Vec<Instruction> = Vec::new();
    let mut k: usize = 0;
    assert(out.deep_view() =~= Seq::<InstructionView>::empty());
    while k < insts.len()
        invariant
            k <= insts.len(),
            all == insts.deep_view(),
            (map@, out.deep_view()) == compact_insts(old(map)@, all, k as nat),
        decreases insts.len() - k,
    {
        assert(all[k as int] == insts@[k as int]@);
        let i = renumber_inst(map, &insts[k]);
        let ghost before = out.deep_view();
        let ghost iv = i@;
        out.push(i);
        assert(out.deep_view() =~= before.push(iv));
        k += 1;
    }
    out
}

/// Renumbers the ids of a list of blocks.
fn renumber_blocks(map: &mut Vec<(Word, Word)>, blocks: &Vec<Block>) -> (r: Vec<Block>)
    ensures
        (final(map)@, r.deep_view()) == compact_blocks(
            old(map)@,
            blocks.deep_view(),
            blocks.len() as nat,
        ),
{
    let ghost all = blocks.deep_view();
    let mut out: Vec<Block> = Vec::new();
    let mut k: usize = 0;
    assert(out.deep_view() =~= Seq::<BlockView>::empty());
    while k < blocks.len()
        invariant
            k <= blocks.len(),
            all == blocks.deep_view(),
            (map@, out.deep_view()) == compact_blocks(old(map)@, all, k as nat),
        decreases blocks.len() - k,
    {
        assert(all[k as int] == blocks@[k as int]@);
        let label = renumber_opt_inst(map, &blocks[k].label);
        let instructions = renumber_insts(map, &blocks[k].instructions);
        let b = Block { label, instructions };
        let ghost before = out.deep_view();
        let ghost bv = b@;
        out.push(b);
        assert(out.deep_view() =~= before.push(bv));
        k += 1;
    }
    out
}

/// A copy of the function with its ids renumbered from 1 in the order of
/// their first use, and one more than the number of its ids.
pub fn compact_ids(f: &Function) -> (r: (Function, Word))
    ensures
        (r.0@, r.1) == compact_function(f@),
{
    let mut map: Vec<(Word, Word)> = Vec::new();
    let def = renumber_opt_inst(&mut map, &f.def);
    let parameters = renumber_insts(&mut map, &f.parameters);
    let blocks = renumber_blocks(&mut map, &f.blocks);
    let end = renumber_opt_inst(&mut map, &f.end);
    let bound: Word = if map.len() < 0xffff_ffff {
        (map.len() + 1) as Word
    } else {
        0xffff_ffff
    };
    (Function { def, end, parameters, blocks }, bound)
}

/// Whether the instruction gives the id of its first operand the name
/// `name`.
pub open spec fn names_id(i: InstructionView, name: Seq<char>) -> bool {
    &&& i.opcode == OP_NAME
    &&& i.operands.len() >= 2
    &&& i.operands[0] is IdRef
    &&& i.operands[1] == OperandView::LiteralString(name)
}

/// Whether the instruction declares an entry point with the name `name`.
pub open spec fn declares_entry(i: InstructionView, name: Seq<char>) -> bool {
    &&& i.opcode == OP_ENTRY_POINT
    &&& i.operands.len() >= 3
    &&& i.operands[1] is IdRef
    &&& i.operands[2] == OperandView::LiteralString(name)
}

/// The id that the first instruction of `insts[from..]` that gives a name
/// gives the name `name` to.
pub open spec fn named_id(insts: Seq<InstructionView>, name: Seq<char>, from: int) -> Option<Word>
    decreases insts.len() - from,
{
    if from < 0 || from >= insts.len() {
        None
    } else if names_id(insts[from], name) {
        Some(insts[from].operands[0]->IdRef_0)
    } else {
        named_id(insts, name, from + 1)
    }
}

/// The id of the function that the first instruction of `insts[from..]`
/// declares the entry point `name` for.
pub open spec fn entry_id(insts: Seq<InstructionView>, name: Seq<char>, from: int) -> Option<Word>
    decreases insts.len() - from,
{
    if from < 0 || from >= insts.len() {
        None
    } else if declares_entry(insts[from], name) {
        Some(insts[from].operands[1]->IdRef_0)
    } else {
        entry_id(insts, name, from + 1)
    }
}

/// The position of the first function of `functions[from..]` whose id is
/// `id`.
pub open spec fn function_with_id(functions: Seq<FunctionView>, id: Word, from: int) -> Option<int>
    decreases functions.len() - from,
{
    if from < 0 || from >= functions.len() {
        None
    } else if functions[from].def.is_some() && functions[from].def.unwrap().result_id == Some(id) {
        Some(from)
    } else {
        function_with_id(functions, id, from + 1)
    }
}

/// One thing to disassemble.
#[derive(Clone, Debug, PartialEq, Eq)]
pub enum Disassembly {
    /// The whole module.
    WholeModule,
    /// A function, with its ids renumbered.
    Function(Function),
    /// Every instruction of the global sections.
    Globals,
}

/// The mathematical content of a [`Disassembly`].
pub enum DisassemblyView {
    WholeModule,
    Function(FunctionView),
    Globals,
}

impl View for Disassembly {
    type V = DisassemblyView;

    open spec fn view(&self) -> DisassemblyView {
        match self {
            Disassembly::WholeModule => DisassemblyView::WholeModule,
            Disassembly::Function(f) => DisassemblyView::Function(f@),
            Disassembly::Globals => DisassemblyView::Globals,
        }
    }
}

impl DeepView for Disassembly {
    type V = DisassemblyView;

    open spec fn deep_view(&self) -> DisassemblyView {
        self@
    }
}

/// Why a function cannot be disassembled.
#[derive(Clone, Debug, PartialEq, Eq)]
pub enum DisassembleError {
    /// No function has the name.
    NoFunctionNamed(String),
    /// No entry point has the name.
    NoEntryPointNamed(String),
    /// The module has no function with the id that the name stands for.
    NoFunctionWithId(Word),
}

/// The mathematical content of a [`DisassembleError`].
pub enum DisassembleErrorView {
    NoFunctionNamed(Seq<char>),
    NoEntryPointNamed(Seq<char>),
    NoFunctionWithId(Word),
}

impl View for DisassembleError {
    type V = DisassembleErrorView;

    open spec fn view(&self) -> DisassembleErrorView {
        match self {
            DisassembleError::NoFunctionNamed(s) => DisassembleErrorView::NoFunctionNamed(s@),
            DisassembleError::NoEntryPointNamed(s) => DisassembleErrorView::NoEntryPointNamed(s@),
            DisassembleError::NoFunctionWithId(w) => DisassembleErrorView::NoFunctionWithId(*w),
        }
    }
}

/// The function of `functions` with the id `id`, renumbered.
pub open spec fn shown_function(functions: Seq<FunctionView>, id: Word) -> Result<
    DisassemblyView,
    DisassembleErrorView,
> {
    match function_with_id(functions, id, 0) {
        Some(i) => Ok(DisassemblyView::Function(compact_function(functions[i]).0)),
        None => Err(DisassembleErrorView::NoFunctionWithId(id)),
    }
}

/// The function that a request by name asks for, if there is a request.
pub open spec fn requested(
    name: Option<Seq<char>>,
    id: Option<Word>,
    by_entry: bool,
    functions: Seq<FunctionView>,
) -> Result<Option<DisassemblyView>, DisassembleErrorView> {
    match name {
        None => Ok(None),
        Some(n) => match id {
            None => Err(
                if by_entry {
                    DisassembleErrorView::NoEntryPointNamed(n)
                } else {
                    DisassembleErrorView::NoFunctionNamed(n)
                },
            ),
            Some(w) => match shown_function(functions, w) {
                Ok(d) => Ok(Some(d)),
                Err(e) => Err(e),
            },
        },
    }
}

/// The list `list` with `item` at its end, if there is an item.
pub open spec fn with_item(list: Seq<DisassemblyView>, item: Option<DisassemblyView>) -> Seq<
    DisassemblyView,
> {
    match item {
        Some(d) => list.push(d),
        None => list,
    }
}

/// The id that the first instruction of `insts` that gives a name gives
/// the name `name` to.
pub fn find_named_id(insts: &Vec<Instruction>, name: &str) -> (r: Option<Word>)
    ensures
        r == named_id(insts.deep_view(), name@, 0),
{
    let ghost all = insts.deep_view();
    let mut i: usize = 0;
    while i < insts.len()
        invariant
            i <= insts.len(),
            all == insts.deep_view(),
            named_id(all, name@, 0) == named_id(all, name@, i as int),
        decreases insts.len() - i,
    {
        let inst = &insts[i];
        assert(all[i as int] == inst@);
        if inst.opcode == OP_NAME && inst.operands.len() >= 2 {
            assert(inst@.operands[0] == inst.operands@[0]@);
            assert(inst@.operands[1] == inst.operands@[1]@);
            match (&inst.operands[0], &inst.operands[1]) {
                (Operand::IdRef(id), Operand::LiteralString(s)) => {
                    if str_eq(s.as_str(), name) {
                        return Some(*id);
                    }
                },
                _ => {},
            }
        }
        i += 1;
    }
    None
}

/// The id of the function that the first instruction of `insts` declares
/// the entry point `name` for.
pub fn find_entry_id(insts: &Vec<Instruction>, name: &str) -> (r: Option<Word>)
    ensures
        r == entry_id(insts.deep_view(), name@, 0),
{
    let ghost all = insts.deep_view();
    let mut i: usize = 0;
    while i < insts.len()
        invariant
            i <= insts.len(),
            all == insts.deep_view(),
            entry_id(all, name@, 0) == entry_id(all, name@, i as int),
        decreases insts.len() - i,
    {
        let inst = &insts[i];
        assert(all[i as int] == inst@);
        if inst.opcode == OP_ENTRY_POINT && inst.operands.len() >= 3 {
            assert(inst@.operands[1] == inst.operands@[1]@);
            assert(inst@.operands[2] == inst.operands@[2]@);
            match (&inst.operands[1], &inst.operands[2]) {
                (Operand::IdRef(id), Operand::LiteralString(s)) => {
                    if str_eq(s.as_str(), name) {
                        return Some(*id);
                    }
                },
                _ => {},
            }
        }
        i += 1;
    }
    None
}

/// The function of `functions` with the id `id`, renumbered.
pub fn show_function(functions: &Vec<Function>, id: Word) -> (r: Result<
    Disassembly,
    DisassembleError,
>)
    ensures
        match shown_function(functions.deep_view(), id) {
            Ok(d) => r is Ok && r->Ok_0@ == d,
            Err(e) => r is Err && r->Err_0@ == e,
        },
{
    let ghost all = functions.deep_view();
    let mut i: usize = 0;
    while i < functions.len()
        invariant
            i <= functions.len(),
            all == functions.deep_view(),
            function_with_id(all, id, 0) == function_with_id(all, id, i as int),
        decreases functions.len() - i,
    {
        assert(all[i as int] == functions@[i as int]@);
        let found = match &functions[i].def {
            Some(def) => match def.result_id {
                Some(w) => w == id,
                None => false,
            },
            None => false,
        };
        if found {
            let (f, _) = compact_ids(&functions[i]);
            return Ok(Disassembly::Function(f));
        }
        i += 1;
    }
    Err(DisassembleError::NoFunctionWithId(id))
}

/// The plan of a disassembly: what the options ask for, in the order in
/// which it is shown.
pub open spec fn disassembly_plan(
    whole: bool,
    by_name: Result<Option<DisassemblyView>, DisassembleErrorView>,
    by_entry: Result<Option<DisassemblyView>, DisassembleErrorView>,
    globals: bool,
) -> Result<Seq<DisassemblyView>, DisassembleErrorView> {
    let first = if whole {
        seq![DisassemblyView::WholeModule]
    } else {
        Seq::empty()
    };
    match by_name {
        Err(e) => Err(e),
        Ok(f) => match by_entry {
            Err(e) => Err(e),
            Ok(g) => {
                let shown = with_item(with_item(first, f), g);
                Ok(
                    if globals {
                        shown.push(DisassemblyView::Globals)
                    } else {
                        shown
                    },
                )
            },
        },
    }
}

impl CodegenArgs {
    /// What of `module` the options ask to be disassembled, in the order in
    /// which it is to be shown: the whole module; the function with the
    /// name asked for; the function of the entry point with the name asked
    /// for; the globals. A name that the module does not know is an error.
    pub fn do_disassemble(&self, module: &Module) -> (r: Result<Vec<Disassembly>, DisassembleError>)
        ensures
            match disassembly_plan(
                self.disassemble,
                requested(
                    self.disassemble_fn.deep_view(),
                    match self.disassemble_fn {
                        Some(n) => named_id(module@.debug_names, n@, 0),
                        None => None,
                    },
                    false,
                    module@.functions,
                ),
                requested(
                    self.disassemble_entry.deep_view(),
                    match self.disassemble_entry {
                        Some(n) => entry_id(module@.entry_points, n@, 0),
                        None => None,
                    },
                    true,
                    module@.functions,
                ),
                self.disassemble_globals,
            ) {
                Ok(plan) => r is Ok && r->Ok_0.deep_view() == plan,
                Err(e) => r is Err && r->Err_0@ == e,
            },
    {
        let mut out: Vec<Disassembly> = Vec::new();
        assert(out.deep_view() =~= Seq::<DisassemblyView>::empty());
        if self.disassemble {
            out.push(Disassembly::WholeModule);
            assert(out.deep_view() =~= seq![DisassemblyView::WholeModule]);
        }
        match &self.disassemble_fn {
            Some(name) => {
                match find_named_id(&module.debug_names, name.as_str()) {
                    None => {
                        return Err(DisassembleError::NoFunctionNamed(name.clone()));
                    },
                    Some(id) => match show_function(&module.functions, id) {
                        Err(e) => {
                            return Err(e);
                        },
                        Ok(d) => {
                            let ghost before = out.deep_view();
                            let ghost dv = d@;
                            out.push(d);
                            assert(out.deep_view() =~= before.push(dv));
                        },
                    },
                }
            },
            None => {},
        }
        match &self.disassemble_entry {
            Some(name) => {
                match find_entry_id(&module.entry_points, name.as_str()) {
                    None => {
                        return Err(DisassembleError::NoEntryPointNamed(name.clone()));
                    },
                    Some(id) => match show_function(&module.functions, id) {
                        Err(e) => {
                            return Err(e);
                        },
                        Ok(d) => {
                            let ghost before = out.deep_view();
                            let ghost dv = d@;
                            out.push(d);
                            assert(out.deep_view() =~= before.push(dv));
                        },
                    },
                }
            },
            None => {},
        }
        if self.disassemble_globals {
            let ghost before = out.deep_view();
            out.push(Disassembly::Globals);
            assert(out.deep_view() =~= before.push(DisassemblyView::Globals));
        }
        Ok(out)
    }
}

} // verus!
