//! The module under construction: instructions, blocks, functions, the
//! global sections, and the builder that grows them through cursors.

use vstd::prelude::*;
use crate::grammar::OperandKind;

verus! {

/// A 32-bit id that names a type, a value, a function or a label.
pub type Word = u32;

/// One operand of an instruction.
#[derive(Clone, Debug, PartialEq, Eq)]
pub enum Operand {
    IdRef(Word),
    IdScope(Word),
    IdMemorySemantics(Word),
    LiteralBit32(u32),
    LiteralBit64(u64),
    LiteralExtInstInteger(u32),
    /// The opcode of the instruction that a specialization constant runs.
    LiteralSpecConstantOpInteger(u32),
    LiteralString(String),
    /// A floating-point literal, kept as written, with the bit width of
    /// the type it is meant for.
    LiteralFloat { width: u32, text: String },
    /// A value of an enumeration, or a mask of flags, of the given kind.
    Enumerant(OperandKind, u32),
}

/// The mathematical content of an [`Operand`].
pub enum OperandView {
    IdRef(Word),
    IdScope(Word),
    IdMemorySemantics(Word),
    LiteralBit32(u32),
    LiteralBit64(u64),
    LiteralExtInstInteger(u32),
    LiteralSpecConstantOpInteger(u32),
    LiteralString(Seq<char>),
    LiteralFloat { width: u32, text: Seq<char> },
    Enumerant(OperandKind, u32),
}

impl View for Operand {
    type V = OperandView;

    open spec fn view(&self) -> OperandView {
        match self {
            Operand::IdRef(w) => OperandView::IdRef(*w),
            Operand::IdScope(w) => OperandView::IdScope(*w),
            Operand::IdMemorySemantics(w) => OperandView::IdMemorySemantics(*w),
            Operand::LiteralBit32(v) => OperandView::LiteralBit32(*v),
            Operand::LiteralBit64(v) => OperandView::LiteralBit64(*v),
            Operand::LiteralExtInstInteger(v) => OperandView::LiteralExtInstInteger(*v),
            Operand::LiteralSpecConstantOpInteger(v) => OperandView::LiteralSpecConstantOpInteger(
                *v,
            ),
            Operand::LiteralString(s) => OperandView::LiteralString(s@),
            Operand::LiteralFloat { width, text } => OperandView::LiteralFloat {
                width: *width,
                text: text@,
            },
            Operand::Enumerant(k, v) => OperandView::Enumerant(*k, *v),
        }
    }
}

impl DeepView for Operand {
    type V = OperandView;

    open spec fn deep_view(&self) -> OperandView {
        self@
    }
}

impl OperandView {
    /// The id that the operand refers to, if it is an id of any sort.
    pub open spec fn id_ref_any(self) -> Option<Word> {
        match self {
            OperandView::IdRef(w) => Some(w),
            OperandView::IdScope(w) => Some(w),
            OperandView::IdMemorySemantics(w) => Some(w),
            _ => None,
        }
    }

    /// The operand with the id `from` replaced by `to`.
    pub open spec fn rename_id(self, from: Word, to: Word) -> OperandView {
        match self {
            OperandView::IdRef(w) => OperandView::IdRef(if w == from { to } else { w }),
            OperandView::IdScope(w) => OperandView::IdScope(if w == from { to } else { w }),
            OperandView::IdMemorySemantics(w) => OperandView::IdMemorySemantics(
                if w == from { to } else { w },
            ),
            _ => self,
        }
    }
}

impl Operand {
    /// The id that the operand refers to, if it is an id of any sort.
    pub fn id_ref_any(&self) -> (r: Option<Word>)
        ensures
            r == self@.id_ref_any(),
    {
        match self {
            Operand::IdRef(w) => Some(*w),
            Operand::IdScope(w) => Some(*w),
            Operand::IdMemorySemantics(w) => Some(*w),
            _ => None,
        }
    }

    /// A copy of the operand.
    pub fn duplicate(&self) -> (r: Operand)
        ensures
            r@ == self@,
    {
        match self {
            Operand::IdRef(w) => Operand::IdRef(*w),
            Operand::IdScope(w) => Operand::IdScope(*w),
            Operand::IdMemorySemantics(w) => Operand::IdMemorySemantics(*w),
            Operand::LiteralBit32(v) => Operand::LiteralBit32(*v),
            Operand::LiteralBit64(v) => Operand::LiteralBit64(*v),
            Operand::LiteralExtInstInteger(v) => Operand::LiteralExtInstInteger(*v),
            Operand::LiteralSpecConstantOpInteger(v) => Operand::LiteralSpecConstantOpInteger(*v),
            Operand::LiteralString(s) => Operand::LiteralString(s.clone()),
            Operand::LiteralFloat { width, text } => Operand::LiteralFloat {
                width: *width,
                text: text.clone(),
            },
            Operand::Enumerant(k, v) => Operand::Enumerant(*k, *v),
        }
    }
}

/// One instruction.
#[derive(Clone, Debug, PartialEq, Eq)]
pub struct Instruction {
    pub opcode: u32,
    pub result_type: Option<Word>,
    pub result_id: Option<Word>,
    pub operands: Vec<Operand>,
}

/// The mathematical content of an [`Instruction`].
pub struct InstructionView {
    pub opcode: u32,
    pub result_type: Option<Word>,
    pub result_id: Option<Word>,
    pub operands: Seq<OperandView>,
}

impl View for Instruction {
    type V = InstructionView;

    open spec fn view(&self) -> InstructionView {
        InstructionView {
            opcode: self.opcode,
            result_type: self.result_type,
            result_id: self.result_id,
            operands: self.operands.deep_view(),
        }
    }
}

impl DeepView for Instruction {
    type V = InstructionView;

    open spec fn deep_view(&self) -> InstructionView {
        self@
    }
}

/// The instruction with the given parts.
pub open spec fn inst(
    opcode: u32,
    result_type: Option<Word>,
    result_id: Option<Word>,
    operands: Seq<OperandView>,
) -> InstructionView {
    InstructionView { opcode, result_type, result_id, operands }
}

impl Instruction {
    /// An instruction with the given parts.
    pub fn new(
        opcode: u32,
        result_type: Option<Word>,
        result_id: Option<Word>,
        operands: Vec<Operand>,
    ) -> (r: Instruction)
        ensures
            r@ == inst(opcode, result_type, result_id, operands.deep_view()),
    {
        Instruction { opcode, result_type, result_id, operands }
    }

    /// A copy of the instruction.
    pub fn duplicate(&self) -> (r: Instruction)
        ensures
            r@ == self@,
    {
        let mut operands: Vec<Operand> = Vec::new();
        let mut i: usize = 0;
        while i < self.operands.len()
            invariant
                i <= self.operands.len(),
                operands.len() == i,
                forall|j: int| 0 <= j < i ==> operands@[j]@ == self.operands@[j]@,
            decreases self.operands.len() - i,
        {
            operands.push(self.operands[i].duplicate());
            i += 1;
        }
        assert(operands.deep_view() =~= self.operands.deep_view());
        Instruction {
            opcode: self.opcode,
            result_type: self.result_type,
            result_id: self.result_id,
            operands,
        }
    }
}

/// A basic block: a label and the instructions after it.
#[derive(Clone, Debug, PartialEq, Eq)]
pub struct Block {
    pub label: Option<Instruction>,
    pub instructions: Vec<Instruction>,
}

/// The mathematical content of a [`Block`].
pub struct BlockView {
    pub label: Option<InstructionView>,
    pub instructions: Seq<InstructionView>,
}

impl View for Block {
    type V = BlockView;

    open spec fn view(&self) -> BlockView {
        BlockView { label: self.label.deep_view(), instructions: self.instructions.deep_view() }
    }
}

impl DeepView for Block {
    type V = BlockView;

    open spec fn deep_view(&self) -> BlockView {
        self@
    }
}

/// A function: its defining instruction, its parameters, its blocks.
#[derive(Clone, Debug, PartialEq, Eq)]
pub struct Function {
    pub def: Option<Instruction>,
    pub end: Option<Instruction>,
    pub parameters: Vec<Instruction>,
    pub blocks: Vec<Block>,
}

/// The mathematical content of a [`Function`].
pub struct FunctionView {
    pub def: Option<InstructionView>,
    pub end: Option<InstructionView>,
    pub parameters: Seq<InstructionView>,
    pub blocks: Seq<BlockView>,
}

impl View for Function {
    type V = FunctionView;

    open spec fn view(&self) -> FunctionView {
        FunctionView {
            def: self.def.deep_view(),
            end: self.end.deep_view(),
            parameters: self.parameters.deep_view(),
            blocks: self.blocks.deep_view(),
        }
    }
}

impl DeepView for Function {
    type V = FunctionView;

    open spec fn deep_view(&self) -> FunctionView {
        self@
    }
}

/// The words that open a module's binary form.
#[derive(Clone, Copy, Debug, PartialEq, Eq, Structural)]
pub struct ModuleHeader {
    pub version_major: u8,
    pub version_minor: u8,
    pub generator: u32,
    /// One more than the largest id in use.
    pub bound: u32,
    pub schema: u32,
}

/// A module: the global sections in their order, then the functions.
#[derive(Clone, Debug, PartialEq, Eq)]
pub struct Module {
    pub header: Option<ModuleHeader>,
    pub capabilities: Vec<Instruction>,
    pub extensions: Vec<Instruction>,
    pub ext_inst_imports: Vec<Instruction>,
    pub memory_model: Option<Instruction>,
    pub entry_points: Vec<Instruction>,
    pub execution_modes: Vec<Instruction>,
    pub debug_names: Vec<Instruction>,
    pub annotations: Vec<Instruction>,
    pub types_global_values: Vec<Instruction>,
    pub functions: Vec<Function>,
}

/// The mathematical content of a [`Module`].
pub struct ModuleView {
    pub header: Option<ModuleHeader>,
    pub capabilities: Seq<InstructionView>,
    pub extensions: Seq<InstructionView>,
    pub ext_inst_imports: Seq<InstructionView>,
    pub memory_model: Option<InstructionView>,
    pub entry_points: Seq<InstructionView>,
    pub execution_modes: Seq<InstructionView>,
    pub debug_names: Seq<InstructionView>,
    pub annotations: Seq<InstructionView>,
    pub types_global_values: Seq<InstructionView>,
    pub functions: Seq<FunctionView>,
}

impl View for Module {
    type V = ModuleView;

    open spec fn view(&self) -> ModuleView {
        ModuleView {
            header: self.header,
            capabilities: self.capabilities.deep_view(),
            extensions: self.extensions.deep_view(),
            ext_inst_imports: self.ext_inst_imports.deep_view(),
            memory_model: self.memory_model.deep_view(),
            entry_points: self.entry_points.deep_view(),
            execution_modes: self.execution_modes.deep_view(),
            debug_names: self.debug_names.deep_view(),
            annotations: self.annotations.deep_view(),
            types_global_values: self.types_global_values.deep_view(),
            functions: self.functions.deep_view(),
        }
    }
}

impl ModuleView {
    /// The module without any instruction.
    pub open spec fn empty() -> ModuleView {
        ModuleView {
            header: None,
            capabilities: Seq::empty(),
            extensions: Seq::empty(),
            ext_inst_imports: Seq::empty(),
            memory_model: None,
            entry_points: Seq::empty(),
            execution_modes: Seq::empty(),
            debug_names: Seq::empty(),
            annotations: Seq::empty(),
            types_global_values: Seq::empty(),
            functions: Seq::empty(),
        }
    }

    /// The module with `i` as the last type, constant or global variable.
    pub open spec fn push_global(self, i: InstructionView) -> ModuleView {
        ModuleView { types_global_values: self.types_global_values.push(i), ..self }
    }

    /// The module with `i` as the last annotation.
    pub open spec fn push_annotation(self, i: InstructionView) -> ModuleView {
        ModuleView { annotations: self.annotations.push(i), ..self }
    }

    /// Whether the module has block `b` of function `f`.
    pub open spec fn has_block(self, f: int, b: int) -> bool {
        0 <= f < self.functions.len() && 0 <= b < self.functions[f].blocks.len()
    }

    /// The instructions of block `b` of function `f`.
    pub open spec fn block_insts(self, f: int, b: int) -> Seq<InstructionView> {
        self.functions[f].blocks[b].instructions
    }

    /// The module with the instructions of block `b` of function `f`
    /// replaced by `insts`.
    pub open spec fn with_block_insts(self, f: int, b: int, insts: Seq<InstructionView>)
        -> ModuleView {
        let func = self.functions[f];
        let block = BlockView { instructions: insts, ..func.blocks[b] };
        ModuleView {
            functions: self.functions.update(
                f,
                FunctionView { blocks: func.blocks.update(b, block), ..func },
            ),
            ..self
        }
    }
}

/// Where in a sequence of instructions a new one goes.
#[derive(Clone, Copy, Debug, PartialEq, Eq, Structural)]
pub enum InsertPoint {
    Begin,
    End,
}

/// The cursor of a function: its type, its id, its place in the module.
#[derive(Clone, Copy, Debug, PartialEq, Eq, Structural)]
pub struct SpirvFunctionCursor {
    pub ty: Word,
    pub id: Word,
    pub index_in_builder: usize,
}

/// The cursor of a basic block: its function, its label, its place there.
#[derive(Clone, Copy, Debug, PartialEq, Eq, Structural)]
pub struct SpirvBlockCursor {
    pub parent_fn: SpirvFunctionCursor,
    pub id: Word,
    pub index_in_builder: usize,
}

/// The module being built, and the counter that ids are drawn from.
#[derive(Clone, Debug, PartialEq, Eq)]
pub struct BuilderSpirv {
    pub module: Module,
    /// The next id to hand out; every id in use is below it.
    pub next_id: Word,
}

/// The mathematical content of a [`BuilderSpirv`].
pub struct BuilderView {
    pub module: ModuleView,
    pub next_id: Word,
}

impl View for BuilderSpirv {
    type V = BuilderView;

    open spec fn view(&self) -> BuilderView {
        BuilderView { module: self.module@, next_id: self.next_id }
    }
}

impl BuilderView {
    /// The builder with another module.
    pub open spec fn with_module(self, module: ModuleView) -> BuilderView {
        BuilderView { module, ..self }
    }

    /// The builder after `n` ids were drawn.
    pub open spec fn after_ids(self, n: int) -> BuilderView {
        BuilderView { next_id: (self.next_id + n) as Word, ..self }
    }

    /// Whether `cursor` points at a block of the module.
    pub open spec fn has_cursor(self, cursor: SpirvBlockCursor) -> bool {
        self.module.has_block(
            cursor.parent_fn.index_in_builder as int,
            cursor.index_in_builder as int,
        )
    }

    /// The instructions of the block at `cursor`.
    pub open spec fn insts_at(self, cursor: SpirvBlockCursor) -> Seq<InstructionView> {
        self.module.block_insts(
            cursor.parent_fn.index_in_builder as int,
            cursor.index_in_builder as int,
        )
    }

    /// The builder with the instructions of the block at `cursor` replaced.
    pub open spec fn with_insts_at(self, cursor: SpirvBlockCursor, insts: Seq<InstructionView>)
        -> BuilderView {
        self.with_module(
            self.module.with_block_insts(
                cursor.parent_fn.index_in_builder as int,
                cursor.index_in_builder as int,
                insts,
            ),
        )
    }

    /// The builder with `i` put into the block at `cursor`.
    pub open spec fn insert_at(self, cursor: SpirvBlockCursor, point: InsertPoint, i: InstructionView)
        -> BuilderView {
        match point {
            InsertPoint::Begin => self.with_insts_at(cursor, seq![i] + self.insts_at(cursor)),
            InsertPoint::End => self.with_insts_at(cursor, self.insts_at(cursor).push(i)),
        }
    }

    /// The builder with `i` as the last type, constant or global variable.
    pub open spec fn push_global(self, i: InstructionView) -> BuilderView {
        self.with_module(self.module.push_global(i))
    }

    /// The builder with `i` as the last annotation.
    pub open spec fn push_annotation(self, i: InstructionView) -> BuilderView {
        self.with_module(self.module.push_annotation(i))
    }
}

impl BuilderSpirv {
    /// A builder of an empty module. Ids start at 1: 0 names nothing.
    pub fn new() -> (r: BuilderSpirv)
        ensures
            r@ == (BuilderView { module: ModuleView::empty(), next_id: 1 }),
    {
        let module = Module {
            header: None,
            capabilities: Vec::new(),
            extensions: Vec::new(),
            ext_inst_imports: Vec::new(),
            memory_model: None,
            entry_points: Vec::new(),
            execution_modes: Vec::new(),
            debug_names: Vec::new(),
            annotations: Vec::new(),
            types_global_values: Vec::new(),
            functions: Vec::new(),
        };
        assert(module.capabilities.deep_view() =~= Seq::empty());
        assert(module.extensions.deep_view() =~= Seq::empty());
        assert(module.ext_inst_imports.deep_view() =~= Seq::empty());
        assert(module.entry_points.deep_view() =~= Seq::empty());
        assert(module.execution_modes.deep_view() =~= Seq::empty());
        assert(module.debug_names.deep_view() =~= Seq::empty());
        assert(module.annotations.deep_view() =~= Seq::empty());
        assert(module.types_global_values.deep_view() =~= Seq::empty());
        assert(module.functions.deep_view() =~= Seq::empty());
        BuilderSpirv { module, next_id: 1 }
    }

    /// How many ids can still be drawn.
    pub open spec fn ids_left(&self) -> int {
        u32::MAX - self.next_id
    }

    /// Draws a fresh id: the counter's value, which then goes up by one.
    pub fn id(&mut self) -> (r: Word)
        requires
            old(self).ids_left() >= 1,
        ensures
            r == old(self).next_id,
            final(self)@ == old(self)@.after_ids(1),
    {
        let r = self.next_id;
        self.next_id = self.next_id + 1;
        r
    }

    /// Puts `i` at the end of the types, constants and global variables.
    pub fn insert_types_global_values(&mut self, i: Instruction)
        ensures
            final(self)@ == old(self)@.push_global(i@),
    {
        let ghost before = self.module.types_global_values.deep_view();
        self.module.types_global_values.push(i);
        assert(self.module.types_global_values.deep_view() =~= before.push(i@));
    }

    /// Puts `i` at the end of the annotations.
    pub fn annotate(&mut self, i: Instruction)
        ensures
            final(self)@ == old(self)@.push_annotation(i@),
    {
        let ghost before = self.module.annotations.deep_view();
        self.module.annotations.push(i);
        assert(self.module.annotations.deep_view() =~= before.push(i@));
    }

    /// Tells whether `cursor` points at a block of the module.
    pub fn has_cursor(&self, cursor: SpirvBlockCursor) -> (r: bool)
        ensures
            r == self@.has_cursor(cursor),
    {
        let f = cursor.parent_fn.index_in_builder;
        f < self.module.functions.len() && cursor.index_in_builder
            < self.module.functions[f].blocks.len()
    }

    /// Puts `i` into the block at `cursor`, first or last.
    pub fn insert_into_block(&mut self, cursor: SpirvBlockCursor, point: InsertPoint, i: Instruction)
        requires
            old(self)@.has_cursor(cursor),
        ensures
            final(self)@ == old(self)@.insert_at(cursor, point, i@),
            final(self)@.has_cursor(cursor),
    {
        let f = cursor.parent_fn.index_in_builder;
        let b = cursor.index_in_builder;
        let ghost fs = self.module.functions.deep_view();
        let ghost bs = self.module.functions[f as int].blocks.deep_view();
        let ghost is = self.module.functions[f as int].blocks[b as int].instructions.deep_view();
        let ghost iv = i@;
        match point {
            InsertPoint::Begin => {
                self.module.functions[f].blocks[b].instructions.insert(0, i);
                assert(self.module.functions[f as int].blocks[b as int].instructions.deep_view()
                    =~= seq![iv] + is);
            },
            InsertPoint::End => {
                self.module.functions[f].blocks[b].instructions.push(i);
                assert(self.module.functions[f as int].blocks[b as int].instructions.deep_view()
                    =~= is.push(iv));
            },
        }
        assert(self.module.functions[f as int].blocks.deep_view() =~= bs.update(
            b as int,
            self.module.functions[f as int].blocks[b as int]@,
        ));
        assert(self.module.functions.deep_view() =~= fs.update(
            f as int,
            self.module.functions[f as int]@,
        ));
    }

    /// Opens a function and returns its cursor. The function starts with
    /// its parameters and no block.
    pub fn begin_function(&mut self, def: Instruction, ty: Word, id: Word, parameters: Vec<Instruction>)
        -> (r: SpirvFunctionCursor)
        ensures
            r == (SpirvFunctionCursor {
                ty,
                id,
                index_in_builder: old(self).module.functions.len(),
            }),
            final(self)@ == old(self)@.with_module(
                ModuleView {
                    functions: old(self)@.module.functions.push(
                        FunctionView {
                            def: Some(def@),
                            end: None,
                            parameters: parameters.deep_view(),
                            blocks: Seq::empty(),
                        },
                    ),
                    ..old(self)@.module
                },
            ),
    {
        let index = self.module.functions.len();
        let ghost fs = self.module.functions.deep_view();
        let func = Function { def: Some(def), end: None, parameters, blocks: Vec::new() };
        assert(func.blocks.deep_view() =~= Seq::empty());
        self.module.functions.push(func);
        assert(self.module.functions.deep_view() =~= fs.push(func@));
        SpirvFunctionCursor { ty, id, index_in_builder: index }
    }

    /// Opens a block with the given label at the end of the function at
    /// `func`, and returns its cursor.
    pub fn begin_block(&mut self, func: SpirvFunctionCursor, label: Word) -> (r: SpirvBlockCursor)
        requires
            func.index_in_builder < old(self).module.functions.len(),
        ensures
            r == (SpirvBlockCursor {
                parent_fn: func,
                id: label,
                index_in_builder: old(self).module.functions[func.index_in_builder as int].blocks.len(),
            }),
            final(self)@.has_cursor(r),
            final(self)@.insts_at(r) == Seq::<InstructionView>::empty(),
            final(self)@ == old(self)@.with_module(
                ModuleView {
                    functions: old(self)@.module.functions.update(
                        func.index_in_builder as int,
                        FunctionView {
                            blocks: old(self)@.module.functions[func.index_in_builder as int].blocks.push(
                                BlockView {
                                    label: Some(
                                        inst(crate::grammar::OP_LABEL, None, Some(label), Seq::empty()),
                                    ),
                                    instructions: Seq::empty(),
                                },
                            ),
                            ..old(self)@.module.functions[func.index_in_builder as int]
                        },
                    ),
                    ..old(self)@.module
                },
            ),
    {
        let f = func.index_in_builder;
        let index = self.module.functions[f].blocks.len();
        let ghost fs = self.module.functions.deep_view();
        let ghost bs = self.module.functions[f as int].blocks.deep_view();
        let label_inst = Instruction::new(crate::grammar::OP_LABEL, None, Some(label), Vec::new());
        assert(label_inst.operands.deep_view() =~= Seq::empty());
        let block = Block { label: Some(label_inst), instructions: Vec::new() };
        assert(block.instructions.deep_view() =~= Seq::empty());
        self.module.functions[f].blocks.push(block);
        assert(self.module.functions[f as int].blocks.deep_view() =~= bs.push(block@));
        assert(self.module.functions.deep_view() =~= fs.update(
            f as int,
            self.module.functions[f as int]@,
        ));
        SpirvBlockCursor { parent_fn: func, id: label, index_in_builder: index }
    }

    /// Ends the building: the module, with the id bound in its header.
    pub fn finalize(self, version: (u8, u8)) -> (r: Module)
        ensures
            r@ == (ModuleView {
                header: Some(
                    ModuleHeader {
                        version_major: version.0,
                        version_minor: version.1,
                        generator: 0,
                        bound: self.next_id,
                        schema: 0,
                    },
                ),
                ..self@.module
            }),
    {
        let mut module = self.module;
        module.header = Some(
            ModuleHeader {
                version_major: version.0,
                version_minor: version.1,
                generator: 0,
                bound: self.next_id,
                schema: 0,
            },
        );
        module
    }
}

/// What a value is: an id that an instruction defined, or one of the
/// special cases that get an id in one step.
#[derive(Clone, Copy, Debug, PartialEq, Eq, Structural)]
pub enum SpirvValueKind {
    /// The result of the instruction with this id.
    Def(Word),
    /// A constant that is not legal to use; the id is that of its stand-in.
    IllegalConst(Word),
    /// The address of the function with this id.
    FnAddr { function: Word },
}

/// A value and the id of its type.
#[derive(Clone, Copy, Debug, PartialEq, Eq, Structural)]
pub struct SpirvValue {
    pub kind: SpirvValueKind,
    pub ty: Word,
}

impl SpirvValue {
    /// The value that the instruction with id `id` defines, of type `ty`.
    pub fn with_type(id: Word, ty: Word) -> (r: SpirvValue)
        ensures
            r == (SpirvValue { kind: SpirvValueKind::Def(id), ty }),
    {
        SpirvValue { kind: SpirvValueKind::Def(id), ty }
    }
}

} // verus!
