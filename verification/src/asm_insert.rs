//! What becomes of a line of assembly once it is parsed: a type is
//! interned, a variable goes where its storage class puts it, and any
//! other instruction is appended to the current block.

use vstd::prelude::*;
use crate::asm_ids::holds_id;
use crate::builder::{BldView, Builder};
use crate::diag::{Diagnostic, DiagnosticView, Level};
use crate::enumerants::{storage_class_text, storage_class_written};
use crate::grammar::{
    is_block_terminator, is_block_terminator_spec, OperandKind, OP_LABEL, OP_RETURN,
    OP_RETURN_VALUE, OP_TYPE_ACCELERATION_STRUCTURE_KHR, OP_TYPE_ARRAY, OP_TYPE_BOOL,
    OP_TYPE_FLOAT, OP_TYPE_IMAGE, OP_TYPE_INT, OP_TYPE_MATRIX, OP_TYPE_POINTER,
    OP_TYPE_RAY_QUERY_KHR, OP_TYPE_RUNTIME_ARRAY, OP_TYPE_SAMPLED_IMAGE, OP_TYPE_SAMPLER,
    OP_TYPE_STRUCT, OP_TYPE_VECTOR, OP_TYPE_VOID, OP_VARIABLE, STORAGE_CLASS_FUNCTION,
    STORAGE_CLASS_GENERIC,
};
use crate::module::{
    InsertPoint, Instruction, InstructionView, Operand, OperandView, SpirvBlockCursor, Word,
};
use crate::spirv_asm::{AsmBlock, AsmBlockView, AsmStateView};
use crate::spirv_type::{SpirvType, SpirvTypeView};
use crate::text::concat2;

verus! {

/// Whether an instruction with the opcode declares a type that assembly
/// may declare.
pub open spec fn is_asm_type(opcode: u32) -> bool {
    ||| opcode == OP_TYPE_VOID
    ||| opcode == OP_TYPE_BOOL
    ||| opcode == OP_TYPE_INT
    ||| opcode == OP_TYPE_FLOAT
    ||| opcode == OP_TYPE_VECTOR
    ||| opcode == OP_TYPE_MATRIX
    ||| opcode == OP_TYPE_RUNTIME_ARRAY
    ||| opcode == OP_TYPE_POINTER
    ||| opcode == OP_TYPE_IMAGE
    ||| opcode == OP_TYPE_SAMPLED_IMAGE
    ||| opcode == OP_TYPE_SAMPLER
    ||| opcode == OP_TYPE_ACCELERATION_STRUCTURE_KHR
    ||| opcode == OP_TYPE_RAY_QUERY_KHR
}

/// The id that the operand refers to, if it is a plain reference.
pub open spec fn as_id_ref(op: OperandView) -> Option<Word> {
    match op {
        OperandView::IdRef(w) => Some(w),
        _ => None,
    }
}

/// The 32 bits of the operand, if it is a literal of that width.
pub open spec fn as_bit32(op: OperandView) -> Option<u32> {
    match op {
        OperandView::LiteralBit32(v) => Some(v),
        _ => None,
    }
}

/// The value of the operand, if it is an enumerant of the kind `kind`.
pub open spec fn as_enumerant(op: OperandView, kind: OperandKind) -> Option<u32> {
    match op {
        OperandView::Enumerant(k, v) => if k == kind {
            Some(v)
        } else {
            None
        },
        _ => None,
    }
}

/// The type that the instruction declares, where its opcode is that of
/// a type that assembly may declare and its operands are of the shape
/// that the opcode asks for.
pub open spec fn declared_type(i: InstructionView) -> Option<SpirvTypeView> {
    let ops = i.operands;
    if i.opcode == OP_TYPE_VOID {
        Some(SpirvTypeView::Void)
    } else if i.opcode == OP_TYPE_BOOL {
        Some(SpirvTypeView::Bool)
    } else if i.opcode == OP_TYPE_SAMPLER {
        Some(SpirvTypeView::Sampler)
    } else if i.opcode == OP_TYPE_ACCELERATION_STRUCTURE_KHR {
        Some(SpirvTypeView::AccelerationStructureKhr)
    } else if i.opcode == OP_TYPE_RAY_QUERY_KHR {
        Some(SpirvTypeView::RayQueryKhr)
    } else if i.opcode == OP_TYPE_INT {
        if ops.len() >= 2 {
            match (as_bit32(ops[0]), as_bit32(ops[1])) {
                (Some(width), Some(sign)) => Some(SpirvTypeView::Integer(width, sign != 0)),
                _ => None,
            }
        } else {
            None
        }
    } else if i.opcode == OP_TYPE_FLOAT {
        if ops.len() >= 1 {
            match as_bit32(ops[0]) {
                Some(width) => Some(SpirvTypeView::Float(width)),
                None => None,
            }
        } else {
            None
        }
    } else if i.opcode == OP_TYPE_VECTOR || i.opcode == OP_TYPE_MATRIX {
        if ops.len() >= 2 {
            match (as_id_ref(ops[0]), as_bit32(ops[1])) {
                (Some(element), Some(count)) => Some(
                    if i.opcode == OP_TYPE_VECTOR {
                        SpirvTypeView::Vector { element, count }
                    } else {
                        SpirvTypeView::Matrix { element, count }
                    },
                ),
                _ => None,
            }
        } else {
            None
        }
    } else if i.opcode == OP_TYPE_RUNTIME_ARRAY || i.opcode == OP_TYPE_SAMPLED_IMAGE {
        if ops.len() >= 1 {
            match as_id_ref(ops[0]) {
                Some(inner) => Some(
                    if i.opcode == OP_TYPE_RUNTIME_ARRAY {
                        SpirvTypeView::RuntimeArray { element: inner }
                    } else {
                        SpirvTypeView::SampledImage { image_type: inner }
                    },
                ),
                None => None,
            }
        } else {
            None
        }
    } else if i.opcode == OP_TYPE_POINTER {
        if ops.len() >= 2 {
            match (as_enumerant(ops[0], OperandKind::StorageClass), as_id_ref(ops[1])) {
                (Some(_), Some(pointee)) => Some(SpirvTypeView::Pointer { pointee }),
                _ => None,
            }
        } else {
            None
        }
    } else if i.opcode == OP_TYPE_IMAGE {
        if ops.len() >= 7 {
            match (
                as_id_ref(ops[0]),
                as_enumerant(ops[1], OperandKind::Dim),
                as_bit32(ops[2]),
                as_bit32(ops[3]),
                as_bit32(ops[4]),
                as_bit32(ops[5]),
                as_enumerant(ops[6], OperandKind::ImageFormat),
            ) {
                (
                    Some(sampled_type),
                    Some(dim),
                    Some(depth),
                    Some(arrayed),
                    Some(multisampled),
                    Some(sampled),
                    Some(image_format),
                ) => Some(
                    SpirvTypeView::Image {
                        sampled_type,
                        dim,
                        depth,
                        arrayed,
                        multisampled,
                        sampled,
                        image_format,
                    },
                ),
                _ => None,
            }
        } else {
            None
        }
    } else {
        None
    }
}

/// The storage class that a declaration of a pointer type names, where it
/// is not `Generic`.
pub open spec fn stray_storage_class(i: InstructionView) -> Option<u32> {
    if i.opcode == OP_TYPE_POINTER && i.operands.len() >= 1 {
        match as_enumerant(i.operands[0], OperandKind::StorageClass) {
            Some(class) => if class != STORAGE_CLASS_GENERIC {
                Some(class)
            } else {
                None
            },
            None => None,
        }
    } else {
        None
    }
}

/// The warning that a pointer type was declared in the storage class with
/// the number `class`, which will be inferred all the same.
pub open spec fn storage_class_warning(span: Option<crate::diag::Span>, class: u32)
    -> DiagnosticView {
    DiagnosticView {
        level: Level::Warning,
        span,
        message: "TypePointer in asm! requires `Generic` storage class"@,
        notes: seq!["`"@ + storage_class_text(class) + "` storage class was specified"@],
        helps: seq![
            "the storage class will be inferred automatically (e.g. to `"@ + storage_class_text(
                class,
            ) + "`)"@,
        ],
    }
}

/// The error that an instruction with the mnemonic `opname` returns from
/// within a block of assembly.
pub open spec fn return_error(span: Option<crate::diag::Span>, opname: Seq<char>)
    -> DiagnosticView {
    DiagnosticView {
        level: Level::Error,
        span,
        message: "using `Op"@ + opname + "` to return from within `asm!` is disallowed"@,
        notes: seq![
            "resuming execution, without falling through the end of the `asm!` block, is always undefined behavior"@,
        ],
        helps: Seq::empty(),
    }
}

/// The ids of `ids` that are not `id`, in order.
pub open spec fn without(ids: Seq<Word>, id: Word) -> Seq<Word>
    decreases ids.len(),
{
    if ids.len() == 0 {
        Seq::empty()
    } else if ids.last() == id {
        without(ids.drop_last(), id)
    } else {
        without(ids.drop_last(), id).push(ids.last())
    }
}

/// The names of `map`, with the id `to` where they had the id `from`.
pub open spec fn renamed(map: Seq<(Seq<char>, Word)>, from: Word, to: Word) -> Seq<
    (Seq<char>, Word),
> {
    Seq::new(
        map.len(),
        |i: int|
            (
                map[i].0,
                if map[i].1 == from {
                    to
                } else {
                    map[i].1
                },
            ),
    )
}

impl AsmStateView {
    /// The state after the type that a line declared under the id `from`
    /// turned out to have the id `to`: the names that stood for `from`
    /// stand for `to`, and if `from` counted as defined, `to` does in its
    /// place.
    pub open spec fn retarget(self, from: Word, to: Word) -> AsmStateView {
        AsmStateView {
            id_map: renamed(self.id_map, from, to),
            defined_ids: if self.defined_ids.contains(from) {
                let rest = without(self.defined_ids, from);
                if rest.contains(to) {
                    rest
                } else {
                    rest.push(to)
                }
            } else {
                self.defined_ids
            },
            ..self
        }
    }

    /// The state after an instruction with the given opcode and mnemonic
    /// was appended, and whether a label was missed: after a terminator,
    /// the next instruction opens a block again, and must be a label.
    pub open spec fn advance(self, opcode: u32, opname: Seq<char>) -> (AsmStateView, Option<
        Seq<char>,
    >) {
        match self.asm_block {
            AsmBlockView::Open => (
                AsmStateView {
                    asm_block: if is_block_terminator_spec(opcode) {
                        AsmBlockView::End { opcode, opname }
                    } else {
                        AsmBlockView::Open
                    },
                    ..self
                },
                None,
            ),
            AsmBlockView::End { opname: terminator, .. } => (
                AsmStateView { asm_block: AsmBlockView::Open, ..self },
                if opcode != OP_LABEL {
                    Some("expected `OpLabel` after terminator `Op"@ + terminator + "`"@)
                } else {
                    None
                },
            ),
        }
    }
}

impl BldView {
    /// The first block of the function that the cursor is in.
    pub open spec fn first_block(self) -> SpirvBlockCursor {
        SpirvBlockCursor { index_in_builder: 0, ..self.current_block }
    }

    /// The builder after a declaration of a type was handled: the type is
    /// interned, and the id that the line gave it is replaced by the id
    /// that the type has. A pointer type outside `Generic` draws a
    /// warning. A declaration whose operands are not of the right shape
    /// is left aside.
    #[verifier::opaque]
    pub open spec fn insert_type(self, i: InstructionView) -> BldView {
        match declared_type(i) {
            None => self,
            Some(t) => {
                let warned = match stray_storage_class(i) {
                    Some(class) => self.emit(storage_class_warning(self.current_span, class)),
                    None => self,
                };
                let (b, id) = warned.try_def_type(t);
                match (id, i.result_id) {
                    (Some(to), Some(from)) => b.with_asm(b.asm_state.retarget(from, to)),
                    _ => b,
                }
            },
        }
    }

    /// The builder after a variable was declared: one of the storage
    /// class `Function` goes to the start of the first block of the
    /// current function, any other to the end of the global section.
    #[verifier::opaque]
    pub open spec fn insert_variable(self, i: InstructionView) -> BldView {
        if i.operands.len() >= 1 && as_enumerant(i.operands[0], OperandKind::StorageClass) == Some(
            STORAGE_CLASS_FUNCTION,
        ) {
            self.with_cx(
                self.cx.with_builder(
                    self.cx.builder.insert_at(self.first_block(), InsertPoint::Begin, i),
                ),
            )
        } else {
            self.with_cx(self.cx.with_builder(self.cx.builder.push_global(i)))
        }
    }

    /// The builder after any other instruction was appended to the current
    /// block. A return is reported, and appended all the same.
    #[verifier::opaque]
    pub open spec fn insert_plain(self, i: InstructionView, opname: Seq<char>) -> BldView {
        let reported = if i.opcode == OP_RETURN || i.opcode == OP_RETURN_VALUE {
            self.emit(return_error(self.current_span, opname))
        } else {
            self
        };
        let pushed = reported.push(i);
        let (state, missed) = pushed.asm_state.advance(i.opcode, opname);
        match missed {
            Some(m) => pushed.err(m).with_asm(state),
            None => pushed.with_asm(state),
        }
    }

    /// The builder after the instruction `i` with the mnemonic `opname`
    /// was put where it belongs.
    pub open spec fn insert_inst(self, i: InstructionView, opname: Seq<char>) -> BldView {
        if i.opcode == OP_TYPE_STRUCT {
            self.err("OpTypeStruct in asm! is not supported yet"@)
        } else if i.opcode == OP_TYPE_ARRAY {
            self.err("OpTypeArray in asm! is not supported yet"@)
        } else if is_asm_type(i.opcode) {
            self.insert_type(i)
        } else if i.opcode == OP_VARIABLE {
            self.insert_variable(i)
        } else {
            self.insert_plain(i, opname)
        }
    }
}

/// The type that the instruction declares.
pub fn read_declared_type(i: &Instruction) -> (r: Option<SpirvType>)
    ensures
        r.deep_view() == declared_type(i@),
{
    let ops = &i.operands;
    let n = ops.len();
    proof {
        assert forall|k: int| 0 <= k < n implies #[trigger] ops.deep_view()[k] == ops@[k]@ by {}
    }
    if i.opcode == OP_TYPE_VOID {
        Some(SpirvType::Void)
    } else if i.opcode == OP_TYPE_BOOL {
        Some(SpirvType::Bool)
    } else if i.opcode == OP_TYPE_SAMPLER {
        Some(SpirvType::Sampler)
    } else if i.opcode == OP_TYPE_ACCELERATION_STRUCTURE_KHR {
        Some(SpirvType::AccelerationStructureKhr)
    } else if i.opcode == OP_TYPE_RAY_QUERY_KHR {
        Some(SpirvType::RayQueryKhr)
    } else if i.opcode == OP_TYPE_INT {
        if n >= 2 {
            match (&ops[0], &ops[1]) {
                (Operand::LiteralBit32(width), Operand::LiteralBit32(sign)) => Some(
                    SpirvType::Integer(*width, *sign != 0),
                ),
                _ => None,
            }
        } else {
            None
        }
    } else if i.opcode == OP_TYPE_FLOAT {
        if n >= 1 {
            match &ops[0] {
                Operand::LiteralBit32(width) => Some(SpirvType::Float(*width)),
                _ => None,
            }
        } else {
            None
        }
    } else if i.opcode == OP_TYPE_VECTOR || i.opcode == OP_TYPE_MATRIX {
        if n >= 2 {
            match (&ops[0], &ops[1]) {
                (Operand::IdRef(element), Operand::LiteralBit32(count)) => {
                    if i.opcode == OP_TYPE_VECTOR {
                        Some(SpirvType::Vector { element: *element, count: *count })
                    } else {
                        Some(SpirvType::Matrix { element: *element, count: *count })
                    }
                },
                _ => None,
            }
        } else {
            None
        }
    } else if i.opcode == OP_TYPE_RUNTIME_ARRAY || i.opcode == OP_TYPE_SAMPLED_IMAGE {
        if n >= 1 {
            match &ops[0] {
                Operand::IdRef(inner) => {
                    if i.opcode == OP_TYPE_RUNTIME_ARRAY {
                        Some(SpirvType::RuntimeArray { element: *inner })
                    } else {
                        Some(SpirvType::SampledImage { image_type: *inner })
                    }
                },
                _ => None,
            }
        } else {
            None
        }
    } else if i.opcode == OP_TYPE_POINTER {
        if n >= 2 {
            match (&ops[0], &ops[1]) {
                (Operand::Enumerant(OperandKind::StorageClass, _), Operand::IdRef(pointee)) => Some(
                    SpirvType::Pointer { pointee: *pointee },
                ),
                _ => None,
            }
        } else {
            None
        }
    } else if i.opcode == OP_TYPE_IMAGE {
        if n >= 7 {
            match (&ops[0], &ops[1], &ops[2], &ops[3], &ops[4], &ops[5], &ops[6]) {
                (
                    Operand::IdRef(sampled_type),
                    Operand::Enumerant(OperandKind::Dim, dim),
                    Operand::LiteralBit32(depth),
                    Operand::LiteralBit32(arrayed),
                    Operand::LiteralBit32(multisampled),
                    Operand::LiteralBit32(sampled),
                    Operand::Enumerant(OperandKind::ImageFormat, image_format),
                ) => Some(
                    SpirvType::Image {
                        sampled_type: *sampled_type,
                        dim: *dim,
                        depth: *depth,
                        arrayed: *arrayed,
                        multisampled: *multisampled,
                        sampled: *sampled,
                        image_format: *image_format,
                    },
                ),
                _ => None,
            }
        } else {
            None
        }
    } else {
        None
    }
}

/// The storage class that a declaration of a pointer type names, where it
/// is not `Generic`.
pub fn read_stray_storage_class(i: &Instruction) -> (r: Option<u32>)
    ensures
        r == stray_storage_class(i@),
{
    if i.opcode == OP_TYPE_POINTER && i.operands.len() >= 1 {
        assert(i.operands.deep_view()[0] == i.operands@[0]@);
        match &i.operands[0] {
            Operand::Enumerant(OperandKind::StorageClass, class) => {
                if *class != STORAGE_CLASS_GENERIC {
                    Some(*class)
                } else {
                    None
                }
            },
            _ => None,
        }
    } else {
        None
    }
}

/// The ids of `ids` that are not `id`, in order.
pub fn remove_id(ids: &Vec<Word>, id: Word) -> (r: Vec<Word>)
    ensures
        r@ == without(ids@, id),
{
    let mut out: Vec<Word> = Vec::new();
    let mut i: usize = 0;
    assert(ids@.subrange(0, 0) =~= Seq::<Word>::empty());
    while i < ids.len()
        invariant
            i <= ids.len(),
            out@ == without(ids@.subrange(0, i as int), id),
        decreases ids.len() - i,
    {
        let ghost upto = ids@.subrange(0, i + 1);
        assert(upto.drop_last() =~= ids@.subrange(0, i as int));
        assert(upto.last() == ids@[i as int]);
        if ids[i] != id {
            out.push(ids[i]);
        }
        i += 1;
    }
    assert(ids@.subrange(0, ids.len() as int) =~= ids@);
    out
}

impl Builder {
    /// Replaces the id `from` by the id `to` in what is known of the block
    /// of assembly.
    pub fn retarget(&mut self, from: Word, to: Word)
        ensures
            final(self)@ == old(self)@.with_asm(old(self)@.asm_state.retarget(from, to)),
    {
        let ghost before = self.asm_state.id_map.deep_view();
        let mut i: usize = 0;
        while i < self.asm_state.id_map.len()
            invariant
                i <= self.asm_state.id_map.len(),
                self.asm_state.id_map.len() == before.len(),
                self@ == old(self)@.with_asm(
                    AsmStateView { id_map: self.asm_state.id_map.deep_view(), ..old(self)@.asm_state },
                ),
                forall|j: int|
                    0 <= j < i ==> #[trigger] self.asm_state.id_map.deep_view()[j] == renamed(
                        before,
                        from,
                        to,
                    )[j],
                forall|j: int|
                    i <= j < before.len() ==> #[trigger] self.asm_state.id_map.deep_view()[j]
                        == before[j],
            decreases self.asm_state.id_map.len() - i,
        {
            let ghost current = self.asm_state.id_map.deep_view();
            assert(current[i as int] == (
                self.asm_state.id_map@[i as int].0@,
                self.asm_state.id_map@[i as int].1,
            ));
            if self.asm_state.id_map[i].1 == from {
                self.asm_state.id_map[i].1 = to;
            }
            proof {
                let after = self.asm_state.id_map.deep_view();
                assert forall|j: int| 0 <= j < before.len() && j != i implies #[trigger] after[j]
                    == current[j] by {}
            }
            i += 1;
        }
        assert(self.asm_state.id_map.deep_view() =~= renamed(before, from, to));
        if holds_id(&self.asm_state.defined_ids, from) {
            let mut rest = remove_id(&self.asm_state.defined_ids, from);
            if !holds_id(&rest, to) {
                rest.push(to);
            }
            self.asm_state.defined_ids = rest;
        }
    }

    /// Interns the type that `i` declares.
    pub fn insert_type(&mut self, i: &Instruction)
        requires
            old(self)@.wf(),
        ensures
            final(self)@ == old(self)@.insert_type(i@),
            final(self)@.wf(),
    {
        reveal(BldView::insert_type);
        match read_declared_type(i) {
            None => {},
            Some(t) => {
                match read_stray_storage_class(i) {
                    Some(class) => {
                        let name = storage_class_written(class);
                        let d = Diagnostic {
                            level: Level::Warning,
                            span: self.current_span,
                            message: String::from_str(
                                "TypePointer in asm! requires `Generic` storage class",
                            ),
                            notes: vec![
                                concat2("`", name.as_str()).concat("` storage class was specified"),
                            ],
                            helps: vec![
                                concat2(
                                    "the storage class will be inferred automatically (e.g. to `",
                                    name.as_str(),
                                ).concat("`)"),
                            ],
                        };
                        assert(d.notes.deep_view() =~= storage_class_warning(
                            self.current_span,
                            class,
                        ).notes);
                        assert(d.helps.deep_view() =~= storage_class_warning(
                            self.current_span,
                            class,
                        ).helps);
                        self.emit_diagnostic(d);
                    },
                    None => {},
                }
                match self.try_def_type(t) {
                    Some(to) => {
                        match i.result_id {
                            Some(from) => {
                                self.retarget(from, to);
                            },
                            None => {},
                        }
                    },
                    None => {},
                }
            },
        }
    }

    /// Declares the variable `i` where its storage class puts it.
    pub fn insert_variable(&mut self, i: Instruction)
        requires
            old(self)@.wf(),
        ensures
            final(self)@ == old(self)@.insert_variable(i@),
            final(self)@.wf(),
    {
        reveal(BldView::insert_variable);
        let in_function = if i.operands.len() >= 1 {
            assert(i.operands.deep_view()[0] == i.operands@[0]@);
            match &i.operands[0] {
                Operand::Enumerant(OperandKind::StorageClass, class) => *class
                    == STORAGE_CLASS_FUNCTION,
                _ => false,
            }
        } else {
            false
        };
        if in_function {
            let first = SpirvBlockCursor {
                parent_fn: self.current_block.parent_fn,
                id: self.current_block.id,
                index_in_builder: 0,
            };
            self.cx.builder.insert_into_block(first, InsertPoint::Begin, i);
        } else {
            self.cx.builder.insert_types_global_values(i);
        }
    }

    /// Appends the instruction `i` to the current block.
    pub fn insert_plain(&mut self, i: Instruction, opname: &str)
        requires
            old(self)@.wf(),
        ensures
            final(self)@ == old(self)@.insert_plain(i@, opname@),
            final(self)@.wf(),
    {
        reveal(BldView::insert_plain);
        let opcode = i.opcode;
        if opcode == OP_RETURN || opcode == OP_RETURN_VALUE {
            let d = Diagnostic {
                level: Level::Error,
                span: self.current_span,
                message: concat2("using `Op", opname).concat(
                    "` to return from within `asm!` is disallowed",
                ),
                notes: vec![
                    String::from_str(
                        "resuming execution, without falling through the end of the `asm!` block, is always undefined behavior",
                    ),
                ],
                helps: Vec::new(),
            };
            assert(d.notes.deep_view() =~= return_error(self.current_span, opname@).notes);
            assert(d.helps.deep_view() =~= return_error(self.current_span, opname@).helps);
            self.emit_diagnostic(d);
        }
        self.insert(InsertPoint::End, i);
        let mut missed: Option<String> = None;
        match &self.asm_state.asm_block {
            AsmBlock::Open => {
                if is_block_terminator(opcode) {
                    self.asm_state.asm_block = AsmBlock::End {
                        opcode,
                        opname: String::from_str(opname),
                    };
                }
            },
            AsmBlock::End { opname: terminator, .. } => {
                if opcode != OP_LABEL {
                    missed = Some(
                        concat2("expected `OpLabel` after terminator `Op", terminator.as_str()).concat(
                            "`",
                        ),
                    );
                }
                self.asm_state.asm_block = AsmBlock::Open;
            },
        }
        match missed {
            Some(m) => {
                self.err(m);
            },
            None => {},
        }
    }

    /// Puts the instruction `inst` with the mnemonic `opname` where it
    /// belongs: a type that assembly may declare is interned; a variable
    /// goes where its storage class puts it; any other instruction is
    /// appended to the current block.
    pub fn insert_inst(&mut self, inst: Instruction, opname: &str)
        requires
            old(self)@.wf(),
        ensures
            final(self)@ == old(self)@.insert_inst(inst@, opname@),
            final(self)@.wf(),
    {
        let opcode = inst.opcode;
        if opcode == OP_TYPE_STRUCT {
            self.err_str("OpTypeStruct in asm! is not supported yet");
        } else if opcode == OP_TYPE_ARRAY {
            self.err_str("OpTypeArray in asm! is not supported yet");
        } else if opcode == OP_TYPE_VOID || opcode == OP_TYPE_BOOL || opcode == OP_TYPE_INT
            || opcode == OP_TYPE_FLOAT || opcode == OP_TYPE_VECTOR || opcode == OP_TYPE_MATRIX
            || opcode == OP_TYPE_RUNTIME_ARRAY || opcode == OP_TYPE_POINTER || opcode
            == OP_TYPE_IMAGE || opcode == OP_TYPE_SAMPLED_IMAGE || opcode == OP_TYPE_SAMPLER
            || opcode == OP_TYPE_ACCELERATION_STRUCTURE_KHR || opcode == OP_TYPE_RAY_QUERY_KHR {
            self.insert_type(&inst);
        } else if opcode == OP_VARIABLE {
            self.insert_variable(inst);
        } else {
            self.insert_plain(inst, opname);
        }
    }
}

} // verus!
