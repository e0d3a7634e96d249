//! The function builder: a cursor into one basic block of the module, with
//! the span that reports point at.

use vstd::prelude::*;
use crate::codegen_cx::{CodegenCx, CxView};
use crate::diag::{error_at, fatal_at, Diagnostic, DiagnosticView, Level, Span};
use crate::module::{InsertPoint, Instruction, InstructionView, SpirvBlockCursor, SpirvValue, Word};
use crate::spirv_asm::{AsmState, AsmStateView};
use crate::spirv_type::{type_of, SpirvType, SpirvTypeView};

verus! {

/// The builder of one function's code.
#[derive(Debug, PartialEq, Eq)]
pub struct Builder {
    pub cx: CodegenCx,
    /// The block that instructions go to.
    pub current_block: SpirvBlockCursor,
    /// The place in the source that reports point at, if one is known.
    pub current_span: Option<Span>,
    /// The state of the block of assembly that is being lowered.
    pub asm_state: AsmState,
}

/// The mathematical content of a [`Builder`].
pub struct BldView {
    pub cx: CxView,
    pub current_block: SpirvBlockCursor,
    pub current_span: Option<Span>,
    pub asm_state: AsmStateView,
}

impl View for Builder {
    type V = BldView;

    open spec fn view(&self) -> BldView {
        BldView {
            cx: self.cx@,
            current_block: self.current_block,
            current_span: self.current_span,
            asm_state: self.asm_state@,
        }
    }
}

/// The words of the fatal report that no id is left to draw.
pub open spec fn out_of_ids() -> Seq<char> {
    "the module has no id left for a new type or value"@
}

impl BldView {
    /// Whether the context is well-formed and the cursor points at a block
    /// of the module.
    pub open spec fn wf(self) -> bool {
        self.cx.wf() && self.cx.builder.has_cursor(self.current_block)
    }

    /// The builder with another context.
    pub open spec fn with_cx(self, cx: CxView) -> BldView {
        BldView { cx, ..self }
    }

    /// The builder with another state of assembly.
    pub open spec fn with_asm(self, asm_state: AsmStateView) -> BldView {
        BldView { asm_state, ..self }
    }

    /// The builder after `d` was reported.
    pub open spec fn emit(self, d: DiagnosticView) -> BldView {
        self.with_cx(self.cx.emit(d))
    }

    /// The builder after an error was reported at the current span.
    pub open spec fn err(self, message: Seq<char>) -> BldView {
        self.emit(error_at(self.current_span, message))
    }

    /// The builder after an error was reported at `span`.
    pub open spec fn span_err(self, span: Span, message: Seq<char>) -> BldView {
        self.emit(error_at(Some(span), message))
    }

    /// The current span, or the dummy span where none is known.
    pub open spec fn span(self) -> Span {
        match self.current_span {
            Some(s) => s,
            None => Span::dummy_spec(),
        }
    }

    /// The instructions of the current block.
    pub open spec fn block(self) -> Seq<InstructionView> {
        self.cx.builder.insts_at(self.current_block)
    }

    /// The builder with `i` put into the current block.
    pub open spec fn insert(self, point: InsertPoint, i: InstructionView) -> BldView {
        self.with_cx(
            self.cx.with_builder(self.cx.builder.insert_at(self.current_block, point, i)),
        )
    }

    /// The builder with `i` at the end of the current block.
    pub open spec fn push(self, i: InstructionView) -> BldView {
        self.insert(InsertPoint::End, i)
    }

    /// Drawing an id where one may be lacking: the id, or else the fatal
    /// report that none is left.
    pub open spec fn fresh_id(self) -> (BldView, Option<Word>) {
        if self.cx.ids_left() >= 1 {
            (
                self.with_cx(self.cx.with_builder(self.cx.builder.after_ids(1))),
                Some(self.cx.builder.next_id),
            )
        } else {
            (self.emit(fatal_at(self.current_span, out_of_ids())), None)
        }
    }

    /// Defining a type where an id may be lacking: the type's id, or else
    /// the fatal report that no id is left for a type that the cache does
    /// not hold.
    pub open spec fn try_def_type(self, t: SpirvTypeView) -> (BldView, Option<Word>) {
        if self.cx.can_def_type(t) {
            (self.with_cx(self.cx.def_type(t).0), Some(self.cx.def_type(t).1))
        } else {
            (self.emit(fatal_at(self.current_span, out_of_ids())), None)
        }
    }

    /// Giving a value its id where an id may be lacking: the value's id,
    /// or else the fatal report that no id is left for a value that needs
    /// a new one.
    pub open spec fn try_def_value(self, v: SpirvValue) -> (BldView, Option<Word>) {
        if self.cx.can_def_value(v) {
            (self.with_cx(self.cx.def_value(v).0), Some(self.cx.def_value(v).1))
        } else {
            (self.emit(fatal_at(self.current_span, out_of_ids())), None)
        }
    }
}

impl Builder {
    /// A builder on the block at `block`, with no span.
    pub fn new(cx: CodegenCx, block: SpirvBlockCursor) -> (r: Builder)
        ensures
            r@ == (BldView {
                cx: cx@,
                current_block: block,
                current_span: None,
                asm_state: AsmStateView::start(),
            }),
    {
        Builder { cx, current_block: block, current_span: None, asm_state: AsmState::new() }
    }

    /// The module builder, to write to the current block through. The
    /// block is reached with the builder's cursor.
    pub fn emit(&mut self) -> (r: &mut crate::module::BuilderSpirv)
        ensures
            *r == old(self).cx.builder,
            final(self).cx.builder == *final(r),
            final(self).current_block == old(self).current_block,
            final(self).current_span == old(self).current_span,
            final(self).asm_state == old(self).asm_state,
            final(self).cx.type_cache == old(self).cx.type_cache,
            final(self).cx.dcx == old(self).cx.dcx,
            final(self).cx.zombie_decorations == old(self).cx.zombie_decorations,
            final(self).cx.const_cache == old(self).cx.const_cache,
            final(self).cx.instruction_table == old(self).cx.instruction_table,
            final(self).cx.i8_i16_atomics_allowed == old(self).cx.i8_i16_atomics_allowed,
            final(self).cx.codegen_args == old(self).cx.codegen_args,
            final(self).cx.pointer_size_bits == old(self).cx.pointer_size_bits,
            final(self).cx.spirv_version == old(self).cx.spirv_version,
            final(self).cx.features == old(self).cx.features,
    {
        &mut self.cx.builder
    }

    /// Reports `d`.
    pub fn emit_diagnostic(&mut self, d: Diagnostic)
        ensures
            final(self)@ == old(self)@.emit(d@),
    {
        self.cx.emit_diagnostic(d);
    }

    /// An error at the current span, for the caller to add notes to and
    /// to report.
    pub fn struct_err(&self, msg: String) -> (r: Diagnostic)
        ensures
            r@ == error_at(self.current_span, msg@),
    {
        Diagnostic::new(Level::Error, self.current_span, msg)
    }

    /// Reports an error at the current span.
    pub fn err(&mut self, msg: String)
        ensures
            final(self)@ == old(self)@.err(msg@),
    {
        let d = Diagnostic::new(Level::Error, self.current_span, msg);
        self.cx.emit_diagnostic(d);
    }

    /// Reports an error at `span`.
    pub fn span_err(&mut self, span: Span, msg: String)
        ensures
            final(self)@ == old(self)@.span_err(span, msg@),
    {
        let d = Diagnostic::new(Level::Error, Some(span), msg);
        self.cx.emit_diagnostic(d);
    }

    /// The fatal report with the given words at the current span. The
    /// caller ends the compilation with it.
    pub fn fatal(&self, msg: String) -> (r: Diagnostic)
        ensures
            r@ == fatal_at(self.current_span, msg@),
    {
        Diagnostic::new(Level::Fatal, self.current_span, msg)
    }

    /// The current span, or the dummy span where none is known.
    pub fn span(&self) -> (r: Span)
        ensures
            r == self@.span(),
    {
        match self.current_span {
            Some(s) => s,
            None => Span::dummy(),
        }
    }

    /// Puts `i` into the current block.
    pub fn insert(&mut self, point: InsertPoint, i: Instruction)
        requires
            old(self)@.wf(),
        ensures
            final(self)@ == old(self)@.insert(point, i@),
            final(self)@.wf(),
    {
        self.cx.builder.insert_into_block(self.current_block, point, i);
    }

    /// Draws an id, or reports that none is left.
    pub fn fresh_id(&mut self) -> (r: Option<Word>)
        requires
            old(self)@.wf(),
        ensures
            (final(self)@, r) == old(self)@.fresh_id(),
            final(self)@.wf(),
            final(self)@.cx.types == old(self)@.cx.types,
    {
        if self.cx.builder.next_id < u32::MAX {
            Some(self.cx.builder.id())
        } else {
            let d = Diagnostic::new(
                Level::Fatal,
                self.current_span,
                String::from_str("the module has no id left for a new type or value"),
            );
            self.cx.emit_diagnostic(d);
            None
        }
    }

    /// Defines a type, or reports that no id is left.
    pub fn try_def_type(&mut self, t: SpirvType) -> (r: Option<Word>)
        requires
            old(self)@.wf(),
        ensures
            (final(self)@, r) == old(self)@.try_def_type(t@),
            final(self)@.wf(),
            r.is_some() ==> type_of(final(self)@.cx.types, r.unwrap()) == Some(t@),
    {
        if self.cx.can_def_type(&t) {
            Some(self.cx.def_type(t))
        } else {
            let d = Diagnostic::new(
                Level::Fatal,
                self.current_span,
                String::from_str("the module has no id left for a new type or value"),
            );
            self.cx.emit_diagnostic(d);
            None
        }
    }

    /// Gives a value its id, or reports that no id is left.
    pub fn try_def_value(&mut self, v: SpirvValue) -> (r: Option<Word>)
        requires
            old(self)@.wf(),
        ensures
            (final(self)@, r) == old(self)@.try_def_value(v),
            final(self)@.wf(),
            final(self)@.cx.types == old(self)@.cx.types,
    {
        if self.cx.can_def_value(v) {
            Some(self.cx.def_value(v))
        } else {
            let d = Diagnostic::new(
                Level::Fatal,
                self.current_span,
                String::from_str("the module has no id left for a new type or value"),
            );
            self.cx.emit_diagnostic(d);
            None
        }
    }

    /// Marks `word` a zombie, with the current span if there is one.
    pub fn zombie(&mut self, word: Word, reason: &str)
        ensures
            final(self)@ == old(self)@.with_cx(
                old(self)@.cx.zombie(word, old(self)@.span(), reason@),
            ),
    {
        match self.current_span {
            Some(current_span) => self.cx.zombie_with_span(word, current_span, reason),
            None => self.cx.zombie_no_span(word, reason),
        }
    }

    /// The id of the type of pointers to `ty`.
    pub fn type_ptr_to(&mut self, ty: Word) -> (r: Word)
        requires
            old(self)@.wf(),
            old(self)@.cx.can_def_type(SpirvTypeView::Pointer { pointee: ty }),
        ensures
            (final(self)@, r) == (
                old(self)@.with_cx(
                    old(self)@.cx.def_type(SpirvTypeView::Pointer { pointee: ty }).0,
                ),
                old(self)@.cx.def_type(SpirvTypeView::Pointer { pointee: ty }).1,
            ),
            final(self)@.wf(),
    {
        self.cx.def_type(SpirvType::Pointer { pointee: ty })
    }
}

} // verus!
