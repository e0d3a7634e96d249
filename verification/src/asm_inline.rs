//! A whole block of inline assembly: its template is cut into lines of
//! tokens, each line is lowered, and the block's end is checked.

use vstd::prelude::*;
use crate::asm_ids::{holds_id, token_in_range, tokens_in_range};
use crate::builder::{BldView, Builder};
use crate::diag::Span;
use crate::grammar::{OP_BITCAST, OP_LABEL};
use crate::module::{
    inst, InsertPoint, Instruction, Operand, OperandView, SpirvValue, SpirvValueKind, Word,
};
use crate::spirv_asm::{
    lex_line_spec, lex_word_spec, AsmBlock, AsmBlockView, AsmOperandView, AsmState, AsmStateView,
    InlineAsmOperandRef, LexStep, OperandRef, PlaceRef, Token, TokenView, TypeofKind,
};
use crate::spirv_type::{SpirvType, SpirvTypeView};
use crate::text::{concat2, push_char, split, split_on, str_eq};

verus! {

/// One piece of the template of a block of assembly.
#[derive(Clone, Debug, PartialEq, Eq)]
pub enum InlineAsmTemplatePiece {
    /// Text, which may hold several lines.
    String(String),
    /// A hole for the operand with the index `operand_idx`.
    Placeholder { operand_idx: usize, modifier: Option<char>, span: Span },
}

/// The mathematical content of an [`InlineAsmTemplatePiece`].
pub enum PieceView {
    String(Seq<char>),
    Placeholder { operand_idx: usize, modifier: Option<char>, span: Span },
}

impl View for InlineAsmTemplatePiece {
    type V = PieceView;

    open spec fn view(&self) -> PieceView {
        match self {
            InlineAsmTemplatePiece::String(s) => PieceView::String(s@),
            InlineAsmTemplatePiece::Placeholder { operand_idx, modifier, span } => {
                PieceView::Placeholder {
                    operand_idx: *operand_idx,
                    modifier: *modifier,
                    span: *span,
                }
            },
        }
    }
}

impl DeepView for InlineAsmTemplatePiece {
    type V = PieceView;

    open spec fn deep_view(&self) -> PieceView {
        self@
    }
}

/// The options of a block of assembly.
#[derive(Clone, Copy, Debug, PartialEq, Eq, Structural)]
pub struct InlineAsmOptions {
    pub pure_: bool,
    pub nomem: bool,
    pub readonly: bool,
    pub preserves_flags: bool,
    pub noreturn: bool,
    pub nostack: bool,
    pub att_syntax: bool,
    pub raw: bool,
    pub may_unwind: bool,
}

/// `list`, with `name` added after ` | ` if `set` holds.
pub open spec fn with_flag(list: Seq<char>, set: bool, name: Seq<char>) -> Seq<char> {
    if !set {
        list
    } else if list.len() == 0 {
        name
    } else {
        list + " | "@ + name
    }
}

impl InlineAsmOptions {
    /// Whether an option is set that the lowering does not support: any
    /// but `noreturn`.
    pub open spec fn has_unsupported(self) -> bool {
        self.pure_ || self.nomem || self.readonly || self.preserves_flags || self.nostack
            || self.att_syntax || self.raw || self.may_unwind
    }

    /// The names of the options that are set and not supported, with
    /// ` | ` between them.
    pub open spec fn unsupported_text(self) -> Seq<char> {
        with_flag(
            with_flag(
                with_flag(
                    with_flag(
                        with_flag(
                            with_flag(
                                with_flag(
                                    with_flag(Seq::empty(), self.pure_, "PURE"@),
                                    self.nomem,
                                    "NOMEM"@,
                                ),
                                self.readonly,
                                "READONLY"@,
                            ),
                            self.preserves_flags,
                            "PRESERVES_FLAGS"@,
                        ),
                        self.nostack,
                        "NOSTACK"@,
                    ),
                    self.att_syntax,
                    "ATT_SYNTAX"@,
                ),
                self.raw,
                "RAW"@,
            ),
            self.may_unwind,
            "MAY_UNWIND"@,
        )
    }
}

/// `list`, with `name` added after ` | ` if `set` holds.
fn add_flag(list: String, set: bool, name: &str) -> (r: String)
    ensures
        r@ == with_flag(list@, set, name@),
{
    if !set {
        list
    } else if list.as_str().unicode_len() == 0 {
        assert(list@ + name@ =~= name@);
        list.concat(name)
    } else {
        list.concat(" | ").concat(name)
    }
}

/// The line `line` without the carriage return at its end, if it has one.
pub open spec fn strip_cr(line: Seq<char>) -> Seq<char> {
    if line.len() > 0 && line.last() == '\r' {
        line.drop_last()
    } else {
        line
    }
}

/// Whether no token of any line names an operand beyond the `count` that
/// there are.
pub open spec fn lines_in_range(lines: Seq<Seq<TokenView>>, count: nat) -> bool {
    forall|i: int| 0 <= i < lines.len() ==> tokens_in_range(#[trigger] lines[i], count)
}

/// `lines` with the tokens `more` at the end of its last line.
pub open spec fn extend_last(lines: Seq<Seq<TokenView>>, more: Seq<TokenView>) -> Seq<
    Seq<TokenView>,
> {
    lines.update(lines.len() - 1, lines.last() + more)
}

/// Which `typeof` the token asks for, if it is the word for one.
pub open spec fn typeof_word(token: TokenView) -> Option<TypeofKind> {
    if token == TokenView::Word("typeof"@) {
        Some(TypeofKind::Plain)
    } else if token == TokenView::Word("typeof*"@) {
        Some(TypeofKind::Dereference)
    } else {
        None
    }
}

impl BldView {
    /// The value `val` as a value of the type `ty`: itself where it has
    /// that type, else the result of a cast that is appended to the
    /// current block. Where no id is left the value stays as it is.
    #[verifier::opaque]
    pub open spec fn pointercast(self, val: SpirvValue, ty: Word) -> (BldView, SpirvValue) {
        if val.ty == ty {
            (self, val)
        } else {
            let (b1, source) = self.try_def_value(val);
            match source {
                None => (b1, val),
                Some(s) => {
                    let (b2, id) = b1.fresh_id();
                    match id {
                        None => (b2, val),
                        Some(r) => (
                            b2.push(inst(OP_BITCAST, Some(ty), Some(r), seq![OperandView::IdRef(s)])),
                            SpirvValue { kind: SpirvValueKind::Def(r), ty },
                        ),
                    }
                },
            }
        }
    }

    /// The value as the host's layout types it: a pointer is cast to the
    /// precise type of the layout.
    pub open spec fn sharpen_value(self, v: OperandRef) -> (BldView, OperandRef) {
        if v.is_pointer {
            let (b, cast) = self.pointercast(v.immediate, v.precise_type);
            (b, OperandRef { immediate: cast, ..v })
        } else {
            (self, v)
        }
    }

    /// The place as the host's layout types it: its pointer is cast to the
    /// type of pointers to the precise type of the layout.
    #[verifier::opaque]
    pub open spec fn sharpen_place(self, place: Option<PlaceRef>) -> (BldView, Option<PlaceRef>) {
        match place {
            None => (self, None),
            Some(p) => {
                let (b1, ptr) = self.try_def_type(SpirvTypeView::Pointer { pointee: p.precise_type });
                match ptr {
                    None => (b1, Some(p)),
                    Some(t) => {
                        let (b2, cast) = b1.pointercast(p.llval, t);
                        (b2, Some(PlaceRef { llval: cast, ..p }))
                    },
                }
            },
        }
    }

    /// The operand with its pointers typed as the host's layout types
    /// them.
    #[verifier::opaque]
    pub open spec fn sharpen_one(self, op: AsmOperandView) -> (BldView, AsmOperandView) {
        match op {
            AsmOperandView::In { reg, value } => {
                let (b, v) = self.sharpen_value(value);
                (b, AsmOperandView::In { reg, value: v })
            },
            AsmOperandView::Out { reg, late, place } => {
                let (b, p) = self.sharpen_place(place);
                (b, AsmOperandView::Out { reg, late, place: p })
            },
            AsmOperandView::InOut { reg, late, in_value, out_place } => {
                let (b1, v) = self.sharpen_value(in_value);
                let (b2, p) = b1.sharpen_place(out_place);
                (b2, AsmOperandView::InOut { reg, late, in_value: v, out_place: p })
            },
            other => (self, other),
        }
    }

    /// The first `k` of the operands, sharpened in order.
    pub open spec fn sharpen(self, operands: Seq<AsmOperandView>, k: nat) -> (
        BldView,
        Seq<AsmOperandView>,
    )
        decreases k,
    {
        if k == 0 {
            (self, Seq::empty())
        } else {
            let (b, done) = self.sharpen(operands, (k - 1) as nat);
            let (b2, op) = b.sharpen_one(operands[k - 1]);
            (b2, done.push(op))
        }
    }

    /// The builder after the types of the first `k` operands were noted:
    /// each operand that is only read has the type of its value.
    pub open spec fn note_inputs(self, operands: Seq<AsmOperandView>, k: nat) -> BldView
        decreases k,
    {
        if k == 0 {
            self
        } else {
            let b = self.note_inputs(operands, (k - 1) as nat);
            match operands[k - 1] {
                AsmOperandView::In { value, .. } => {
                    let (b2, id) = b.try_def_value(value.immediate);
                    match id {
                        Some(w) => b2.with_asm(
                            AsmStateView {
                                id_to_type_map: b2.asm_state.id_to_type_map.push(
                                    (w, value.immediate.ty),
                                ),
                                ..b2.asm_state
                            },
                        ),
                        None => b2,
                    }
                },
                _ => b,
            }
        }
    }

    /// The builder and the lines after the first `k` of the lines of text
    /// `items` were lexed: each but the first starts a new line; what is
    /// lexed joins the last line; an error in lexing is reported and
    /// drops the rest of its line.
    pub open spec fn add_text(self, lines: Seq<Seq<TokenView>>, items: Seq<Seq<char>>, k: nat) -> (
        BldView,
        Seq<Seq<TokenView>>,
    )
        decreases k,
    {
        if k == 0 {
            (self, lines)
        } else {
            let (b, l) = self.add_text(lines, items, (k - 1) as nat);
            let started = if k - 1 != 0 {
                l.push(Seq::empty())
            } else {
                l
            };
            let lexed = lex_line_spec(strip_cr(items[k - 1]), 0);
            (
                match lexed.1 {
                    Some(m) => b.err(m),
                    None => b,
                },
                extend_last(started, lexed.0),
            )
        }
    }

    /// The builder and the lines after a hole for the operand `idx` was
    /// read: after the word `typeof` or `typeof*` it turns that word into
    /// the type of the operand; else a constant adds its text as a word,
    /// and any other operand adds a placeholder. A modifier is reported.
    #[verifier::opaque]
    pub open spec fn add_placeholder(
        self,
        lines: Seq<Seq<TokenView>>,
        operands: Seq<AsmOperandView>,
        idx: usize,
        modifier: Option<char>,
        span: Span,
    ) -> (BldView, Seq<Seq<TokenView>>) {
        let b = match modifier {
            Some(m) => self.span_err(span, "asm modifiers are not supported: "@.push(m)),
            None => self,
        };
        let line = lines.last();
        let kind = if line.len() > 0 {
            typeof_word(line.last())
        } else {
            None
        };
        (
            b,
            match kind {
                Some(k) => lines.update(
                    lines.len() - 1,
                    line.update(line.len() - 1, TokenView::Typeof(idx, span, k)),
                ),
                None => extend_last(
                    lines,
                    seq![
                        match operands[idx as int] {
                            AsmOperandView::Const { string } => TokenView::Word(string),
                            _ => TokenView::Placeholder(idx, span),
                        },
                    ],
                ),
            },
        )
    }

    /// The builder and the lines of tokens after the first `k` pieces of
    /// the template were read. There is one line to start with.
    pub open spec fn tokenize(
        self,
        template: Seq<PieceView>,
        operands: Seq<AsmOperandView>,
        k: nat,
    ) -> (BldView, Seq<Seq<TokenView>>)
        decreases k,
    {
        if k == 0 {
            (self, seq![Seq::<TokenView>::empty()])
        } else {
            let (b, lines) = self.tokenize(template, operands, (k - 1) as nat);
            match template[k - 1] {
                PieceView::String(text) => {
                    let items = split_on(text, '\n');
                    b.add_text(lines, items, items.len())
                },
                PieceView::Placeholder { operand_idx, modifier, span } => b.add_placeholder(
                    lines,
                    operands,
                    operand_idx,
                    modifier,
                    span,
                ),
            }
        }
    }

    /// The builder after the first `k` lines were lowered.
    pub open spec fn lower_lines(
        self,
        operands: Seq<AsmOperandView>,
        lines: Seq<Seq<TokenView>>,
        k: nat,
    ) -> BldView
        decreases k,
    {
        if k == 0 {
            self
        } else {
            self.lower_lines(operands, lines, (k - 1) as nat).codegen_asm(operands, lines[k - 1])
        }
    }

    /// The builder after the end of the block was checked against the
    /// option `noreturn`: with it, the block must end in a terminator,
    /// after which a fresh label opens a block for what follows; without
    /// it, the block must not end in a terminator.
    #[verifier::opaque]
    pub open spec fn check_end(self, noreturn: bool) -> BldView {
        match self.asm_state.asm_block {
            AsmBlockView::Open => if noreturn {
                self.err("`noreturn` requires a terminator at the end"@)
            } else {
                self
            },
            AsmBlockView::End { opname, .. } => if noreturn {
                let (b, id) = self.fresh_id();
                match id {
                    Some(label) => b.push(inst(OP_LABEL, None, Some(label), Seq::empty())),
                    None => b,
                }
            } else {
                self.err(
                    "trailing terminator `Op"@ + opname + "` requires `options(noreturn)`"@,
                )
            },
        }
    }

    /// The builder after the first `k` names of the block were checked:
    /// each that no line defines is reported.
    pub open spec fn check_defined(self, names: Seq<(Seq<char>, Word)>, defined: Seq<Word>, k: nat)
        -> BldView
        decreases k,
    {
        if k == 0 {
            self
        } else {
            let b = self.check_defined(names, defined, (k - 1) as nat);
            if defined.contains(names[k - 1].1) {
                b
            } else {
                b.err("%"@ + names[k - 1].0 + " is used but not defined"@)
            }
        }
    }

    /// The builder after a block of assembly was lowered: options other
    /// than `noreturn` are reported; the operands are sharpened; the
    /// template is cut into lines of tokens; each line is lowered; the end
    /// of the block is checked; and every name that is used must be
    /// defined.
    pub open spec fn codegen_inline_asm(
        self,
        template: Seq<PieceView>,
        operands: Seq<AsmOperandView>,
        options: InlineAsmOptions,
    ) -> BldView {
        let b0 = if options.has_unsupported() {
            self.err("asm flags not supported: "@ + options.unsupported_text())
        } else {
            self
        };
        let (b1, sharp) = b0.sharpen(operands, operands.len());
        let (b2, lines) = b1.tokenize(template, sharp, template.len());
        let b3 = b2.with_asm(AsmStateView::start()).note_inputs(sharp, sharp.len());
        let b4 = b3.lower_lines(sharp, lines, lines.len());
        let b5 = b4.check_end(options.noreturn);
        b5.check_defined(b5.asm_state.id_map, b5.asm_state.defined_ids, b5.asm_state.id_map.len())
    }
}

/// A small vector of `smallvec`, of operands.
#[verifier::external_body]
pub struct OperandBuffer {
    items: smallvec::SmallVec<[InlineAsmOperandRef; 8]>,
}

/// The operands that the buffer holds, in the order in which they were
/// put there.
pub uninterp spec fn buffered(buffer: OperandBuffer) -> Seq<AsmOperandView>;

/// `smallvec::SmallVec::new`: a buffer that holds nothing.
#[verifier::external_body]
fn operands_new() -> (r: OperandBuffer)
    ensures
        buffered(r) == Seq::<AsmOperandView>::empty(),
{
    OperandBuffer { items: smallvec::SmallVec::new() }
}

/// `smallvec::SmallVec::push`: the operand is put after those that the
/// buffer holds.
#[verifier::external_body]
fn operands_push(buffer: &mut OperandBuffer, operand: InlineAsmOperandRef)
    ensures
        buffered(*final(buffer)) == buffered(*old(buffer)).push(operand@),
{
    buffer.items.push(operand);
}

/// `smallvec::SmallVec::into_vec`: the operands that the buffer holds, in
/// their order, as a vector.
#[verifier::external_body]
fn operands_into_vec(buffer: OperandBuffer) -> (r: Vec<InlineAsmOperandRef>)
    ensures
        r.deep_view() == buffered(buffer),
{
    buffer.items.into_vec()
}

/// A copy of an operand of a block of assembly.
pub fn inline_asm_operand_ref_clone(operand: &InlineAsmOperandRef) -> (r: InlineAsmOperandRef)
    ensures
        r@ == operand@,
{
    match operand {
        InlineAsmOperandRef::In { reg, value } => InlineAsmOperandRef::In {
            reg: clone_reg(reg),
            value: *value,
        },
        InlineAsmOperandRef::Out { reg, late, place } => InlineAsmOperandRef::Out {
            reg: clone_reg(reg),
            late: *late,
            place: *place,
        },
        InlineAsmOperandRef::InOut { reg, late, in_value, out_place } => InlineAsmOperandRef::InOut {
            reg: clone_reg(reg),
            late: *late,
            in_value: *in_value,
            out_place: *out_place,
        },
        InlineAsmOperandRef::Const { string } => InlineAsmOperandRef::Const {
            string: string.clone(),
        },
        InlineAsmOperandRef::SymFn => InlineAsmOperandRef::SymFn,
        InlineAsmOperandRef::SymStatic => InlineAsmOperandRef::SymStatic,
        InlineAsmOperandRef::Label => InlineAsmOperandRef::Label,
    }
}

/// A copy of a register.
fn clone_reg(reg: &crate::spirv_asm::InlineAsmRegOrRegClass) -> (r:
    crate::spirv_asm::InlineAsmRegOrRegClass)
    ensures
        r@ == reg@,
{
    match reg {
        crate::spirv_asm::InlineAsmRegOrRegClass::SpirvReg => {
            crate::spirv_asm::InlineAsmRegOrRegClass::SpirvReg
        },
        crate::spirv_asm::InlineAsmRegOrRegClass::Other(s) => {
            crate::spirv_asm::InlineAsmRegOrRegClass::Other(s.clone())
        },
    }
}

/// The line without the carriage return at its end, if it has one.
pub fn without_cr(line: &str) -> (r: String)
    ensures
        r@ == strip_cr(line@),
{
    let n = line.unicode_len();
    if n > 0 && line.get_char(n - 1) == '\r' {
        let cut = String::from_str(line.substring_char(0, n - 1));
        assert(line@.subrange(0, n - 1) =~= line@.drop_last());
        cut
    } else {
        String::from_str(line)
    }
}

impl Builder {
    /// The value `val` as a value of the type `ty`.
    pub fn pointercast(&mut self, val: SpirvValue, ty: Word) -> (r: SpirvValue)
        requires
            old(self)@.wf(),
        ensures
            (final(self)@, r) == old(self)@.pointercast(val, ty),
            final(self)@.wf(),
    {
        reveal(BldView::pointercast);
        if val.ty == ty {
            return val;
        }
        match self.try_def_value(val) {
            None => val,
            Some(source) => match self.fresh_id() {
                None => val,
                Some(id) => {
                    let mut ops: Vec<Operand> = Vec::new();
                    ops.push(Operand::IdRef(source));
                    let cast = Instruction::new(OP_BITCAST, Some(ty), Some(id), ops);
                    assert(cast.operands.deep_view() =~= seq![OperandView::IdRef(source)]);
                    self.insert(InsertPoint::End, cast);
                    SpirvValue::with_type(id, ty)
                },
            },
        }
    }

    /// The value as the host's layout types it.
    pub fn sharpen_value(&mut self, v: OperandRef) -> (r: OperandRef)
        requires
            old(self)@.wf(),
        ensures
            (final(self)@, r) == old(self)@.sharpen_value(v),
            final(self)@.wf(),
    {
        if v.is_pointer {
            let cast = self.pointercast(v.immediate, v.precise_type);
            OperandRef { immediate: cast, is_pointer: v.is_pointer, precise_type: v.precise_type }
        } else {
            v
        }
    }

    /// The place as the host's layout types it.
    pub fn sharpen_place(&mut self, place: Option<PlaceRef>) -> (r: Option<PlaceRef>)
        requires
            old(self)@.wf(),
        ensures
            (final(self)@, r) == old(self)@.sharpen_place(place),
            final(self)@.wf(),
    {
        reveal(BldView::sharpen_place);
        match place {
            None => None,
            Some(p) => match self.try_def_type(SpirvType::Pointer { pointee: p.precise_type }) {
                None => Some(p),
                Some(t) => {
                    let cast = self.pointercast(p.llval, t);
                    Some(PlaceRef { llval: cast, precise_type: p.precise_type })
                },
            },
        }
    }

    /// The operand with its pointers typed as the host's layout types
    /// them.
    pub fn sharpen_one(&mut self, op: &InlineAsmOperandRef) -> (r: InlineAsmOperandRef)
        requires
            old(self)@.wf(),
        ensures
            (final(self)@, r@) == old(self)@.sharpen_one(op@),
            final(self)@.wf(),
    {
        reveal(BldView::sharpen_one);
        match op {
            InlineAsmOperandRef::In { reg, value } => {
                let v = self.sharpen_value(*value);
                InlineAsmOperandRef::In { reg: clone_reg(reg), value: v }
            },
            InlineAsmOperandRef::Out { reg, late, place } => {
                let p = self.sharpen_place(*place);
                InlineAsmOperandRef::Out { reg: clone_reg(reg), late: *late, place: p }
            },
            InlineAsmOperandRef::InOut { reg, late, in_value, out_place } => {
                let v = self.sharpen_value(*in_value);
                let p = self.sharpen_place(*out_place);
                InlineAsmOperandRef::InOut {
                    reg: clone_reg(reg),
                    late: *late,
                    in_value: v,
                    out_place: p,
                }
            },
            other => inline_asm_operand_ref_clone(other),
        }
    }

    /// The operands, sharpened in order.
    pub fn sharpen(&mut self, operands: &Vec<InlineAsmOperandRef>) -> (r: Vec<InlineAsmOperandRef>)
        requires
            old(self)@.wf(),
        ensures
            (final(self)@, r.deep_view()) == old(self)@.sharpen(
                operands.deep_view(),
                operands.len() as nat,
            ),
            r.len() == operands.len(),
            final(self)@.wf(),
    {
        let mut out = operands_new();
        let mut i: usize = 0;
        while i < operands.len()
            invariant
                i <= operands.len(),
                buffered(out).len() == i,
                self@.wf(),
                (self@, buffered(out)) == old(self)@.sharpen(operands.deep_view(), i as nat),
            decreases operands.len() - i,
        {
            assert(operands.deep_view()[i as int] == operands@[i as int]@);
            let op = self.sharpen_one(&operands[i]);
            operands_push(&mut out, op);
            i += 1;
        }
        let sharp = operands_into_vec(out);
        assert(sharp.len() == sharp.deep_view().len());
        sharp
    }

    /// Notes the types of the operands that are only read.
    pub fn note_inputs(&mut self, operands: &Vec<InlineAsmOperandRef>)
        requires
            old(self)@.wf(),
        ensures
            final(self)@ == old(self)@.note_inputs(operands.deep_view(), operands.len() as nat),
            final(self)@.wf(),
    {
        let mut i: usize = 0;
        while i < operands.len()
            invariant
                i <= operands.len(),
                self@.wf(),
                self@ == old(self)@.note_inputs(operands.deep_view(), i as nat),
            decreases operands.len() - i,
        {
            assert(operands.deep_view()[i as int] == operands@[i as int]@);
            match &operands[i] {
                InlineAsmOperandRef::In { value, .. } => {
                    match self.try_def_value(value.immediate) {
                        Some(w) => {
                            self.asm_state.id_to_type_map.push((w, value.immediate.ty));
                        },
                        None => {},
                    }
                },
                _ => {},
            }
            i += 1;
        }
    }

    /// Lexes the lines of `text` into `lines`: each line but the first
    /// starts a new line of tokens.
    fn add_text(&mut self, lines: &mut Vec<Vec<Token>>, text: &str, Ghost(count): Ghost<nat>)
        requires
            old(self)@.wf(),
            old(lines).len() >= 1,
            lines_in_range(old(lines).deep_view(), count),
        ensures
            final(self)@.wf(),
            (final(self)@, final(lines).deep_view()) == old(self)@.add_text(
                old(lines).deep_view(),
                split_on(text@, '\n'),
                split_on(text@, '\n').len(),
            ),
            final(lines).len() >= 1,
            lines_in_range(final(lines).deep_view(), count),
    {
        let items = split(text, '\n');
        let ghost all = items.deep_view();
        let mut j: usize = 0;
        while j < items.len()
            invariant
                j <= items.len(),
                all == items.deep_view(),
                all == split_on(text@, '\n'),
                self@.wf(),
                lines.len() >= 1,
                lines_in_range(lines.deep_view(), count),
                (self@, lines.deep_view()) == old(self)@.add_text(
                    old(lines).deep_view(),
                    all,
                    j as nat,
                ),
            decreases items.len() - j,
        {
            assert(all[j as int] == items@[j as int]@);
            let ghost l = lines.deep_view();
            if j != 0 {
                let fresh: Vec<Token> = Vec::new();
                assert(fresh.deep_view() =~= Seq::<TokenView>::empty());
                lines.push(fresh);
                assert(lines.deep_view() =~= l.push(Seq::empty()));
            }
            let ghost started = lines.deep_view();
            let line = without_cr(items[j].as_str());
            let mut current = match lines.pop() {
                Some(c) => c,
                None => Vec::new(),
            };
            let ghost rest = lines.deep_view();
            assert(rest =~= started.drop_last());
            assert(current.deep_view() == started.last());
            self.lex_line(line.as_str(), &mut current);
            let ghost extended = current.deep_view();
            lines.push(current);
            proof {
                assert(lines.deep_view() =~= extend_last(started, lex_line_spec(line@, 0).0));
                lemma_lexed_in_range(line@, 0, count);
                assert forall|i: int| 0 <= i < lines.deep_view().len() implies tokens_in_range(
                    #[trigger] lines.deep_view()[i],
                    count,
                ) by {
                    if i < started.len() - 1 {
                        assert(lines.deep_view()[i] == started[i]);
                        if j != 0 && i < l.len() {
                            assert(started[i] == l[i]);
                        }
                    } else {
                        let old_last = started.last();
                        if j == 0 {
                            assert(old_last == l[l.len() - 1]);
                        }
                        assert(tokens_in_range(old_last, count));
                    }
                }
            }
            j += 1;
        }
    }

    /// Reads a hole for the operand `idx` into `lines`.
    pub fn add_placeholder(
        &mut self,
        lines: &mut Vec<Vec<Token>>,
        operands: &Vec<InlineAsmOperandRef>,
        idx: usize,
        modifier: Option<char>,
        span: Span,
    )
        requires
            old(self)@.wf(),
            old(lines).len() >= 1,
            idx < operands.len(),
            lines_in_range(old(lines).deep_view(), operands.len() as nat),
        ensures
            final(self)@.wf(),
            (final(self)@, final(lines).deep_view()) == old(self)@.add_placeholder(
                old(lines).deep_view(),
                operands.deep_view(),
                idx,
                modifier,
                span,
            ),
            final(lines).len() >= 1,
            lines_in_range(final(lines).deep_view(), operands.len() as nat),
    {
        reveal(BldView::add_placeholder);
        match modifier {
            Some(m) => {
                let mut msg = String::from_str("asm modifiers are not supported: ");
                push_char(&mut msg, m);
                self.span_err(span, msg);
            },
            None => {},
        }
        let ghost before = lines.deep_view();
        let mut line = match lines.pop() {
            Some(c) => c,
            None => Vec::new(),
        };
        let ghost rest = lines.deep_view();
        assert(rest =~= before.drop_last());
        let ghost lv = line.deep_view();
        assert(lv == before.last());
        assert(tokens_in_range(before[before.len() - 1], operands.len() as nat));
        let kind = if line.len() > 0 {
            assert(lv[lv.len() - 1] == line@[line.len() - 1]@);
            match &line[line.len() - 1] {
                Token::Word(w) => {
                    if str_eq(w.as_str(), "typeof") {
                        Some(TypeofKind::Plain)
                    } else if str_eq(w.as_str(), "typeof*") {
                        Some(TypeofKind::Dereference)
                    } else {
                        None
                    }
                },
                _ => None,
            }
        } else {
            None
        };
        match kind {
            Some(k) => {
                let last = line.len() - 1;
                line.set(last, Token::Typeof(idx, span, k));
                assert(line.deep_view() =~= lv.update(lv.len() - 1, TokenView::Typeof(idx, span, k)));
            },
            None => {
                assert(operands.deep_view()[idx as int] == operands@[idx as int]@);
                let token = match &operands[idx] {
                    InlineAsmOperandRef::Const { string } => Token::Word(string.clone()),
                    _ => Token::Placeholder(idx, span),
                };
                let ghost tv = token@;
                line.push(token);
                assert(line.deep_view() =~= lv + seq![tv]);
            },
        }
        let ghost new_line = line.deep_view();
        lines.push(line);
        proof {
            assert(lines.deep_view() =~= before.update(before.len() - 1, new_line));
            assert forall|i: int| 0 <= i < lines.deep_view().len() implies tokens_in_range(
                #[trigger] lines.deep_view()[i],
                operands.len() as nat,
            ) by {
                if i < before.len() - 1 {
                    assert(lines.deep_view()[i] == before[i]);
                } else {
                    assert forall|t: int| 0 <= t < new_line.len() implies token_in_range(
                        #[trigger] new_line[t],
                        operands.len() as nat,
                    ) by {
                        if t < lv.len() && new_line[t] == lv[t] {
                            assert(token_in_range(lv[t], operands.len() as nat));
                        }
                    }
                }
            }
        }
    }

    /// Cuts the template into lines of tokens.
    pub fn tokenize(
        &mut self,
        template: &Vec<InlineAsmTemplatePiece>,
        operands: &Vec<InlineAsmOperandRef>,
    ) -> (lines: Vec<Vec<Token>>)
        requires
            old(self)@.wf(),
            template_in_range(template.deep_view(), operands.len() as nat),
        ensures
            final(self)@.wf(),
            (final(self)@, lines.deep_view()) == old(self)@.tokenize(
                template.deep_view(),
                operands.deep_view(),
                template.len() as nat,
            ),
            lines_in_range(lines.deep_view(), operands.len() as nat),
    {
        let mut lines: Vec<Vec<Token>> = Vec::new();
        let fresh: Vec<Token> = Vec::new();
        assert(fresh.deep_view() =~= Seq::<TokenView>::empty());
        lines.push(fresh);
        assert(lines.deep_view() =~= seq![Seq::<TokenView>::empty()]);
        let mut i: usize = 0;
        while i < template.len()
            invariant
                i <= template.len(),
                self@.wf(),
                lines.len() >= 1,
                template_in_range(template.deep_view(), operands.len() as nat),
                lines_in_range(lines.deep_view(), operands.len() as nat),
                (self@, lines.deep_view()) == old(self)@.tokenize(
                    template.deep_view(),
                    operands.deep_view(),
                    i as nat,
                ),
            decreases template.len() - i,
        {
            assert(template.deep_view()[i as int] == template@[i as int]@);
            match &template[i] {
                InlineAsmTemplatePiece::String(text) => {
                    self.add_text(&mut lines, text.as_str(), Ghost(operands.len() as nat));
                },
                InlineAsmTemplatePiece::Placeholder { operand_idx, modifier, span } => {
                    self.add_placeholder(&mut lines, operands, *operand_idx, *modifier, *span);
                },
            }
            i += 1;
        }
        lines
    }

    /// Checks the end of the block against the option `noreturn`.
    pub fn check_end(&mut self, noreturn: bool)
        requires
            old(self)@.wf(),
        ensures
            final(self)@ == old(self)@.check_end(noreturn),
            final(self)@.wf(),
    {
        reveal(BldView::check_end);
        let mut trailing: Option<String> = None;
        let ended = match &self.asm_state.asm_block {
            AsmBlock::Open => false,
            AsmBlock::End { opname, .. } => {
                trailing = Some(opname.clone());
                true
            },
        };
        if !ended {
            if noreturn {
                self.err_str("`noreturn` requires a terminator at the end");
            }
        } else if noreturn {
            match self.fresh_id() {
                Some(label) => {
                    let i = Instruction::new(OP_LABEL, None, Some(label), Vec::new());
                    assert(i.operands.deep_view() =~= Seq::<OperandView>::empty());
                    self.insert(InsertPoint::End, i);
                },
                None => {},
            }
        } else {
            match trailing {
                Some(opname) => {
                    self.err(
                        concat2("trailing terminator `Op", opname.as_str()).concat(
                            "` requires `options(noreturn)`",
                        ),
                    );
                },
                None => {},
            }
        }
    }

    /// Reports every name of the block that no line defines.
    pub fn check_defined(&mut self)
        requires
            old(self)@.wf(),
        ensures
            final(self)@ == old(self)@.check_defined(
                old(self)@.asm_state.id_map,
                old(self)@.asm_state.defined_ids,
                old(self)@.asm_state.id_map.len(),
            ),
            final(self)@.wf(),
    {
        let ghost names = self@.asm_state.id_map;
        let ghost defined = self@.asm_state.defined_ids;
        let mut i: usize = 0;
        while i < self.asm_state.id_map.len()
            invariant
                i <= self.asm_state.id_map.len(),
                self@.wf(),
                self.asm_state.id_map.len() == names.len(),
                self@.asm_state == old(self)@.asm_state,
                names == old(self)@.asm_state.id_map,
                defined == old(self)@.asm_state.defined_ids,
                self@ == old(self)@.check_defined(names, defined, i as nat),
            decreases self.asm_state.id_map.len() - i,
        {
            assert(names[i as int] == (
                self.asm_state.id_map@[i as int].0@,
                self.asm_state.id_map@[i as int].1,
            ));
            let num = self.asm_state.id_map[i].1;
            if !holds_id(&self.asm_state.defined_ids, num) {
                let msg = concat2("%", self.asm_state.id_map[i].0.as_str()).concat(
                    " is used but not defined",
                );
                self.err(msg);
                assert(self.asm_state.id_map.deep_view().len() == names.len());
            }
            i += 1;
        }
    }

    /// Reports the options that are set and not supported.
    pub fn report_unsupported(&mut self, options: InlineAsmOptions)
        ensures
            final(self)@ == if options.has_unsupported() {
                old(self)@.err("asm flags not supported: "@ + options.unsupported_text())
            } else {
                old(self)@
            },
    {
        if options.pure_ || options.nomem || options.readonly || options.preserves_flags
            || options.nostack || options.att_syntax || options.raw || options.may_unwind {
            let mut text = String::new();
            text = add_flag(text, options.pure_, "PURE");
            text = add_flag(text, options.nomem, "NOMEM");
            text = add_flag(text, options.readonly, "READONLY");
            text = add_flag(text, options.preserves_flags, "PRESERVES_FLAGS");
            text = add_flag(text, options.nostack, "NOSTACK");
            text = add_flag(text, options.att_syntax, "ATT_SYNTAX");
            text = add_flag(text, options.raw, "RAW");
            text = add_flag(text, options.may_unwind, "MAY_UNWIND");
            self.err(concat2("asm flags not supported: ", text.as_str()));
        }
    }

    /// Lowers the lines of a block, in order.
    pub fn lower_lines(&mut self, operands: &Vec<InlineAsmOperandRef>, lines: &Vec<Vec<Token>>)
        requires
            old(self)@.wf(),
            lines_in_range(lines.deep_view(), operands.len() as nat),
        ensures
            final(self)@ == old(self)@.lower_lines(
                operands.deep_view(),
                lines.deep_view(),
                lines.len() as nat,
            ),
            final(self)@.wf(),
    {
        let ghost all = lines.deep_view();
        let mut i: usize = 0;
        while i < lines.len()
            invariant
                i <= lines.len(),
                self@.wf(),
                all == lines.deep_view(),
                lines_in_range(all, operands.len() as nat),
                self@ == old(self)@.lower_lines(operands.deep_view(), all, i as nat),
            decreases lines.len() - i,
        {
            assert(all[i as int] == lines@[i as int].deep_view());
            assert(tokens_in_range(all[i as int], operands.len() as nat));
            self.codegen_asm(operands, &lines[i]);
            i += 1;
        }
    }

    /// Starts the state of a block of assembly afresh.
    pub fn reset_asm_state(&mut self)
        ensures
            final(self)@ == old(self)@.with_asm(AsmStateView::start()),
    {
        self.asm_state = AsmState::new();
    }

    /// Lowers a block of inline assembly. The only option that is
    /// supported is `noreturn`.
    pub fn codegen_inline_asm(
        &mut self,
        template: &Vec<InlineAsmTemplatePiece>,
        operands: &Vec<InlineAsmOperandRef>,
        options: InlineAsmOptions,
    )
        requires
            old(self)@.wf(),
            template_in_range(template.deep_view(), operands.len() as nat),
        ensures
            final(self)@ == old(self)@.codegen_inline_asm(
                template.deep_view(),
                operands.deep_view(),
                options,
            ),
            final(self)@.wf(),
    {
        self.report_unsupported(options);
        let sharp = self.sharpen(operands);
        let lines = self.tokenize(template, &sharp);
        self.reset_asm_state();
        self.note_inputs(&sharp);
        self.lower_lines(&sharp, &lines);
        self.check_end(options.noreturn);
        self.check_defined();
    }
}

/// Whether every hole of the template names an operand among the `count`
/// that there are.
pub open spec fn template_in_range(template: Seq<PieceView>, count: nat) -> bool {
    forall|i: int|
        0 <= i < template.len() ==> (#[trigger] template[i] matches PieceView::Placeholder {
            operand_idx,
            ..
        } ==> operand_idx < count)
}

/// The tokens that lexing finds never name an operand.
pub proof fn lemma_lexed_in_range(line: Seq<char>, i: int, count: nat)
    requires
        0 <= i <= line.len(),
    ensures
        tokens_in_range(lex_line_spec(line, i).0, count),
    decreases line.len() - i,
{
    match lex_word_spec(line, i) {
        LexStep::Token(t, next) => {
            if i < next <= line.len() {
                lemma_lexed_in_range(line, next, count);
                let rest = lex_line_spec(line, next).0;
                assert forall|j: int| 0 <= j < (seq![t] + rest).len() implies token_in_range(
                    #[trigger] (seq![t] + rest)[j],
                    count,
                ) by {
                    crate::spirv_asm::lemma_lex_gives_text(line, i);
                    if j > 0 {
                        assert((seq![t] + rest)[j] == rest[j - 1]);
                    }
                }
            } else {
                crate::spirv_asm::lemma_lex_gives_text(line, i);
            }
        },
        _ => {},
    }
}

} // verus!
