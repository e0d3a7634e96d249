//! One line of assembly: an optional result, an instruction's mnemonic,
//! and its operands as the grammar lists them.

use vstd::prelude::*;
use crate::asm_ids::{token_in_range, tokens_in_range};
use crate::asm_operand::OperandStep;
use crate::builder::{BldView, Builder};
use crate::diag::{error_at, Diagnostic, Level};
use crate::enumerants::{additional_operands_of, additional_spec};
use crate::grammar::{find_by_name, LogicalOperand, OperandKind, OperandQuantifier, OP_STORE};
use crate::module::{inst, Instruction, InstructionView, Operand, OperandView, Word};
use crate::spirv_asm::{
    AsmOperandView, AsmStateView, InlineAsmOperandRef, OutRegister, PlaceRef, Token, TokenView,
};
use crate::text::{concat2, has_prefix, starts_with, str_eq, suffix_from};

verus! {

/// The operands that the operands `pushed` bring after them, in order.
pub open spec fn additional_for(pushed: Seq<OperandView>) -> Seq<LogicalOperand>
    decreases pushed.len(),
{
    if pushed.len() == 0 {
        Seq::empty()
    } else {
        additional_for(pushed.drop_last()) + (match pushed.last() {
            OperandView::Enumerant(kind, value) => additional_spec(kind, value),
            _ => Seq::empty(),
        })
    }
}

/// How far the reading of a line's operands has come.
pub struct ParseState {
    pub bld: BldView,
    /// The instruction as read so far.
    pub inst: InstructionView,
    /// The position of the next token.
    pub pos: int,
    /// Whether the grammar has asked for a result id.
    pub saw_id_result: bool,
    /// Whether the line asks for its result type to be inferred.
    pub need_infer: bool,
    /// Whether an operand that must be there was missing.
    pub stopped: bool,
}

impl ParseState {
    /// The state after one operand was read.
    pub open spec fn after(self, step: OperandStep) -> ParseState {
        ParseState {
            bld: step.bld,
            inst: InstructionView { operands: self.inst.operands + step.pushed, ..self.inst },
            pos: step.next,
            ..self
        }
    }

    /// Reading one operand of the kind `kind`.
    pub open spec fn one(
        self,
        operands: Seq<AsmOperandView>,
        kind: OperandKind,
        tokens: Seq<TokenView>,
    ) -> ParseState {
        self.after(
            self.bld.parse_one_operand(operands, self.inst.result_type, kind, tokens, self.pos),
        )
    }

    /// Reading operands of the kind `kind` for as long as there are
    /// tokens.
    pub open spec fn many(
        self,
        operands: Seq<AsmOperandView>,
        kind: OperandKind,
        tokens: Seq<TokenView>,
    ) -> ParseState
        decreases tokens.len() - self.pos,
    {
        if self.pos < 0 || self.pos >= tokens.len() {
            self
        } else {
            let next = self.one(operands, kind, tokens);
            if self.pos < next.pos <= tokens.len() {
                next.many(operands, kind, tokens)
            } else {
                next
            }
        }
    }

    /// Reading the result type: `_` asks for it to be inferred, anything
    /// else must be an id.
    #[verifier::opaque]
    pub open spec fn result_type_step(
        self,
        operands: Seq<AsmOperandView>,
        opname: Seq<char>,
        tokens: Seq<TokenView>,
    ) -> ParseState {
        if self.pos < 0 || self.pos >= tokens.len() {
            ParseState {
                bld: self.bld.err("instruction "@ + opname + " expects a result type"@),
                ..self
            }
        } else if tokens[self.pos] == TokenView::Word("_"@) {
            ParseState { need_infer: true, pos: self.pos + 1, ..self }
        } else {
            let (b, id) = self.bld.parse_id_in(operands, tokens[self.pos]);
            ParseState {
                bld: b,
                inst: match id {
                    Some(t) => InstructionView { result_type: Some(t), ..self.inst },
                    None => self.inst,
                },
                pos: self.pos + 1,
                ..self
            }
        }
    }

    /// Reading the operands that one logical operand stands for: exactly
    /// one, at most one, or as many as there are. Where the one that must
    /// be there is missing, that is reported and the reading stops.
    pub open spec fn operand_step(
        self,
        lo: LogicalOperand,
        operands: Seq<AsmOperandView>,
        opname: Seq<char>,
        tokens: Seq<TokenView>,
    ) -> ParseState {
        match lo.quantifier {
            OperandQuantifier::One => if self.pos < 0 || self.pos >= tokens.len() {
                ParseState {
                    bld: self.bld.err("expected operand after instruction: "@ + opname),
                    stopped: true,
                    ..self
                }
            } else {
                self.one(operands, lo.kind, tokens)
            },
            OperandQuantifier::ZeroOrOne => self.one(operands, lo.kind, tokens),
            OperandQuantifier::ZeroOrMore => self.many(operands, lo.kind, tokens),
        }
    }

    /// Reading the operands that the logical operands of `queue` stand
    /// for, in order. What an operand brings after it is read next, before
    /// the rest of the queue.
    pub open spec fn parse_queue(
        self,
        queue: Seq<LogicalOperand>,
        operands: Seq<AsmOperandView>,
        opname: Seq<char>,
        tokens: Seq<TokenView>,
    ) -> ParseState
        decreases tokens.len() - self.pos, queue.len(),
    {
        if queue.len() == 0 || self.stopped {
            self
        } else {
            let lo = queue[0];
            let rest = queue.drop_first();
            if lo.kind == OperandKind::IdResult {
                ParseState {
                    bld: if self.inst.result_id.is_none() {
                        self.bld.err("instruction "@ + opname + " expects a result id"@)
                    } else {
                        self.bld
                    },
                    saw_id_result: true,
                    ..self
                }.parse_queue(rest, operands, opname, tokens)
            } else if lo.kind == OperandKind::IdResultType {
                let st = self.result_type_step(operands, opname, tokens);
                if self.pos <= st.pos <= tokens.len() {
                    st.parse_queue(rest, operands, opname, tokens)
                } else {
                    st
                }
            } else {
                let st = self.operand_step(lo, operands, opname, tokens);
                if st.pos == self.pos {
                    st.parse_queue(rest, operands, opname, tokens)
                } else if self.pos < st.pos <= tokens.len() {
                    st.parse_queue(
                        additional_for(
                            st.inst.operands.subrange(
                                self.inst.operands.len() as int,
                                st.inst.operands.len() as int,
                            ),
                        ) + rest,
                        operands,
                        opname,
                        tokens,
                    )
                } else {
                    st
                }
            }
        }
    }

    /// The checks that end the reading of a line's operands: a result id
    /// that the instruction has no use for, tokens that are left over, and
    /// the inference of the result type where the line asks for it.
    #[verifier::opaque]
    pub open spec fn finish(self, opname: Seq<char>, tokens: Seq<TokenView>) -> (
        BldView,
        InstructionView,
    ) {
        if self.stopped {
            (self.bld, self.inst)
        } else {
            let b1 = if !self.saw_id_result && self.inst.result_id.is_some() {
                self.bld.err("instruction "@ + opname + " does not expect a result id"@)
            } else {
                self.bld
            };
            let b2 = if self.pos < tokens.len() {
                b1.emit(error_at(None, "too many operands to instruction: "@ + opname))
            } else {
                b1
            };
            if self.need_infer {
                let (b3, t) = b2.infer_result_type(self.inst);
                match t {
                    Some(ty) => (b3, InstructionView { result_type: Some(ty), ..self.inst }),
                    None => (
                        b3.err(
                            "instruction "@ + opname + " cannot have its result type inferred"@,
                        ),
                        self.inst,
                    ),
                }
            } else {
                (b2, self.inst)
            }
        }
    }
}

impl BldView {
    /// Reading the operands of an instruction from the tokens at `pos` on,
    /// as its grammar `grammar` lists them.
    pub open spec fn parse_operands(
        self,
        operands: Seq<AsmOperandView>,
        grammar: Seq<LogicalOperand>,
        opname: Seq<char>,
        tokens: Seq<TokenView>,
        pos: int,
        i: InstructionView,
    ) -> (BldView, InstructionView) {
        ParseState {
            bld: self,
            inst: i,
            pos,
            saw_id_result: false,
            need_infer: false,
            stopped: false,
        }.parse_queue(grammar, operands, opname, tokens).finish(opname, tokens)
    }

    /// The builder after the result of a line was stored to `place`.
    #[verifier::opaque]
    pub open spec fn store_result(self, place: PlaceRef, result: Word) -> BldView {
        let (b, ptr) = self.try_def_value(place.llval);
        match ptr {
            Some(p) => b.push(
                inst(OP_STORE, None, None, seq![OperandView::IdRef(p), OperandView::IdRef(result)]),
            ),
            None => b,
        }
    }

    /// The builder after the type of a line's result was noted.
    pub open spec fn note_result_type(self, i: InstructionView) -> BldView {
        match (i.result_type, i.result_id) {
            (Some(ty), Some(id)) => self.with_asm(
                AsmStateView {
                    id_to_type_map: self.asm_state.id_to_type_map.push((id, ty)),
                    ..self.asm_state
                },
            ),
            _ => self,
        }
    }

    /// The builder after the instruction whose grammar is at position
    /// `entry` of the table was read from the tokens at `at` on and put
    /// where it belongs. A result that goes to a place gets a fresh id,
    /// which is stored to the place after the instruction.
    #[verifier::opaque]
    pub open spec fn known_instruction(
        self,
        operands: Seq<AsmOperandView>,
        tokens: Seq<TokenView>,
        at: int,
        out: Option<OutRegister>,
        entry: int,
    ) -> BldView {
        let g = self.cx.table@[entry];
        let (b1, result_id) = match out {
            Some(OutRegister::Regular(r)) => (self, Some(r)),
            Some(OutRegister::Place(_)) => self.fresh_id(),
            None => (self, None),
        };
        if out.is_some() && result_id.is_none() {
            b1
        } else {
            let (b2, i) = b1.parse_operands(
                operands,
                g.operands,
                g.opname,
                tokens,
                at,
                inst(g.opcode, None, result_id, Seq::empty()),
            );
            let b4 = b2.note_result_type(i).insert_inst(i, g.opname);
            match (out, result_id) {
                (Some(OutRegister::Place(place)), Some(r)) => b4.store_result(place, r),
                _ => b4,
            }
        }
    }

    /// The builder after the instruction that starts at the token `at`
    /// was handled: its mnemonic must be a word that starts with `Op` and
    /// names an instruction of the grammar.
    pub open spec fn instruction_line(
        self,
        operands: Seq<AsmOperandView>,
        tokens: Seq<TokenView>,
        at: int,
        out: Option<OutRegister>,
    ) -> BldView {
        match tokens[at] {
            TokenView::String(_) => self.err("cannot use a string as an instruction"@),
            TokenView::Placeholder(_, span) => self.span_err(
                span,
                "cannot use a dynamic value as an instruction type"@,
            ),
            TokenView::Typeof(_, span, _) => self.span_err(
                span,
                "cannot use a dynamic value as an instruction type"@,
            ),
            TokenView::Word(name) => {
                let found = if has_prefix(name, "Op"@) {
                    find_by_name(self.cx.table@, name.subrange(2, name.len() as int))
                } else {
                    None
                };
                match found {
                    None => self.err("unknown spirv instruction "@ + name),
                    Some(entry) => self.known_instruction(operands, tokens, at + 1, out, entry),
                }
            },
        }
    }

    /// Whether a line that starts with `first` names its result.
    pub open spec fn starts_with_result(first: TokenView) -> bool {
        match first {
            TokenView::Placeholder(_, _) => true,
            TokenView::Word(w) => has_prefix(w, "%"@),
            _ => false,
        }
    }

    /// The builder after the line with the tokens `tokens` was handled.
    /// An empty line does nothing. A line may start with its result and
    /// `=`; then comes the instruction.
    pub open spec fn codegen_asm(self, operands: Seq<AsmOperandView>, tokens: Seq<TokenView>)
        -> BldView {
        if tokens.len() == 0 {
            self
        } else if BldView::starts_with_result(tokens[0]) {
            let (b, out) = self.parse_id_out(operands, tokens[0]);
            match out {
                None => b,
                Some(reg) => if !(tokens.len() >= 2 && tokens[1] == TokenView::Word("="@)) {
                    b.err("expected equals after result id specifier"@)
                } else if tokens.len() < 3 {
                    b.err("expected instruction after equals"@)
                } else {
                    b.instruction_line(operands, tokens, 2, Some(reg))
                },
            }
        } else {
            self.instruction_line(operands, tokens, 0, None)
        }
    }
}

/// The operands that the operands of `ops` from position `start` on bring
/// after them.
pub fn additional_from(ops: &Vec<Operand>, start: usize) -> (r: Vec<LogicalOperand>)
    requires
        start <= ops.len(),
    ensures
        r@ == additional_for(ops.deep_view().subrange(start as int, ops.len() as int)),
{
    let mut out: Vec<LogicalOperand> = Vec::new();
    let mut i: usize = start;
    assert(ops.deep_view().subrange(start as int, start as int) =~= Seq::<OperandView>::empty());
    while i < ops.len()
        invariant
            start <= i <= ops.len(),
            out@ == additional_for(ops.deep_view().subrange(start as int, i as int)),
        decreases ops.len() - i,
    {
        let ghost upto = ops.deep_view().subrange(start as int, i + 1);
        assert(upto.drop_last() =~= ops.deep_view().subrange(start as int, i as int));
        assert(upto.last() == ops@[i as int]@);
        match &ops[i] {
            Operand::Enumerant(kind, value) => {
                let more = additional_operands_of(*kind, *value);
                let ghost before = out@;
                let mut j: usize = 0;
                while j < more.len()
                    invariant
                        j <= more.len(),
                        out@ == before + more@.subrange(0, j as int),
                    decreases more.len() - j,
                {
                    out.push(more[j]);
                    assert(out@ =~= before + more@.subrange(0, j + 1));
                    j += 1;
                }
                assert(more@.subrange(0, more.len() as int) =~= more@);
            },
            _ => {
                assert(out@ + Seq::<LogicalOperand>::empty() =~= out@);
            },
        }
        i += 1;
    }
    out
}

/// The list `a`, then the list `b` without its first `skip` entries.
pub fn join_queue(a: Vec<LogicalOperand>, b: &Vec<LogicalOperand>, skip: usize) -> (r: Vec<
    LogicalOperand,
>)
    requires
        skip <= b.len(),
    ensures
        r@ == a@ + b@.subrange(skip as int, b.len() as int),
{
    let mut out = a;
    let ghost first = out@;
    let mut i: usize = skip;
    assert(first + b@.subrange(skip as int, skip as int) =~= first);
    while i < b.len()
        invariant
            skip <= i <= b.len(),
            out@ == first + b@.subrange(skip as int, i as int),
        decreases b.len() - i,
    {
        out.push(b[i]);
        assert(out@ =~= first + b@.subrange(skip as int, i + 1));
        i += 1;
    }
    out
}

/// The state with the given parts.
pub open spec fn parse_state(
    bld: BldView,
    i: InstructionView,
    pos: int,
    saw_id_result: bool,
    need_infer: bool,
    stopped: bool,
) -> ParseState {
    ParseState { bld, inst: i, pos, saw_id_result, need_infer, stopped }
}

impl Builder {
    /// Reads the result type of a line: `_` asks for it to be inferred,
    /// anything else must be an id.
    pub fn result_type_step(
        &mut self,
        operands: &Vec<InlineAsmOperandRef>,
        inst: &mut Instruction,
        opname: &str,
        tokens: &Vec<Token>,
        pos: &mut usize,
        need_infer: &mut bool,
    )
        requires
            old(self)@.wf(),
            *old(pos) <= tokens.len(),
            tokens_in_range(tokens.deep_view(), operands.len() as nat),
        ensures
            forall|saw: bool, stopped: bool|
                #![trigger parse_state(old(self)@, old(inst)@, *old(pos) as int, saw, *old(need_infer), stopped)]
                parse_state(
                    final(self)@,
                    final(inst)@,
                    *final(pos) as int,
                    saw,
                    *final(need_infer),
                    stopped,
                ) == parse_state(
                    old(self)@,
                    old(inst)@,
                    *old(pos) as int,
                    saw,
                    *old(need_infer),
                    stopped,
                ).result_type_step(operands.deep_view(), opname@, tokens.deep_view()),
            final(self)@.wf(),
            *old(pos) <= *final(pos) <= tokens.len(),
            final(self)@.cx.table == old(self)@.cx.table,
    {
        reveal(ParseState::result_type_step);
        if *pos >= tokens.len() {
            self.err(concat2("instruction ", opname).concat(" expects a result type"));
            return ;
        }
        let token = &tokens[*pos];
        assert(tokens.deep_view()[*pos as int] == token@);
        assert(token_in_range(tokens.deep_view()[*pos as int], operands.len() as nat));
        *pos = *pos + 1;
        let underscore = match token {
            Token::Word(w) => str_eq(w.as_str(), "_"),
            _ => false,
        };
        if underscore {
            *need_infer = true;
        } else {
            match self.parse_id_in(operands, token) {
                Some(id) => {
                    inst.result_type = Some(id);
                },
                None => {},
            }
        }
    }

    /// Reads the operands that one logical operand stands for. Returns
    /// whether the reading stops because an operand was missing.
    pub fn operand_step(
        &mut self,
        lo: LogicalOperand,
        operands: &Vec<InlineAsmOperandRef>,
        inst: &mut Instruction,
        opname: &str,
        tokens: &Vec<Token>,
        pos: &mut usize,
    ) -> (stopped: bool)
        requires
            old(self)@.wf(),
            *old(pos) <= tokens.len(),
            tokens_in_range(tokens.deep_view(), operands.len() as nat),
        ensures
            forall|saw: bool, need: bool|
                #![trigger parse_state(old(self)@, old(inst)@, *old(pos) as int, saw, need, false)]
                parse_state(final(self)@, final(inst)@, *final(pos) as int, saw, need, stopped)
                    == parse_state(
                    old(self)@,
                    old(inst)@,
                    *old(pos) as int,
                    saw,
                    need,
                    false,
                ).operand_step(lo, operands.deep_view(), opname@, tokens.deep_view()),
            final(self)@.wf(),
            *old(pos) <= *final(pos) <= tokens.len(),
            *old(pos) == *final(pos) ==> final(inst).operands.len() == old(inst).operands.len(),
            final(inst).operands.len() >= old(inst).operands.len(),
            final(self)@.cx.table == old(self)@.cx.table,
    {
        let ghost before = inst.operands.deep_view();
        match lo.quantifier {
            OperandQuantifier::One => {
                if *pos >= tokens.len() {
                    self.err(concat2("expected operand after instruction: ", opname));
                    return true;
                }
                let _ = self.parse_one_operand(operands, inst, lo.kind, tokens, pos);
                assert(inst.operands.deep_view().len() >= before.len());
                false
            },
            OperandQuantifier::ZeroOrOne => {
                let _ = self.parse_one_operand(operands, inst, lo.kind, tokens, pos);
                assert(inst.operands.deep_view().len() >= before.len());
                assert(*pos == *old(pos) ==> inst.operands.deep_view().len() == before.len());
                false
            },
            OperandQuantifier::ZeroOrMore => {
                let ghost n0 = inst.operands.len();
                self.parse_many_counted(operands, inst, lo.kind, tokens, pos);
                false
            },
        }
    }

    /// Reads operands of the kind `kind` for as long as there are tokens;
    /// the instruction only gains operands, and none where no token was
    /// taken.
    pub fn parse_many_counted(
        &mut self,
        operands: &Vec<InlineAsmOperandRef>,
        inst: &mut Instruction,
        kind: OperandKind,
        tokens: &Vec<Token>,
        pos: &mut usize,
    )
        requires
            old(self)@.wf(),
            *old(pos) <= tokens.len(),
            tokens_in_range(tokens.deep_view(), operands.len() as nat),
        ensures
            forall|saw: bool, need: bool, stopped: bool|
                #![trigger parse_state(old(self)@, old(inst)@, *old(pos) as int, saw, need, stopped)]
                parse_state(final(self)@, final(inst)@, *final(pos) as int, saw, need, stopped)
                    == parse_state(
                    old(self)@,
                    old(inst)@,
                    *old(pos) as int,
                    saw,
                    need,
                    stopped,
                ).many(operands.deep_view(), kind, tokens.deep_view()),
            final(self)@.wf(),
            *old(pos) <= *final(pos) <= tokens.len(),
            *old(pos) == *final(pos) ==> final(inst).operands.len() == old(inst).operands.len(),
            final(inst).operands.len() >= old(inst).operands.len(),
            final(self)@.cx.types == old(self)@.cx.types,
            final(self)@.cx.table == old(self)@.cx.table,
    {
        if *pos >= tokens.len() {
            return ;
        }
        let ghost start = parse_state(self@, inst@, *pos as int, false, false, false);
        let ghost n0 = inst.operands.deep_view().len();
        while *pos < tokens.len()
            invariant
                self@.wf(),
                *old(pos) <= *pos <= tokens.len(),
                tokens_in_range(tokens.deep_view(), operands.len() as nat),
                self@.cx.types == old(self)@.cx.types,
                self@.cx.table == old(self)@.cx.table,
                inst.operands.deep_view().len() >= n0,
                n0 == old(inst).operands.len(),
                start == parse_state(old(self)@, old(inst)@, *old(pos) as int, false, false, false),
                start.many(operands.deep_view(), kind, tokens.deep_view()) == parse_state(
                    self@,
                    inst@,
                    *pos as int,
                    false,
                    false,
                    false,
                ).many(operands.deep_view(), kind, tokens.deep_view()),
            decreases tokens.len() - *pos,
        {
            let _ = self.parse_one_operand(operands, inst, kind, tokens, pos);
        }
        proof {
            assert forall|saw: bool, need: bool, stopped: bool|
                #![trigger parse_state(old(self)@, old(inst)@, *old(pos) as int, saw, need, stopped)]
                parse_state(self@, inst@, *pos as int, saw, need, stopped) == parse_state(
                    old(self)@,
                    old(inst)@,
                    *old(pos) as int,
                    saw,
                    need,
                    stopped,
                ).many(operands.deep_view(), kind, tokens.deep_view()) by {
                lemma_many_flags(
                    start,
                    saw,
                    need,
                    stopped,
                    operands.deep_view(),
                    kind,
                    tokens.deep_view(),
                );
            }
        }
    }
}

impl Builder {
    /// The checks that end the reading of a line's operands.
    pub fn finish_operands(
        &mut self,
        inst: &mut Instruction,
        opname: &str,
        tokens: &Vec<Token>,
        pos: usize,
        saw_id_result: bool,
        need_infer: bool,
        stopped: bool,
    )
        requires
            old(self)@.wf(),
        ensures
            (final(self)@, final(inst)@) == parse_state(
                old(self)@,
                old(inst)@,
                pos as int,
                saw_id_result,
                need_infer,
                stopped,
            ).finish(opname@, tokens.deep_view()),
            final(self)@.wf(),
            final(self)@.cx.table == old(self)@.cx.table,
    {
        reveal(ParseState::finish);
        if stopped {
            return ;
        }
        if !saw_id_result && inst.result_id.is_some() {
            self.err(concat2("instruction ", opname).concat(" does not expect a result id"));
        }
        if pos < tokens.len() {
            let d = Diagnostic::new(
                Level::Error,
                None,
                concat2("too many operands to instruction: ", opname),
            );
            self.emit_diagnostic(d);
        }
        if need_infer {
            match self.infer_result_type(inst) {
                Some(ty) => {
                    inst.result_type = Some(ty);
                },
                None => {
                    self.err(
                        concat2("instruction ", opname).concat(
                            " cannot have its result type inferred",
                        ),
                    );
                },
            }
        }
    }

    /// Reads the operands of an instruction from the tokens at `pos` on,
    /// as its grammar lists them, and then infers the result type where
    /// the line asks for it.
    pub fn parse_operands(
        &mut self,
        operands: &Vec<InlineAsmOperandRef>,
        grammar: &Vec<LogicalOperand>,
        opname: &str,
        tokens: &Vec<Token>,
        pos: usize,
        inst: &mut Instruction,
    )
        requires
            old(self)@.wf(),
            pos <= tokens.len(),
            tokens_in_range(tokens.deep_view(), operands.len() as nat),
        ensures
            (final(self)@, final(inst)@) == old(self)@.parse_operands(
                operands.deep_view(),
                grammar@,
                opname@,
                tokens.deep_view(),
                pos as int,
                old(inst)@,
            ),
            final(self)@.wf(),
            final(self)@.cx.table == old(self)@.cx.table,
    {
        let mut pos = pos;
        let mut saw = false;
        let mut need = false;
        let mut stopped = false;
        let mut queue = join_queue(Vec::new(), grammar, 0);
        assert(queue@ =~= grammar@);
        let ghost goal = parse_state(self@, inst@, pos as int, false, false, false).parse_queue(
            grammar@,
            operands.deep_view(),
            opname@,
            tokens.deep_view(),
        );
        while queue.len() > 0 && !stopped
            invariant
                self@.wf(),
                pos <= tokens.len(),
                tokens_in_range(tokens.deep_view(), operands.len() as nat),
                self@.cx.table == old(self)@.cx.table,
                goal == parse_state(self@, inst@, pos as int, saw, need, stopped).parse_queue(
                    queue@,
                    operands.deep_view(),
                    opname@,
                    tokens.deep_view(),
                ),
            decreases tokens.len() - pos, queue.len(),
        {
            let lo = queue[0];
            let ghost rest = queue@.drop_first();
            let ghost here = parse_state(self@, inst@, pos as int, saw, need, false);
            assert(rest =~= queue@.subrange(1, queue.len() as int));
            match lo.kind {
                OperandKind::IdResult => {
                    if inst.result_id.is_none() {
                        self.err(concat2("instruction ", opname).concat(" expects a result id"));
                    }
                    saw = true;
                    queue = join_queue(Vec::new(), &queue, 1);
                    assert(queue@ =~= rest);
                },
                OperandKind::IdResultType => {
                    self.result_type_step(operands, inst, opname, tokens, &mut pos, &mut need);
                    queue = join_queue(Vec::new(), &queue, 1);
                    assert(queue@ =~= rest);
                },
                _ => {
                    let start = inst.operands.len();
                    let before_pos = pos;
                    stopped = self.operand_step(lo, operands, inst, opname, tokens, &mut pos);
                    if pos == before_pos {
                        queue = join_queue(Vec::new(), &queue, 1);
                        assert(queue@ =~= rest);
                    } else {
                        let extra = additional_from(&inst.operands, start);
                        queue = join_queue(extra, &queue, 1);
                    }
                },
            }
        }
        self.finish_operands(inst, opname, tokens, pos, saw, need, stopped);
    }

    /// Stores the result of a line to `place`.
    pub fn store_result(&mut self, place: PlaceRef, result: Word)
        requires
            old(self)@.wf(),
        ensures
            final(self)@ == old(self)@.store_result(place, result),
            final(self)@.wf(),
            final(self)@.cx.table == old(self)@.cx.table,
    {
        reveal(BldView::store_result);
        match self.try_def_value(place.llval) {
            Some(ptr) => {
                let mut ops: Vec<Operand> = Vec::new();
                ops.push(Operand::IdRef(ptr));
                ops.push(Operand::IdRef(result));
                let store = Instruction::new(OP_STORE, None, None, ops);
                assert(store.operands.deep_view() =~= seq![
                    OperandView::IdRef(ptr),
                    OperandView::IdRef(result),
                ]);
                self.insert(crate::module::InsertPoint::End, store);
            },
            None => {},
        }
    }

    /// Notes the type of a line's result.
    pub fn note_result_type(&mut self, inst: &Instruction)
        ensures
            final(self)@ == old(self)@.note_result_type(inst@),
    {
        match (inst.result_type, inst.result_id) {
            (Some(ty), Some(id)) => {
                self.asm_state.id_to_type_map.push((id, ty));
            },
            _ => {},
        }
    }

    /// Reads the instruction whose grammar is at position `entry` of the
    /// table from the tokens at `at` on, and puts it where it belongs.
    pub fn known_instruction(
        &mut self,
        operands: &Vec<InlineAsmOperandRef>,
        tokens: &Vec<Token>,
        at: usize,
        out: Option<OutRegister>,
        entry: usize,
    )
        requires
            old(self)@.wf(),
            at <= tokens.len(),
            entry < old(self).cx.instruction_table.table.len(),
            tokens_in_range(tokens.deep_view(), operands.len() as nat),
        ensures
            final(self)@ == old(self)@.known_instruction(
                operands.deep_view(),
                tokens.deep_view(),
                at as int,
                out,
                entry as int,
            ),
            final(self)@.wf(),
    {
        reveal(BldView::known_instruction);
        let grammar = join_queue(Vec::new(), &self.cx.instruction_table.table[entry].operands, 0);
        let opname = self.cx.instruction_table.table[entry].opname.clone();
        let opcode = self.cx.instruction_table.table[entry].opcode;
        assert(self@.cx.table@[entry as int] == self.cx.instruction_table.table@[entry as int]@);
        assert(grammar@ =~= self@.cx.table@[entry as int].operands);
        let result_id = match out {
            Some(OutRegister::Regular(r)) => Some(r),
            Some(OutRegister::Place(_)) => self.fresh_id(),
            None => None,
        };
        if out.is_some() && result_id.is_none() {
            return ;
        }
        let mut instruction = Instruction::new(opcode, None, result_id, Vec::new());
        assert(instruction.operands.deep_view() =~= Seq::<OperandView>::empty());
        self.parse_operands(operands, &grammar, opname.as_str(), tokens, at, &mut instruction);
        self.note_result_type(&instruction);
        self.insert_inst(instruction, opname.as_str());
        match (out, result_id) {
            (Some(OutRegister::Place(place)), Some(r)) => {
                self.store_result(place, r);
            },
            _ => {},
        }
    }

    /// Handles the instruction that starts at the token `at`.
    pub fn instruction_line(
        &mut self,
        operands: &Vec<InlineAsmOperandRef>,
        tokens: &Vec<Token>,
        at: usize,
        out: Option<OutRegister>,
    )
        requires
            old(self)@.wf(),
            at < tokens.len(),
            tokens_in_range(tokens.deep_view(), operands.len() as nat),
        ensures
            final(self)@ == old(self)@.instruction_line(
                operands.deep_view(),
                tokens.deep_view(),
                at as int,
                out,
            ),
            final(self)@.wf(),
    {
        assert(tokens.deep_view()[at as int] == tokens@[at as int]@);
        match &tokens[at] {
            Token::String(_) => {
                self.err_str("cannot use a string as an instruction");
            },
            Token::Placeholder(_, span) => {
                self.span_err_str(*span, "cannot use a dynamic value as an instruction type");
            },
            Token::Typeof(_, span, _) => {
                self.span_err_str(*span, "cannot use a dynamic value as an instruction type");
            },
            Token::Word(name) => {
                let found = if starts_with(name.as_str(), "Op") {
                    proof {
                        reveal_strlit("Op");
                    }
                    let short = suffix_from(name.as_str(), 2);
                    self.cx.instruction_table.position(short.as_str())
                } else {
                    None
                };
                match found {
                    None => {
                        self.err(concat2("unknown spirv instruction ", name.as_str()));
                    },
                    Some(entry) => {
                        self.known_instruction(operands, tokens, at + 1, out, entry);
                    },
                }
            },
        }
    }

    /// Handles one line of assembly, given as its tokens: an empty line
    /// does nothing; a line may name its result, as `%name` or as an
    /// operand of the block, followed by `=`; then comes the mnemonic of
    /// an instruction and its operands.
    pub fn codegen_asm(&mut self, operands: &Vec<InlineAsmOperandRef>, tokens: &Vec<Token>)
        requires
            old(self)@.wf(),
            tokens_in_range(tokens.deep_view(), operands.len() as nat),
        ensures
            final(self)@ == old(self)@.codegen_asm(operands.deep_view(), tokens.deep_view()),
            final(self)@.wf(),
    {
        if tokens.len() == 0 {
            return ;
        }
        assert(tokens.deep_view()[0] == tokens@[0]@);
        assert(token_in_range(tokens.deep_view()[0], operands.len() as nat));
        let names_result = match &tokens[0] {
            Token::Placeholder(_, _) => true,
            Token::Word(w) => starts_with(w.as_str(), "%"),
            _ => false,
        };
        if names_result {
            match self.parse_id_out(operands, &tokens[0]) {
                None => {},
                Some(reg) => {
                    let equals = if tokens.len() >= 2 {
                        assert(tokens.deep_view()[1] == tokens@[1]@);
                        match &tokens[1] {
                            Token::Word(w) => str_eq(w.as_str(), "="),
                            _ => false,
                        }
                    } else {
                        false
                    };
                    if !equals {
                        self.err_str("expected equals after result id specifier");
                    } else if tokens.len() < 3 {
                        self.err_str("expected instruction after equals");
                    } else {
                        self.instruction_line(operands, tokens, 2, Some(reg));
                    }
                },
            }
        } else {
            self.instruction_line(operands, tokens, 0, None);
        }
    }
}

/// Reading many operands passes the flags of the state through.
pub proof fn lemma_many_flags(
    st: ParseState,
    saw: bool,
    need: bool,
    stopped: bool,
    operands: Seq<AsmOperandView>,
    kind: OperandKind,
    tokens: Seq<TokenView>,
)
    ensures
        (ParseState { saw_id_result: saw, need_infer: need, stopped, ..st }).many(
            operands,
            kind,
            tokens,
        ) == (ParseState {
            saw_id_result: saw,
            need_infer: need,
            stopped,
            ..st.many(operands, kind, tokens)
        }),
    decreases tokens.len() - st.pos,
{
    if !(st.pos < 0 || st.pos >= tokens.len()) {
        let next = st.one(operands, kind, tokens);
        if st.pos < next.pos <= tokens.len() {
            lemma_many_flags(next, saw, need, stopped, operands, kind, tokens);
        }
    }
}

} // verus!
