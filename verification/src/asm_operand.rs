//! The operands of a line of assembly, read one at a time by their kind.

use vstd::prelude::*;
use crate::asm_ids::{token_in_range, tokens_in_range};
use crate::builder::{BldView, Builder};
use crate::enumerants::{
    bitflag_kind, bitflag_table, bitflag_table_spec, bitflags_value, enumerant_kind,
    enumerant_value,
    is_bitflag_kind, is_enumerant_kind, parse_bitflags_operand, parse_enumerant,
};
use crate::grammar::{find_by_name, OperandKind};
use crate::module::{Instruction, InstructionView, Operand, OperandView, Word};
use crate::spirv_asm::{AsmOperandView, InlineAsmOperandRef, Token, TokenView};
use crate::spirv_type::{type_of, SpirvType, SpirvTypeView};
use crate::text::{
    concat2, int_error_message, int_error_text, parse_int, parse_int_spec, IntErrorKind,
};

verus! {

/// The 32 bits that write the integer `v`, which is sign-extended where
/// it is negative.
pub open spec fn bits32(v: int) -> u32 {
    if v >= 0 {
        v as u32
    } else {
        (v + 0x1_0000_0000) as u32
    }
}

/// The 64 bits that write the integer `v` in two's complement.
pub open spec fn bits64(v: int) -> u64 {
    if v >= 0 {
        v as u64
    } else {
        (v + 0x1_0000_0000_0000_0000) as u64
    }
}

/// The least value of an integer type of the given width.
pub open spec fn int_min(width: u32, signed: bool) -> int {
    if !signed {
        0
    } else if width == 8 {
        -0x80
    } else if width == 16 {
        -0x8000
    } else if width == 32 {
        -0x8000_0000
    } else {
        -0x8000_0000_0000_0000
    }
}

/// The greatest value of an integer type of the given width.
pub open spec fn int_max(width: u32, signed: bool) -> int {
    if width == 8 {
        if signed {
            0x7f
        } else {
            0xff
        }
    } else if width == 16 {
        if signed {
            0x7fff
        } else {
            0xffff
        }
    } else if width == 32 {
        if signed {
            0x7fff_ffff
        } else {
            0xffff_ffff
        }
    } else {
        if signed {
            0x7fff_ffff_ffff_ffff
        } else {
            0xffff_ffff_ffff_ffff
        }
    }
}

/// The words of the report of a literal that is not a number of the type
/// of its constant.
pub open spec fn not_a_number_literal() -> Seq<char> {
    "expected number literal in OpConstant"@
}

/// The operand that `word` writes as a literal of a constant whose type is
/// `ty`: an integer of 8, 16, 32 or 64 bits takes a decimal number of its
/// range, in one word of 32 bits, or in 64 bits where it is that wide; a
/// float of 32 or 64 bits keeps the text; any other type, or none, is an
/// error.
pub open spec fn context_number(ty: Option<SpirvTypeView>, word: Seq<char>) -> Result<
    OperandView,
    Seq<char>,
> {
    match ty {
        Some(SpirvTypeView::Integer(width, signed)) => if width == 8 || width == 16 || width == 32
            || width == 64 {
            match parse_int_spec(word, int_min(width, signed), int_max(width, signed)) {
                Ok(v) => Ok(
                    if width == 64 {
                        OperandView::LiteralBit64(bits64(v))
                    } else {
                        OperandView::LiteralBit32(bits32(v))
                    },
                ),
                Err(e) => Err(int_error_text(e)),
            }
        } else {
            Err(not_a_number_literal())
        },
        Some(SpirvTypeView::Float(width)) => if width == 32 || width == 64 {
            Ok(OperandView::LiteralFloat { width, text: word })
        } else {
            Err(not_a_number_literal())
        },
        _ => Err(not_a_number_literal()),
    }
}

/// Reads the literal of a constant whose type is `ty`.
pub fn parse_context_number(ty: &Option<SpirvType>, word: &str) -> (r: Result<Operand, String>)
    ensures
        match r {
            Ok(op) => context_number(ty.deep_view(), word@) == Ok::<OperandView, Seq<char>>(op@),
            Err(m) => context_number(ty.deep_view(), word@) == Err::<OperandView, Seq<char>>(m@),
        },
{
    match ty {
        Some(SpirvType::Integer(width, signed)) => {
            let width = *width;
            let signed = *signed;
            if width == 8 || width == 16 || width == 32 || width == 64 {
                let max: i128 = if width == 8 {
                    if signed {
                        0x7f
                    } else {
                        0xff
                    }
                } else if width == 16 {
                    if signed {
                        0x7fff
                    } else {
                        0xffff
                    }
                } else if width == 32 {
                    if signed {
                        0x7fff_ffff
                    } else {
                        0xffff_ffff
                    }
                } else {
                    if signed {
                        0x7fff_ffff_ffff_ffff
                    } else {
                        0xffff_ffff_ffff_ffff
                    }
                };
                let min: i128 = if !signed {
                    0
                } else if width == 8 {
                    -0x80
                } else if width == 16 {
                    -0x8000
                } else if width == 32 {
                    -0x8000_0000
                } else {
                    -0x8000_0000_0000_0000
                };
                match parse_int(word, min, max) {
                    Ok(v) => {
                        if width == 64 {
                            let bits: u64 = if v >= 0 {
                                v as u64
                            } else {
                                (v + 0x1_0000_0000_0000_0000) as u64
                            };
                            Ok(Operand::LiteralBit64(bits))
                        } else {
                            let bits: u32 = if v >= 0 {
                                v as u32
                            } else {
                                (v + 0x1_0000_0000) as u32
                            };
                            Ok(Operand::LiteralBit32(bits))
                        }
                    },
                    Err(e) => Err(String::from_str(int_error_message(e))),
                }
            } else {
                Err(String::from_str("expected number literal in OpConstant"))
            }
        },
        Some(SpirvType::Float(width)) => {
            if *width == 32 || *width == 64 {
                Ok(Operand::LiteralFloat { width: *width, text: String::from_str(word) })
            } else {
                Err(String::from_str("expected number literal in OpConstant"))
            }
        },
        _ => Err(String::from_str("expected number literal in OpConstant")),
    }
}

/// The words of the report of a text that is no 32-bit number.
pub open spec fn invalid_integer(e: IntErrorKind) -> Seq<char> {
    "invalid integer: "@ + int_error_text(e)
}

/// The words of the report of a name that is no value of the kind `kind`.
/// The report of a flag, and that of a source language, starts with a
/// capital letter.
pub open spec fn unknown_operand(kind: OperandKind, word: Seq<char>) -> Seq<char> {
    (if is_bitflag_kind(kind) || kind == OperandKind::SourceLanguage {
        "Unknown "@
    } else {
        "unknown "@
    }) + kind.name_spec() + " "@ + word
}

/// The words of the report of a token that is no word where an operand of
/// the kind `kind` must be written out.
pub open spec fn expected_literal(kind: OperandKind, token: TokenView) -> Seq<char> {
    (match token {
        TokenView::String(_) => "expected a literal, not a string for a "@,
        TokenView::Placeholder(_, _) => "expected a literal, not a dynamic value for a "@,
        _ => "expected a literal, not a type for a "@,
    }) + kind.name_spec()
}

/// The operand of the kind `kind` that holds the id `id`.
pub open spec fn id_operand(kind: OperandKind, id: Word) -> OperandView {
    if kind == OperandKind::IdMemorySemantics {
        OperandView::IdMemorySemantics(id)
    } else if kind == OperandKind::IdScope {
        OperandView::IdScope(id)
    } else {
        OperandView::IdRef(id)
    }
}

/// What reading one operand comes to.
pub struct OperandStep {
    /// The builder afterwards.
    pub bld: BldView,
    /// The operands that the instruction gained, in order.
    pub pushed: Seq<OperandView>,
    /// The position of the next token.
    pub next: int,
    /// Whether there was a token to read.
    pub found: bool,
}

impl BldView {
    /// The builder after a token that is no word was found where an
    /// operand of the kind `kind` must be written out.
    pub open spec fn report_not_literal(self, kind: OperandKind, token: TokenView) -> BldView {
        match token {
            TokenView::Placeholder(_, span) => self.span_err(span, expected_literal(kind, token)),
            TokenView::Typeof(_, span, _) => self.span_err(span, expected_literal(kind, token)),
            _ => self.err(expected_literal(kind, token)),
        }
    }

    /// Reading the word `word` as an operand of the kind `kind`, for an
    /// instruction whose result type is `result_type`: the builder
    /// afterwards, and the operand, if the word is one.
    #[verifier::opaque]
    pub open spec fn word_operand(
        self,
        kind: OperandKind,
        word: Seq<char>,
        result_type: Option<Word>,
    ) -> (BldView, Option<OperandView>) {
        if kind == OperandKind::LiteralInteger {
            match parse_int_spec(word, 0, u32::MAX as int) {
                Ok(v) => (self, Some(OperandView::LiteralBit32(v as u32))),
                Err(e) => (self.err(invalid_integer(e)), None),
            }
        } else if kind == OperandKind::LiteralExtInstInteger {
            match parse_int_spec(word, 0, u32::MAX as int) {
                Ok(v) => (self, Some(OperandView::LiteralExtInstInteger(v as u32))),
                Err(e) => (self.err(invalid_integer(e)), None),
            }
        } else if kind == OperandKind::LiteralFloat {
            (self, Some(OperandView::LiteralFloat { width: 32, text: word }))
        } else if kind == OperandKind::LiteralContextDependentNumber {
            let ty = match result_type {
                Some(id) => type_of(self.cx.types, id),
                None => None,
            };
            match context_number(ty, word) {
                Ok(op) => (self, Some(op)),
                Err(m) => (self.err(m), None),
            }
        } else if kind == OperandKind::LiteralSpecConstantOpInteger {
            match find_by_name(self.cx.table@, word) {
                Some(i) => (
                    self,
                    Some(OperandView::LiteralSpecConstantOpInteger(self.cx.table@[i].opcode)),
                ),
                None => (self.err("invalid instruction in OpSpecConstantOp"@), None),
            }
        } else {
            self.named_operand(kind, word)
        }
    }

    /// Reading the word `word` as a mask of flags or as the name of an
    /// enumerant of the kind `kind`.
    #[verifier::opaque]
    pub open spec fn named_operand(self, kind: OperandKind, word: Seq<char>) -> (
        BldView,
        Option<OperandView>,
    ) {
        if is_bitflag_kind(kind) {
            match bitflags_value(bitflag_table_spec(kind), word) {
                Some(x) => (self, Some(OperandView::Enumerant(kind, x))),
                None => (self.err(unknown_operand(kind, word)), None),
            }
        } else if is_enumerant_kind(kind) {
            match enumerant_value(kind, word) {
                Some(x) => (self, Some(OperandView::Enumerant(kind, x))),
                None => (self.err(unknown_operand(kind, word)), None),
            }
        } else {
            (self, None)
        }
    }

    /// Reading the second half of a pair of an id and a literal integer.
    #[verifier::opaque]
    pub open spec fn pair_literal(self, kind: OperandKind, tokens: Seq<TokenView>, pos: int) -> (
        BldView,
        Option<OperandView>,
        int,
    ) {
        if pos < 0 || pos >= tokens.len() {
            (self.err("expected operand after instruction"@), None, pos)
        } else {
            match tokens[pos] {
                TokenView::Word(word) => match parse_int_spec(word, 0, u32::MAX as int) {
                    Ok(v) => (self, Some(OperandView::LiteralBit32(v as u32)), pos + 1),
                    Err(e) => (self.err(invalid_integer(e)), None, pos + 1),
                },
                other => (self.report_not_literal(kind, other), None, pos + 1),
            }
        }
    }

    /// Reading an operand that is an id, from the token `token` at `pos`.
    #[verifier::opaque]
    pub open spec fn id_step(
        self,
        operands: Seq<AsmOperandView>,
        kind: OperandKind,
        token: TokenView,
        pos: int,
    ) -> OperandStep {
        let (b, id) = self.parse_id_in(operands, token);
        OperandStep {
            bld: b,
            pushed: match id {
                Some(w) => seq![id_operand(kind, w)],
                None => Seq::empty(),
            },
            next: pos + 1,
            found: true,
        }
    }

    /// Reading a pair of an id and a literal integer, from `pos` on.
    #[verifier::opaque]
    pub open spec fn pair_literal_step(
        self,
        operands: Seq<AsmOperandView>,
        kind: OperandKind,
        tokens: Seq<TokenView>,
        pos: int,
    ) -> OperandStep {
        let (b, id) = self.parse_id_in(operands, tokens[pos]);
        match id {
            Some(w) => {
                let (b2, second, next) = b.pair_literal(kind, tokens, pos + 1);
                OperandStep {
                    bld: b2,
                    pushed: match second {
                        Some(op) => seq![OperandView::IdRef(w), op],
                        None => seq![OperandView::IdRef(w)],
                    },
                    next,
                    found: true,
                }
            },
            None => OperandStep { bld: b, pushed: Seq::empty(), next: pos + 1, found: true },
        }
    }

    /// Reading a pair of two ids, from `pos` on.
    #[verifier::opaque]
    pub open spec fn pair_id_step(
        self,
        operands: Seq<AsmOperandView>,
        tokens: Seq<TokenView>,
        pos: int,
    ) -> OperandStep {
        let (b, id) = self.parse_id_in(operands, tokens[pos]);
        match id {
            Some(w) => if pos + 1 >= tokens.len() {
                OperandStep {
                    bld: b.err("expected operand after instruction"@),
                    pushed: seq![OperandView::IdRef(w)],
                    next: pos + 1,
                    found: true,
                }
            } else {
                let (b2, second) = b.parse_id_in(operands, tokens[pos + 1]);
                OperandStep {
                    bld: b2,
                    pushed: match second {
                        Some(w2) => seq![OperandView::IdRef(w), OperandView::IdRef(w2)],
                        None => seq![OperandView::IdRef(w)],
                    },
                    next: pos + 2,
                    found: true,
                }
            },
            None => OperandStep { bld: b, pushed: Seq::empty(), next: pos + 1, found: true },
        }
    }

    /// Reading an operand that must be written out as a word, from the
    /// token `token` at `pos`.
    #[verifier::opaque]
    pub open spec fn literal_step(
        self,
        kind: OperandKind,
        token: TokenView,
        result_type: Option<Word>,
        pos: int,
    ) -> OperandStep {
        match token {
            TokenView::Word(word) => {
                let (b, op) = self.word_operand(kind, word, result_type);
                OperandStep {
                    bld: b,
                    pushed: match op {
                        Some(o) => seq![o],
                        None => Seq::empty(),
                    },
                    next: pos + 1,
                    found: true,
                }
            },
            other => OperandStep {
                bld: self.report_not_literal(kind, other),
                pushed: Seq::empty(),
                next: pos + 1,
                found: true,
            },
        }
    }

    /// Reading one operand of the kind `kind` from the token at `pos`.
    /// Where no token is left, nothing happens. Else the token is taken,
    /// and a pair takes a second one; what cannot be read is reported, and
    /// the instruction then gains nothing for it.
    pub open spec fn parse_one_operand(
        self,
        operands: Seq<AsmOperandView>,
        result_type: Option<Word>,
        kind: OperandKind,
        tokens: Seq<TokenView>,
        pos: int,
    ) -> OperandStep {
        if pos < 0 || pos >= tokens.len() {
            OperandStep { bld: self, pushed: Seq::empty(), next: pos, found: false }
        } else if kind == OperandKind::IdMemorySemantics || kind == OperandKind::IdScope || kind
            == OperandKind::IdRef {
            self.id_step(operands, kind, tokens[pos], pos)
        } else if kind == OperandKind::LiteralString {
            OperandStep {
                bld: self,
                pushed: match tokens[pos] {
                    TokenView::String(v) => seq![OperandView::LiteralString(v)],
                    _ => Seq::empty(),
                },
                next: pos + 1,
                found: true,
            }
        } else if kind == OperandKind::PairLiteralIntegerIdRef {
            OperandStep {
                bld: self.err("PairLiteralIntegerIdRef not supported yet"@),
                pushed: Seq::empty(),
                next: pos + 1,
                found: true,
            }
        } else if kind == OperandKind::PairIdRefLiteralInteger {
            self.pair_literal_step(operands, kind, tokens, pos)
        } else if kind == OperandKind::PairIdRefIdRef {
            self.pair_id_step(operands, tokens, pos)
        } else {
            self.literal_step(kind, tokens[pos], result_type, pos)
        }
    }
}

/// Whether the builder `bld`, the instruction `after` and the position
/// `next` are what the step `step` leaves of the instruction `before`.
pub open spec fn step_taken(
    step: OperandStep,
    bld: BldView,
    before: InstructionView,
    after: InstructionView,
    next: int,
) -> bool {
    &&& bld == step.bld
    &&& after == (InstructionView { operands: before.operands + step.pushed, ..before })
    &&& next == step.next
}

impl Builder {
    /// Reports a token that is no word where an operand of the kind `kind`
    /// must be written out.
    pub fn report_not_literal(&mut self, kind: OperandKind, token: &Token)
        ensures
            final(self)@ == old(self)@.report_not_literal(kind, token@),
    {
        match token {
            Token::Placeholder(_, span) => {
                self.span_err(
                    *span,
                    concat2("expected a literal, not a dynamic value for a ", kind.name()),
                );
            },
            Token::Typeof(_, span, _) => {
                self.span_err(*span, concat2("expected a literal, not a type for a ", kind.name()));
            },
            Token::String(_) => {
                self.err(concat2("expected a literal, not a string for a ", kind.name()));
            },
            Token::Word(_) => {
                self.err(concat2("expected a literal, not a type for a ", kind.name()));
            },
        }
    }

    /// Reports a name that is no value of the kind `kind`.
    pub fn report_unknown(&mut self, kind: OperandKind, word: &str)
        requires
            is_bitflag_kind(kind) || is_enumerant_kind(kind),
        ensures
            final(self)@ == old(self)@.err(unknown_operand(kind, word@)),
    {
        let capital = match kind {
            OperandKind::SourceLanguage => true,
            _ => !enumerant_kind(kind),
        };
        let head = if capital {
            "Unknown "
        } else {
            "unknown "
        };
        self.err(concat2(head, kind.name()).concat(" ").concat(word));
    }

    /// Reads a 32-bit number, or reports why the word is none.
    pub fn parse_u32_or_report(&mut self, word: &str) -> (r: Option<u32>)
        ensures
            match parse_int_spec(word@, 0, u32::MAX as int) {
                Ok(v) => r == Some(v as u32) && final(self)@ == old(self)@,
                Err(e) => r.is_none() && final(self)@ == old(self)@.err(invalid_integer(e)),
            },
    {
        match parse_int(word, 0, 0xffff_ffff) {
            Ok(v) => Some(v as u32),
            Err(e) => {
                self.err(concat2("invalid integer: ", int_error_message(e)));
                None
            },
        }
    }

    /// Reads the word `word` as an operand of the kind `kind`, for an
    /// instruction whose result type is `result_type`.
    pub fn word_operand(&mut self, kind: OperandKind, word: &str, result_type: Option<Word>) -> (r:
        Option<Operand>)
        requires
            old(self)@.wf(),
        ensures
            (final(self)@, r.deep_view()) == old(self)@.word_operand(kind, word@, result_type),
            final(self)@.cx.types == old(self)@.cx.types,
            final(self)@.cx.builder == old(self)@.cx.builder,
            final(self)@.cx.table == old(self)@.cx.table,
            final(self)@.wf(),
    {
        reveal(BldView::word_operand);
        match kind {
            OperandKind::LiteralInteger => match self.parse_u32_or_report(word) {
                Some(v) => Some(Operand::LiteralBit32(v)),
                None => None,
            },
            OperandKind::LiteralExtInstInteger => match self.parse_u32_or_report(word) {
                Some(v) => Some(Operand::LiteralExtInstInteger(v)),
                None => None,
            },
            OperandKind::LiteralFloat => Some(
                Operand::LiteralFloat { width: 32, text: String::from_str(word) },
            ),
            OperandKind::LiteralContextDependentNumber => {
                let ty = match result_type {
                    Some(id) => self.cx.type_cache.lookup(id),
                    None => None,
                };
                match parse_context_number(&ty, word) {
                    Ok(op) => Some(op),
                    Err(m) => {
                        self.err(m);
                        None
                    },
                }
            },
            OperandKind::LiteralSpecConstantOpInteger => {
                let found = match self.cx.instruction_table.get(word) {
                    Some(g) => Some(g.opcode),
                    None => None,
                };
                match found {
                    Some(opcode) => Some(Operand::LiteralSpecConstantOpInteger(opcode)),
                    None => {
                        self.err_str("invalid instruction in OpSpecConstantOp");
                        None
                    },
                }
            },
            _ => self.named_operand(kind, word),
        }
    }

    /// Reads the word `word` as a mask of flags or as the name of an
    /// enumerant of the kind `kind`.
    pub fn named_operand(&mut self, kind: OperandKind, word: &str) -> (r: Option<Operand>)
        requires
            old(self)@.wf(),
        ensures
            (final(self)@, r.deep_view()) == old(self)@.named_operand(kind, word@),
            final(self)@.wf(),
            final(self)@.cx.types == old(self)@.cx.types,
            final(self)@.cx.builder == old(self)@.cx.builder,
            final(self)@.cx.table == old(self)@.cx.table,
    {
        reveal(BldView::named_operand);
        if enumerant_kind(kind) {
            assert(!is_bitflag_kind(kind));
            match parse_enumerant(kind, word) {
                Some(x) => Some(Operand::Enumerant(kind, x)),
                None => {
                    self.report_unknown(kind, word);
                    None
                },
            }
        } else {
            if bitflag_kind(kind) {
                let table = bitflag_table(kind);
                match parse_bitflags_operand(&table, word) {
                    Some(x) => Some(Operand::Enumerant(kind, x)),
                    None => {
                        self.report_unknown(kind, word);
                        None
                    },
                }
            } else {
                None
            }
        }
    }

    /// Reads the second half of a pair of an id and a literal integer.
    pub fn pair_literal(&mut self, kind: OperandKind, tokens: &Vec<Token>, pos: &mut usize) -> (r:
        Option<Operand>)
        requires
            old(self)@.wf(),
            *old(pos) <= tokens.len(),
        ensures
            (final(self)@, r.deep_view(), *final(pos) as int) == old(self)@.pair_literal(
                kind,
                tokens.deep_view(),
                *old(pos) as int,
            ),
            *old(pos) <= *final(pos) <= tokens.len(),
            final(self)@.cx.types == old(self)@.cx.types,
            final(self)@.cx.builder == old(self)@.cx.builder,
            final(self)@.cx.table == old(self)@.cx.table,
            final(self)@.wf(),
    {
        reveal(BldView::pair_literal);
        if *pos >= tokens.len() {
            self.err_str("expected operand after instruction");
            return None;
        }
        let token = &tokens[*pos];
        assert(tokens.deep_view()[*pos as int] == token@);
        *pos = *pos + 1;
        match token {
            Token::Word(word) => match self.parse_u32_or_report(word.as_str()) {
                Some(v) => Some(Operand::LiteralBit32(v)),
                None => None,
            },
            other => {
                self.report_not_literal(kind, other);
                None
            },
        }
    }

    /// Reads an operand that is an id from `token`.
    pub fn id_step(
        &mut self,
        operands: &Vec<InlineAsmOperandRef>,
        inst: &mut Instruction,
        kind: OperandKind,
        token: &Token,
        pos: usize,
    )
        requires
            old(self)@.wf(),
            token_in_range(token@, operands.len() as nat),
        ensures
            step_taken(
                old(self)@.id_step(operands.deep_view(), kind, token@, pos as int),
                final(self)@,
                old(inst)@,
                final(inst)@,
                pos + 1,
            ),
            final(self)@.wf(),
            final(self)@.cx.types == old(self)@.cx.types,
            final(self)@.cx.table == old(self)@.cx.table,
    {
        reveal(BldView::id_step);
        let ghost before = inst.operands.deep_view();
        match self.parse_id_in(operands, token) {
            Some(id) => {
                let op = match kind {
                    OperandKind::IdMemorySemantics => Operand::IdMemorySemantics(id),
                    OperandKind::IdScope => Operand::IdScope(id),
                    _ => Operand::IdRef(id),
                };
                inst.operands.push(op);
                assert(inst.operands.deep_view() =~= before + seq![id_operand(kind, id)]);
            },
            None => {
                assert(before + Seq::<OperandView>::empty() =~= before);
            },
        }
    }

    /// Reads a pair of an id and a literal integer.
    pub fn pair_literal_step(
        &mut self,
        operands: &Vec<InlineAsmOperandRef>,
        inst: &mut Instruction,
        kind: OperandKind,
        tokens: &Vec<Token>,
        pos: &mut usize,
    )
        requires
            old(self)@.wf(),
            *old(pos) < tokens.len(),
            tokens_in_range(tokens.deep_view(), operands.len() as nat),
        ensures
            step_taken(
                old(self)@.pair_literal_step(
                    operands.deep_view(),
                    kind,
                    tokens.deep_view(),
                    *old(pos) as int,
                ),
                final(self)@,
                old(inst)@,
                final(inst)@,
                *final(pos) as int,
            ),
            final(self)@.wf(),
            *old(pos) < *final(pos) <= tokens.len(),
            final(self)@.cx.types == old(self)@.cx.types,
            final(self)@.cx.table == old(self)@.cx.table,
    {
        reveal(BldView::pair_literal_step);
        let ghost before = inst.operands.deep_view();
        let token = &tokens[*pos];
        assert(tokens.deep_view()[*pos as int] == token@);
        assert(token_in_range(tokens.deep_view()[*pos as int], operands.len() as nat));
        *pos = *pos + 1;
        match self.parse_id_in(operands, token) {
            Some(id) => {
                inst.operands.push(Operand::IdRef(id));
                assert(inst.operands.deep_view() =~= before + seq![OperandView::IdRef(id)]);
                match self.pair_literal(kind, tokens, pos) {
                    Some(op) => {
                        let ghost ov = op@;
                        inst.operands.push(op);
                        assert(inst.operands.deep_view() =~= before + seq![
                            OperandView::IdRef(id),
                            ov,
                        ]);
                    },
                    None => {},
                }
            },
            None => {
                assert(before + Seq::<OperandView>::empty() =~= before);
            },
        }
    }

    /// Reads a pair of two ids.
    pub fn pair_id_step(
        &mut self,
        operands: &Vec<InlineAsmOperandRef>,
        inst: &mut Instruction,
        tokens: &Vec<Token>,
        pos: &mut usize,
    )
        requires
            old(self)@.wf(),
            *old(pos) < tokens.len(),
            tokens_in_range(tokens.deep_view(), operands.len() as nat),
        ensures
            step_taken(
                old(self)@.pair_id_step(operands.deep_view(), tokens.deep_view(), *old(pos) as int),
                final(self)@,
                old(inst)@,
                final(inst)@,
                *final(pos) as int,
            ),
            final(self)@.wf(),
            *old(pos) < *final(pos) <= tokens.len(),
            final(self)@.cx.types == old(self)@.cx.types,
            final(self)@.cx.table == old(self)@.cx.table,
    {
        reveal(BldView::pair_id_step);
        let ghost before = inst.operands.deep_view();
        let token = &tokens[*pos];
        assert(tokens.deep_view()[*pos as int] == token@);
        assert(token_in_range(tokens.deep_view()[*pos as int], operands.len() as nat));
        *pos = *pos + 1;
        match self.parse_id_in(operands, token) {
            Some(id) => {
                inst.operands.push(Operand::IdRef(id));
                assert(inst.operands.deep_view() =~= before + seq![OperandView::IdRef(id)]);
                if *pos >= tokens.len() {
                    self.err_str("expected operand after instruction");
                } else {
                    let second = &tokens[*pos];
                    assert(tokens.deep_view()[*pos as int] == second@);
                    assert(token_in_range(tokens.deep_view()[*pos as int], operands.len() as nat));
                    *pos = *pos + 1;
                    match self.parse_id_in(operands, second) {
                        Some(id2) => {
                            inst.operands.push(Operand::IdRef(id2));
                            assert(inst.operands.deep_view() =~= before + seq![
                                OperandView::IdRef(id),
                                OperandView::IdRef(id2),
                            ]);
                        },
                        None => {},
                    }
                }
            },
            None => {
                assert(before + Seq::<OperandView>::empty() =~= before);
            },
        }
    }

    /// Reads an operand that must be written out as a word from `token`.
    pub fn literal_step(
        &mut self,
        inst: &mut Instruction,
        kind: OperandKind,
        token: &Token,
        pos: usize,
    )
        requires
            old(self)@.wf(),
        ensures
            step_taken(
                old(self)@.literal_step(kind, token@, old(inst).result_type, pos as int),
                final(self)@,
                old(inst)@,
                final(inst)@,
                pos + 1,
            ),
            final(self)@.cx.types == old(self)@.cx.types,
            final(self)@.cx.builder == old(self)@.cx.builder,
            final(self)@.cx.table == old(self)@.cx.table,
            final(self)@.wf(),
    {
        reveal(BldView::literal_step);
        let ghost before = inst.operands.deep_view();
        match token {
            Token::Word(word) => {
                match self.word_operand(kind, word.as_str(), inst.result_type) {
                    Some(op) => {
                        let ghost ov = op@;
                        inst.operands.push(op);
                        assert(inst.operands.deep_view() =~= before + seq![ov]);
                    },
                    None => {
                        assert(before + Seq::<OperandView>::empty() =~= before);
                    },
                }
            },
            other => {
                self.report_not_literal(kind, other);
                assert(before + Seq::<OperandView>::empty() =~= before);
            },
        }
    }

    /// Reads one operand of the kind `kind` from the token at `*pos`, and
    /// puts what it reads at the end of the operands of `inst`. Returns
    /// whether there was a token to read.
    pub fn parse_one_operand(
        &mut self,
        operands: &Vec<InlineAsmOperandRef>,
        inst: &mut Instruction,
        kind: OperandKind,
        tokens: &Vec<Token>,
        pos: &mut usize,
    ) -> (r: bool)
        requires
            old(self)@.wf(),
            *old(pos) <= tokens.len(),
            tokens_in_range(tokens.deep_view(), operands.len() as nat),
        ensures
            step_taken(
                old(self)@.parse_one_operand(
                    operands.deep_view(),
                    old(inst).result_type,
                    kind,
                    tokens.deep_view(),
                    *old(pos) as int,
                ),
                final(self)@,
                old(inst)@,
                final(inst)@,
                *final(pos) as int,
            ),
            r == (*old(pos) < tokens.len()),
            final(self)@.wf(),
            *old(pos) <= *final(pos) <= tokens.len(),
            r ==> *old(pos) < *final(pos),
            final(self)@.cx.types == old(self)@.cx.types,
            final(self)@.cx.table == old(self)@.cx.table,
    {
        let ghost before = inst.operands.deep_view();
        if *pos >= tokens.len() {
            assert(before + Seq::<OperandView>::empty() =~= before);
            return false;
        }
        let token = &tokens[*pos];
        assert(tokens.deep_view()[*pos as int] == token@);
        assert(token_in_range(tokens.deep_view()[*pos as int], operands.len() as nat));
        match kind {
            OperandKind::IdMemorySemantics | OperandKind::IdScope | OperandKind::IdRef => {
                self.id_step(operands, inst, kind, token, *pos);
                *pos = *pos + 1;
            },
            OperandKind::LiteralString => {
                match token {
                    Token::String(value) => {
                        inst.operands.push(Operand::LiteralString(value.clone()));
                        assert(inst.operands.deep_view() =~= before + seq![
                            OperandView::LiteralString(value@),
                        ]);
                    },
                    _ => {
                        assert(before + Seq::<OperandView>::empty() =~= before);
                    },
                }
                *pos = *pos + 1;
            },
            OperandKind::PairLiteralIntegerIdRef => {
                self.err_str("PairLiteralIntegerIdRef not supported yet");
                assert(before + Seq::<OperandView>::empty() =~= before);
                *pos = *pos + 1;
            },
            OperandKind::PairIdRefLiteralInteger => {
                self.pair_literal_step(operands, inst, kind, tokens, pos);
            },
            OperandKind::PairIdRefIdRef => {
                self.pair_id_step(operands, inst, tokens, pos);
            },
            _ => {
                self.literal_step(inst, kind, token, *pos);
                *pos = *pos + 1;
            },
        }
        true
    }
}

} // verus!
