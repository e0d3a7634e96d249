//! The ids of a block of assembly: the names written as `%name`, and the
//! operands of the block that stand for ids.

use vstd::prelude::*;
use crate::builder::{BldView, Builder};
use crate::codegen_cx::{describe_type, type_text};
use crate::diag::Span;
use crate::module::Word;
use crate::spirv_asm::{
    AsmOperandView, AsmStateView, InlineAsmOperandRef, InlineAsmRegOrRegClass, OutRegister,
    RegView, Token, TokenView, TypeofKind,
};
use crate::spirv_type::{type_of, SpirvType, SpirvTypeView};
use crate::text::{concat2, decimal, has_prefix, starts_with, str_eq, suffix_from, u64_to_string};

verus! {

/// Whether the token names no operand beyond the `count` that there are.
pub open spec fn token_in_range(token: TokenView, count: nat) -> bool {
    match token {
        TokenView::Placeholder(i, _) => i < count,
        TokenView::Typeof(i, _, _) => i < count,
        _ => true,
    }
}

/// Whether no token of `tokens` names an operand beyond the `count` that
/// there are.
pub open spec fn tokens_in_range(tokens: Seq<TokenView>, count: nat) -> bool {
    forall|i: int| 0 <= i < tokens.len() ==> token_in_range(#[trigger] tokens[i], count)
}

/// The id that `map` holds for `name`.
pub open spec fn name_id(map: Seq<(Seq<char>, Word)>, name: Seq<char>) -> Option<Word>
    decreases map.len(),
{
    if map.len() == 0 {
        None
    } else if map.last().0 == name {
        Some(map.last().1)
    } else {
        name_id(map.drop_last(), name)
    }
}

/// The type that `map` holds for `id`: that of the newest entry.
pub open spec fn id_type(map: Seq<(Word, Word)>, id: Word) -> Option<Word>
    decreases map.len(),
{
    if map.len() == 0 {
        None
    } else if map.last().0 == id {
        Some(map.last().1)
    } else {
        id_type(map.drop_last(), id)
    }
}

/// The id that `map` holds for `name`.
pub fn find_name(map: &Vec<(String, Word)>, name: &str) -> (r: Option<Word>)
    ensures
        r == name_id(map.deep_view(), name@),
{
    let ghost all = map.deep_view();
    let mut i: usize = map.len();
    assert(all.subrange(0, i as int) =~= all);
    while i > 0
        invariant
            i <= map.len(),
            all == map.deep_view(),
            name_id(all, name@) == name_id(all.subrange(0, i as int), name@),
        decreases i,
    {
        let ghost s = all.subrange(0, i as int);
        assert(s.last() == (map@[i - 1].0@, map@[i - 1].1));
        if str_eq(map[i - 1].0.as_str(), name) {
            return Some(map[i - 1].1);
        }
        assert(s.drop_last() =~= all.subrange(0, i - 1));
        i -= 1;
    }
    None
}

/// The type that `map` holds for `id`.
pub fn find_id_type(map: &Vec<(Word, Word)>, id: Word) -> (r: Option<Word>)
    ensures
        r == id_type(map@, id),
{
    let mut i: usize = map.len();
    assert(map@.subrange(0, i as int) =~= map@);
    while i > 0
        invariant
            i <= map.len(),
            id_type(map@, id) == id_type(map@.subrange(0, i as int), id),
        decreases i,
    {
        let ghost s = map@.subrange(0, i as int);
        assert(s.last() == map@[i - 1]);
        if map[i - 1].0 == id {
            return Some(map[i - 1].1);
        }
        assert(s.drop_last() =~= map@.subrange(0, i - 1));
        i -= 1;
    }
    None
}

/// Tells whether `ids` holds `id`.
pub fn holds_id(ids: &Vec<Word>, id: Word) -> (r: bool)
    ensures
        r == ids@.contains(id),
{
    let mut i: usize = 0;
    while i < ids.len()
        invariant
            i <= ids.len(),
            forall|j: int| 0 <= j < i ==> ids@[j] != id,
        decreases ids.len() - i,
    {
        if ids[i] == id {
            return true;
        }
        i += 1;
    }
    false
}

/// The text that describes the type with the id `id` in a message.
pub open spec fn type_text_of(types: Seq<(Word, SpirvTypeView)>, id: Word) -> Seq<char> {
    match type_of(types, id) {
        Some(t) => type_text(t, id),
        None => "unknown type %"@ + decimal(id as nat),
    }
}

impl BldView {
    /// The builder after the register of an operand was checked: any but
    /// the SPIR-V class is reported at `span`.
    pub open spec fn check_reg(self, span: Span, reg: RegView) -> BldView {
        match reg {
            RegView::SpirvReg => self,
            RegView::Other(name) => self.span_err(span, "invalid register: "@ + name),
        }
    }

    /// The id of the name `name` of the block of assembly: the one it has,
    /// or a fresh one, which the name then keeps.
    pub open spec fn intern(self, name: Seq<char>) -> (BldView, Option<Word>) {
        match name_id(self.asm_state.id_map, name) {
            Some(w) => (self, Some(w)),
            None => {
                let (b, id) = self.fresh_id();
                match id {
                    Some(w) => (
                        b.with_asm(
                            AsmStateView {
                                id_map: b.asm_state.id_map.push((name, w)),
                                ..b.asm_state
                            },
                        ),
                        Some(w),
                    ),
                    None => (b, None),
                }
            },
        }
    }

    /// Reading a token as the result of a line.
    #[verifier::opaque]
    pub open spec fn parse_id_out(self, operands: Seq<AsmOperandView>, token: TokenView) -> (
        BldView,
        Option<OutRegister>,
    ) {
        match token {
            TokenView::Word(word) => if has_prefix(word, "%"@) {
                let name = word.subrange(1, word.len() as int);
                let (b, id) = self.intern(name);
                match id {
                    Some(num) => if b.asm_state.defined_ids.contains(num) {
                        (
                            b.err("%"@ + name + " is defined more than once"@),
                            Some(OutRegister::Regular(num)),
                        )
                    } else {
                        (
                            b.with_asm(
                                AsmStateView {
                                    defined_ids: b.asm_state.defined_ids.push(num),
                                    ..b.asm_state
                                },
                            ),
                            Some(OutRegister::Regular(num)),
                        )
                    },
                    None => (b, None),
                }
            } else {
                (self.err("expected ID"@), None)
            },
            TokenView::String(_) => (self.err("expected ID, not string"@), None),
            TokenView::Typeof(_, span, _) => (
                self.span_err(span, "cannot assign to a typeof expression"@),
                None,
            ),
            TokenView::Placeholder(i, span) => match operands[i as int] {
                AsmOperandView::In { reg, .. } => (
                    self.check_reg(span, reg).span_err(span, "in register cannot be assigned to"@),
                    None,
                ),
                AsmOperandView::Out { reg, place, .. } => match place {
                    Some(p) => (self.check_reg(span, reg), Some(OutRegister::Place(p))),
                    None => (
                        self.check_reg(span, reg).span_err(span, "missing place for register"@),
                        None,
                    ),
                },
                AsmOperandView::InOut { reg, out_place, .. } => match out_place {
                    Some(p) => (self.check_reg(span, reg), Some(OutRegister::Place(p))),
                    None => (
                        self.check_reg(span, reg).span_err(span, "missing place for register"@),
                        None,
                    ),
                },
                AsmOperandView::Const { .. } => (
                    self.span_err(span, "cannot write to const asm argument"@),
                    None,
                ),
                AsmOperandView::SymFn => (
                    self.span_err(span, "cannot write to function asm argument"@),
                    None,
                ),
                AsmOperandView::SymStatic => (
                    self.span_err(span, "cannot write to static variable asm argument"@),
                    None,
                ),
                AsmOperandView::Label => (
                    self.span_err(span, "cannot write to label asm argument"@),
                    None,
                ),
            },
        }
    }

    /// Reading a token as an id that a line uses.
    #[verifier::opaque]
    pub open spec fn parse_id_in(self, operands: Seq<AsmOperandView>, token: TokenView) -> (
        BldView,
        Option<Word>,
    ) {
        match token {
            TokenView::Word(word) => if has_prefix(word, "%"@) {
                self.intern(word.subrange(1, word.len() as int))
            } else {
                (self.err("expected ID"@), None)
            },
            TokenView::String(_) => (self.err("expected ID, not string"@), None),
            TokenView::Typeof(i, span, kind) => self.typeof_id(operands[i as int], span, kind),
            TokenView::Placeholder(i, span) => self.placeholder_id(operands[i as int], span),
        }
    }

    /// The id of the type that a `typeof` of the operand `operand` asks
    /// for.
    #[verifier::opaque]
    pub open spec fn typeof_id(self, operand: AsmOperandView, span: Span, kind: TypeofKind) -> (
        BldView,
        Option<Word>,
    ) {
        match operand {
                AsmOperandView::In { reg, value } => {
                    let b = self.check_reg(span, reg);
                    let ty = value.immediate.ty;
                    match kind {
                        TypeofKind::Plain => (b, Some(ty)),
                        TypeofKind::Dereference => match type_of(b.cx.types, ty) {
                            Some(SpirvTypeView::Pointer { pointee }) => (b, Some(pointee)),
                            _ => (
                                b.span_err(
                                    span,
                                    "cannot use typeof* on non-pointer type: "@ + type_text_of(
                                        b.cx.types,
                                        ty,
                                    ),
                                ),
                                Some(ty),
                            ),
                        },
                    }
                },
                AsmOperandView::Out { reg, place, .. } => {
                    let b = self.check_reg(span, reg);
                    match place {
                        Some(p) => match type_of(b.cx.types, p.llval.ty) {
                            Some(SpirvTypeView::Pointer { pointee }) => (b, Some(pointee)),
                            _ => (
                                b.span_err(
                                    span,
                                    "out register type not pointer: "@ + type_text_of(
                                        b.cx.types,
                                        p.llval.ty,
                                    ),
                                ),
                                None,
                            ),
                        },
                        None => (
                            b.span_err(span, "missing place for out register typeof"@),
                            None,
                        ),
                    }
                },
                AsmOperandView::InOut { reg, in_value, .. } => (
                    self.check_reg(span, reg),
                    Some(in_value.immediate.ty),
                ),
                AsmOperandView::Const { .. } => (
                    self.span_err(span, "cannot take the type of a const asm argument"@),
                    None,
                ),
                AsmOperandView::SymFn => (
                    self.span_err(span, "cannot take the type of a function asm argument"@),
                    None,
                ),
                AsmOperandView::SymStatic => (
                    self.span_err(span, "cannot take the type of a static variable asm argument"@),
                    None,
                ),
                AsmOperandView::Label => (
                    self.span_err(span, "cannot take the type of a label asm argument"@),
                    None,
                ),
        }
    }

    /// The id of the value of the operand `operand`.
    #[verifier::opaque]
    pub open spec fn placeholder_id(self, operand: AsmOperandView, span: Span) -> (
        BldView,
        Option<Word>,
    ) {
        match operand {
                AsmOperandView::In { reg, value } => self.check_reg(span, reg).try_def_value(
                    value.immediate,
                ),
                AsmOperandView::Out { reg, .. } => (
                    self.check_reg(span, reg).span_err(
                        span,
                        "out register cannot be used as a value"@,
                    ),
                    None,
                ),
                AsmOperandView::InOut { reg, in_value, .. } => self.check_reg(
                    span,
                    reg,
                ).try_def_value(in_value.immediate),
                AsmOperandView::Const { .. } => (
                    self.span_err(span, "const asm argument not supported yet"@),
                    None,
                ),
                AsmOperandView::SymFn => (
                    self.span_err(span, "function asm argument not supported yet"@),
                    None,
                ),
                AsmOperandView::SymStatic => (
                    self.span_err(span, "static variable asm argument not supported yet"@),
                    None,
                ),
                AsmOperandView::Label => (
                    self.span_err(span, "label asm argument not supported yet"@),
                    None,
                ),
        }
    }
}

impl Builder {
    /// Reports an error with the given words at the current span.
    pub fn err_str(&mut self, msg: &str)
        ensures
            final(self)@ == old(self)@.err(msg@),
    {
        self.err(String::from_str(msg));
    }

    /// Reports an error with the given words at `span`.
    pub fn span_err_str(&mut self, span: Span, msg: &str)
        ensures
            final(self)@ == old(self)@.span_err(span, msg@),
    {
        self.span_err(span, String::from_str(msg));
    }

    /// The text that describes the type with the id `id` in a message.
    pub fn describe(&self, id: Word) -> (r: String)
        ensures
            r@ == type_text_of(self@.cx.types, id),
    {
        match self.cx.type_cache.lookup(id) {
            Some(t) => describe_type(&t, id),
            None => {
                let n = u64_to_string(id as u64);
                concat2("unknown type %", n.as_str())
            },
        }
    }

    /// Checks the register of an operand: any but the SPIR-V class is
    /// reported at `span`.
    pub fn check_reg(&mut self, span: Span, reg: &InlineAsmRegOrRegClass)
        ensures
            final(self)@ == old(self)@.check_reg(span, reg@),
    {
        match reg {
            InlineAsmRegOrRegClass::SpirvReg => {},
            InlineAsmRegOrRegClass::Other(name) => {
                self.span_err(span, concat2("invalid register: ", name.as_str()));
            },
        }
    }

    /// The id of the name `name` of the block of assembly.
    pub fn intern(&mut self, name: String) -> (r: Option<Word>)
        requires
            old(self)@.wf(),
        ensures
            (final(self)@, r) == old(self)@.intern(name@),
            final(self)@.wf(),
            final(self)@.cx.types == old(self)@.cx.types,
    {
        match find_name(&self.asm_state.id_map, name.as_str()) {
            Some(w) => Some(w),
            None => match self.fresh_id() {
                Some(w) => {
                    let ghost before = self.asm_state.id_map.deep_view();
                    let ghost nv = name@;
                    self.asm_state.id_map.push((name, w));
                    assert(self.asm_state.id_map.deep_view() =~= before.push((nv, w)));
                    Some(w)
                },
                None => None,
            },
        }
    }

    /// Reads a token as the result of a line: a name `%name`, which the
    /// line then defines, or an operand of the block that can be written
    /// to. Anything else is reported.
    pub fn parse_id_out(&mut self, operands: &Vec<InlineAsmOperandRef>, token: &Token) -> (r:
        Option<OutRegister>)
        requires
            old(self)@.wf(),
            token_in_range(token@, operands.len() as nat),
        ensures
            (final(self)@, r) == old(self)@.parse_id_out(operands.deep_view(), token@),
            final(self)@.wf(),
    {
        reveal(BldView::parse_id_out);
        match token {
            Token::Word(word) => {
                if starts_with(word.as_str(), "%") {
                    proof {
                        reveal_strlit("%");
                    }
                    let name = suffix_from(word.as_str(), 1);
                    let ghost nv = name@;
                    let name_copy = name.clone();
                    match self.intern(name) {
                        Some(num) => {
                            if holds_id(&self.asm_state.defined_ids, num) {
                                let msg = concat2("%", name_copy.as_str()).concat(
                                    " is defined more than once",
                                );
                                self.err(msg);
                            } else {
                                self.asm_state.defined_ids.push(num);
                            }
                            Some(OutRegister::Regular(num))
                        },
                        None => None,
                    }
                } else {
                    self.err_str("expected ID");
                    None
                }
            },
            Token::String(_) => {
                self.err_str("expected ID, not string");
                None
            },
            Token::Typeof(_, span, _) => {
                self.span_err_str(*span, "cannot assign to a typeof expression");
                None
            },
            Token::Placeholder(i, span) => {
                assert(operands.deep_view()[*i as int] == operands@[*i as int]@);
                match &operands[*i] {
                    InlineAsmOperandRef::In { reg, .. } => {
                        self.check_reg(*span, reg);
                        self.span_err_str(*span, "in register cannot be assigned to");
                        None
                    },
                    InlineAsmOperandRef::Out { reg, place, .. } => {
                        self.check_reg(*span, reg);
                        match place {
                            Some(p) => Some(OutRegister::Place(*p)),
                            None => {
                                self.span_err_str(*span, "missing place for register");
                                None
                            },
                        }
                    },
                    InlineAsmOperandRef::InOut { reg, out_place, .. } => {
                        self.check_reg(*span, reg);
                        match out_place {
                            Some(p) => Some(OutRegister::Place(*p)),
                            None => {
                                self.span_err_str(*span, "missing place for register");
                                None
                            },
                        }
                    },
                    InlineAsmOperandRef::Const { .. } => {
                        self.span_err_str(*span, "cannot write to const asm argument");
                        None
                    },
                    InlineAsmOperandRef::SymFn => {
                        self.span_err_str(*span, "cannot write to function asm argument");
                        None
                    },
                    InlineAsmOperandRef::SymStatic => {
                        self.span_err_str(*span, "cannot write to static variable asm argument");
                        None
                    },
                    InlineAsmOperandRef::Label => {
                        self.span_err_str(*span, "cannot write to label asm argument");
                        None
                    },
                }
            },
        }
    }

    /// Reads a token as an id that a line uses: a name `%name`, an operand
    /// of the block that has a value, or the type of an operand. Anything
    /// else is reported.
    pub fn parse_id_in(&mut self, operands: &Vec<InlineAsmOperandRef>, token: &Token) -> (r:
        Option<Word>)
        requires
            old(self)@.wf(),
            token_in_range(token@, operands.len() as nat),
        ensures
            (final(self)@, r) == old(self)@.parse_id_in(operands.deep_view(), token@),
            final(self)@.wf(),
            final(self)@.cx.types == old(self)@.cx.types,
            final(self)@.cx.table == old(self)@.cx.table,
    {
        reveal(BldView::parse_id_in);
        match token {
            Token::Word(word) => {
                if starts_with(word.as_str(), "%") {
                    proof {
                        reveal_strlit("%");
                    }
                    self.intern(suffix_from(word.as_str(), 1))
                } else {
                    self.err_str("expected ID");
                    None
                }
            },
            Token::String(_) => {
                self.err_str("expected ID, not string");
                None
            },
            Token::Typeof(i, span, kind) => {
                assert(operands.deep_view()[*i as int] == operands@[*i as int]@);
                self.typeof_id(&operands[*i], *span, *kind)
            },
            Token::Placeholder(i, span) => {
                assert(operands.deep_view()[*i as int] == operands@[*i as int]@);
                self.placeholder_id(&operands[*i], *span)
            },
        }
    }

    /// The id of the type that a `typeof` of the operand asks for: the
    /// type of the operand's value, or what that type points to.
    pub fn typeof_id(&mut self, operand: &InlineAsmOperandRef, span: Span, kind: TypeofKind) -> (r:
        Option<Word>)
        requires
            old(self)@.wf(),
        ensures
            (final(self)@, r) == old(self)@.typeof_id(operand@, span, kind),
            final(self)@.cx.types == old(self)@.cx.types,
            final(self)@.cx.builder == old(self)@.cx.builder,
            final(self)@.cx.table == old(self)@.cx.table,
            final(self)@.wf(),
    {
        reveal(BldView::typeof_id);
        match operand {
            InlineAsmOperandRef::In { reg, value } => {
                self.check_reg(span, reg);
                let ty = value.immediate.ty;
                match kind {
                    TypeofKind::Plain => Some(ty),
                    TypeofKind::Dereference => {
                        match self.cx.type_cache.lookup(ty) {
                            Some(SpirvType::Pointer { pointee }) => Some(pointee),
                            _ => {
                                let text = self.describe(ty);
                                self.span_err(
                                    span,
                                    concat2(
                                        "cannot use typeof* on non-pointer type: ",
                                        text.as_str(),
                                    ),
                                );
                                Some(ty)
                            },
                        }
                    },
                }
            },
            InlineAsmOperandRef::Out { reg, place, .. } => {
                self.check_reg(span, reg);
                match place {
                    Some(p) => {
                        match self.cx.type_cache.lookup(p.llval.ty) {
                            Some(SpirvType::Pointer { pointee }) => Some(pointee),
                            _ => {
                                let text = self.describe(p.llval.ty);
                                self.span_err(
                                    span,
                                    concat2(
                                        "out register type not pointer: ",
                                        text.as_str(),
                                    ),
                                );
                                None
                            },
                        }
                    },
                    None => {
                        self.span_err_str(span, "missing place for out register typeof");
                        None
                    },
                }
            },
            InlineAsmOperandRef::InOut { reg, in_value, .. } => {
                self.check_reg(span, reg);
                Some(in_value.immediate.ty)
            },
            InlineAsmOperandRef::Const { .. } => {
                self.span_err_str(span, "cannot take the type of a const asm argument");
                None
            },
            InlineAsmOperandRef::SymFn => {
                self.span_err_str(
                    span,
                    "cannot take the type of a function asm argument",
                );
                None
            },
            InlineAsmOperandRef::SymStatic => {
                self.span_err_str(
                    span,
                    "cannot take the type of a static variable asm argument",
                );
                None
            },
            InlineAsmOperandRef::Label => {
                self.span_err_str(span, "cannot take the type of a label asm argument");
                None
            },
        }
    }

    /// The id of the value of the operand, where it has one.
    pub fn placeholder_id(&mut self, operand: &InlineAsmOperandRef, span: Span) -> (r: Option<Word>)
        requires
            old(self)@.wf(),
        ensures
            (final(self)@, r) == old(self)@.placeholder_id(operand@, span),
            final(self)@.wf(),
            final(self)@.cx.types == old(self)@.cx.types,
            final(self)@.cx.table == old(self)@.cx.table,
    {
        reveal(BldView::placeholder_id);
        match operand {
            InlineAsmOperandRef::In { reg, value } => {
                self.check_reg(span, reg);
                self.try_def_value(value.immediate)
            },
            InlineAsmOperandRef::Out { reg, .. } => {
                self.check_reg(span, reg);
                self.span_err_str(span, "out register cannot be used as a value");
                None
            },
            InlineAsmOperandRef::InOut { reg, in_value, .. } => {
                self.check_reg(span, reg);
                self.try_def_value(in_value.immediate)
            },
            InlineAsmOperandRef::Const { .. } => {
                self.span_err_str(span, "const asm argument not supported yet");
                None
            },
            InlineAsmOperandRef::SymFn => {
                self.span_err_str(span, "function asm argument not supported yet");
                None
            },
            InlineAsmOperandRef::SymStatic => {
                self.span_err_str(span, "static variable asm argument not supported yet");
                None
            },
            InlineAsmOperandRef::Label => {
                self.span_err_str(span, "label asm argument not supported yet");
                None
            },
        }
    }
}

} // verus!
