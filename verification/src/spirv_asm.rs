//! The lowering of inline assembly: a textual SPIR-V dialect is lexed line
//! by line, parsed against the instruction grammar, and appended to the
//! module as typed instructions.

use vstd::prelude::*;
use crate::builder::Builder;
use crate::diag::Span;
use crate::module::{SpirvValue, Word};
use crate::text::{char_is_whitespace, is_whitespace, push_char};

verus! {

/// Whether the block of assembly is inside a basic block, or just after
/// an instruction that ended one.
#[derive(Clone, Debug, PartialEq, Eq)]
pub enum AsmBlock {
    Open,
    /// The last instruction was the terminator with this opcode and
    /// mnemonic.
    End { opcode: u32, opname: String },
}

/// The mathematical content of an [`AsmBlock`].
pub enum AsmBlockView {
    Open,
    End { opcode: u32, opname: Seq<char> },
}

impl View for AsmBlock {
    type V = AsmBlockView;

    open spec fn view(&self) -> AsmBlockView {
        match self {
            AsmBlock::Open => AsmBlockView::Open,
            AsmBlock::End { opcode, opname } => AsmBlockView::End {
                opcode: *opcode,
                opname: opname@,
            },
        }
    }
}

/// What is known of the ids of one block of assembly.
#[derive(Clone, Debug, PartialEq, Eq)]
pub struct AsmState {
    /// The names written as `%name`, each with its id, in the order of
    /// their first use.
    pub id_map: Vec<(String, Word)>,
    /// The ids that a line of the block defines.
    pub defined_ids: Vec<Word>,
    /// The types of ids, where known; a later entry for an id overrides an
    /// earlier one.
    pub id_to_type_map: Vec<(Word, Word)>,
    pub asm_block: AsmBlock,
}

/// The mathematical content of an [`AsmState`].
pub struct AsmStateView {
    pub id_map: Seq<(Seq<char>, Word)>,
    pub defined_ids: Seq<Word>,
    pub id_to_type_map: Seq<(Word, Word)>,
    pub asm_block: AsmBlockView,
}

impl View for AsmState {
    type V = AsmStateView;

    open spec fn view(&self) -> AsmStateView {
        AsmStateView {
            id_map: self.id_map.deep_view(),
            defined_ids: self.defined_ids@,
            id_to_type_map: self.id_to_type_map@,
            asm_block: self.asm_block@,
        }
    }
}

impl AsmStateView {
    /// The state at the start of a block of assembly.
    pub open spec fn start() -> AsmStateView {
        AsmStateView {
            id_map: Seq::empty(),
            defined_ids: Seq::empty(),
            id_to_type_map: Seq::empty(),
            asm_block: AsmBlockView::Open,
        }
    }
}

impl AsmState {
    /// The state at the start of a block of assembly.
    pub fn new() -> (r: AsmState)
        ensures
            r@ == AsmStateView::start(),
    {
        let r = AsmState {
            id_map: Vec::new(),
            defined_ids: Vec::new(),
            id_to_type_map: Vec::new(),
            asm_block: AsmBlock::Open,
        };
        assert(r.id_map.deep_view() =~= Seq::empty());
        r
    }
}

/// Which type a `typeof` asks for.
#[derive(Clone, Copy, Debug, PartialEq, Eq, Structural)]
pub enum TypeofKind {
    /// The type of the operand.
    Plain,
    /// The type that the operand points to.
    Dereference,
}

/// One token of a line of assembly.
#[derive(Clone, Debug, PartialEq, Eq)]
pub enum Token {
    /// A run of characters that are not whitespace.
    Word(String),
    /// A string literal, with its escapes resolved.
    String(String),
    /// An operand of the block, by its index.
    Placeholder(usize, Span),
    /// The type of an operand of the block.
    Typeof(usize, Span, TypeofKind),
}

/// The mathematical content of a [`Token`].
pub enum TokenView {
    Word(Seq<char>),
    String(Seq<char>),
    Placeholder(usize, Span),
    Typeof(usize, Span, TypeofKind),
}

impl View for Token {
    type V = TokenView;

    open spec fn view(&self) -> TokenView {
        match self {
            Token::Word(s) => TokenView::Word(s@),
            Token::String(s) => TokenView::String(s@),
            Token::Placeholder(i, span) => TokenView::Placeholder(*i, *span),
            Token::Typeof(i, span, kind) => TokenView::Typeof(*i, *span, *kind),
        }
    }
}

impl DeepView for Token {
    type V = TokenView;

    open spec fn deep_view(&self) -> TokenView {
        self@
    }
}

impl Token {
    /// A copy of the token.
    pub fn duplicate(&self) -> (r: Token)
        ensures
            r@ == self@,
    {
        match self {
            Token::Word(s) => Token::Word(s.clone()),
            Token::String(s) => Token::String(s.clone()),
            Token::Placeholder(i, span) => Token::Placeholder(*i, *span),
            Token::Typeof(i, span, kind) => Token::Typeof(*i, *span, *kind),
        }
    }
}

/// What lexing finds at a position of a line.
pub enum LexStep {
    /// Nothing but whitespace is left.
    End,
    /// A token, and the position after it.
    Token(TokenView, int),
    /// An error, with its words. The rest of the line is dropped.
    Error(Seq<char>),
}

/// The first position from `i` on that holds no whitespace.
pub open spec fn skip_whitespace(line: Seq<char>, i: int) -> int
    decreases line.len() - i,
{
    if 0 <= i < line.len() && is_whitespace(line[i]) {
        skip_whitespace(line, i + 1)
    } else {
        i
    }
}

/// The first position from `i` on that holds whitespace, or the line's end.
pub open spec fn word_end(line: Seq<char>, i: int) -> int
    decreases line.len() - i,
{
    if 0 <= i < line.len() && !is_whitespace(line[i]) {
        word_end(line, i + 1)
    } else {
        i
    }
}

/// The character that a backslash and `c` stand for in a string literal.
pub open spec fn escape_of(c: char) -> Option<char> {
    if c == 'n' {
        Some('\n')
    } else if c == 'r' {
        Some('\r')
    } else if c == 't' {
        Some('\t')
    } else if c == '0' {
        Some('\0')
    } else if c == '\\' {
        Some('\\')
    } else if c == '\'' {
        Some('\'')
    } else if c == '"' {
        Some('"')
    } else {
        None
    }
}

/// The words of the report of a string literal without its closing quote.
pub open spec fn unterminated_string() -> Seq<char> {
    "Unterminated string in instruction"@
}

/// The words of the report of a backslash before `c`, which is no escape.
pub open spec fn invalid_escape(c: char) -> Seq<char> {
    "invalid escape '\\"@.push(c) + "'"@
}

/// Lexes the rest of a string literal from position `i`, after the
/// characters `cooked` were read.
pub open spec fn lex_string(line: Seq<char>, i: int, cooked: Seq<char>) -> LexStep
    decreases line.len() - i,
{
    if i < 0 || i >= line.len() {
        LexStep::Error(unterminated_string())
    } else if line[i] == '"' {
        LexStep::Token(TokenView::String(cooked), i + 1)
    } else if line[i] == '\\' {
        if i + 1 >= line.len() {
            LexStep::Error(unterminated_string())
        } else {
            match escape_of(line[i + 1]) {
                Some(e) => lex_string(line, i + 2, cooked.push(e)),
                None => LexStep::Error(invalid_escape(line[i + 1])),
            }
        }
    } else {
        lex_string(line, i + 1, cooked.push(line[i]))
    }
}

/// What lexing finds from position `i` of `line`: whitespace is skipped;
/// a double quote opens a string literal; anything else starts a word,
/// which runs up to the next whitespace, and that one character of
/// whitespace is taken with it.
pub open spec fn lex_word_spec(line: Seq<char>, i: int) -> LexStep {
    let p = skip_whitespace(line, i);
    if p < 0 || p >= line.len() {
        LexStep::End
    } else if line[p] == '"' {
        lex_string(line, p + 1, Seq::empty())
    } else {
        let e = word_end(line, p + 1);
        LexStep::Token(
            TokenView::Word(line.subrange(p, e)),
            if e < line.len() {
                e + 1
            } else {
                e
            },
        )
    }
}

/// The tokens of `line` from position `i` on, and the error that ended the
/// lexing early, if one did.
pub open spec fn lex_line_spec(line: Seq<char>, i: int) -> (Seq<TokenView>, Option<Seq<char>>)
    decreases line.len() - i,
{
    match lex_word_spec(line, i) {
        LexStep::End => (Seq::empty(), None),
        LexStep::Error(m) => (Seq::empty(), Some(m)),
        LexStep::Token(t, next) => if i < next <= line.len() {
            let rest = lex_line_spec(line, next);
            (seq![t] + rest.0, rest.1)
        } else {
            (seq![t], None)
        },
    }
}

/// Skipping whitespace moves forward, and stops within the line.
pub proof fn lemma_skip_whitespace(line: Seq<char>, i: int)
    requires
        0 <= i <= line.len(),
    ensures
        i <= skip_whitespace(line, i) <= line.len(),
    decreases line.len() - i,
{
    if i < line.len() && is_whitespace(line[i]) {
        lemma_skip_whitespace(line, i + 1);
    }
}

/// A word ends at or after its start, within the line.
pub proof fn lemma_word_end(line: Seq<char>, i: int)
    requires
        0 <= i <= line.len(),
    ensures
        i <= word_end(line, i) <= line.len(),
    decreases line.len() - i,
{
    if i < line.len() && !is_whitespace(line[i]) {
        lemma_word_end(line, i + 1);
    }
}

/// A string literal ends after its start, within the line.
pub proof fn lemma_lex_string(line: Seq<char>, i: int, cooked: Seq<char>)
    requires
        0 <= i <= line.len(),
    ensures
        lex_string(line, i, cooked) matches LexStep::Token(_, next) ==> i < next <= line.len(),
    decreases line.len() - i,
{
    if i < line.len() && line[i] != '"' {
        if line[i] == '\\' {
            if i + 1 < line.len() {
                match escape_of(line[i + 1]) {
                    Some(e) => lemma_lex_string(line, i + 2, cooked.push(e)),
                    None => {},
                }
            }
        } else {
            lemma_lex_string(line, i + 1, cooked.push(line[i]));
        }
    }
}

/// A token ends after the position its lexing started from.
pub proof fn lemma_lex_word_advances(line: Seq<char>, i: int)
    requires
        0 <= i <= line.len(),
    ensures
        lex_word_spec(line, i) matches LexStep::Token(_, next) ==> i < next <= line.len(),
{
    lemma_skip_whitespace(line, i);
    let p = skip_whitespace(line, i);
    if p < line.len() {
        if line[p] == '"' {
            lemma_lex_string(line, p + 1, Seq::empty());
        } else {
            lemma_word_end(line, p + 1);
        }
    }
}

/// A string literal lexes to a string.
pub proof fn lemma_lex_string_text(line: Seq<char>, i: int, cooked: Seq<char>)
    requires
        0 <= i <= line.len(),
    ensures
        lex_string(line, i, cooked) matches LexStep::Token(t, _) ==> t is String,
    decreases line.len() - i,
{
    if i < line.len() && line[i] != '"' {
        if line[i] == '\\' {
            if i + 1 < line.len() {
                match escape_of(line[i + 1]) {
                    Some(e) => lemma_lex_string_text(line, i + 2, cooked.push(e)),
                    None => {},
                }
            }
        } else {
            lemma_lex_string_text(line, i + 1, cooked.push(line[i]));
        }
    }
}

/// Lexing finds words and strings, nothing else.
pub proof fn lemma_lex_gives_text(line: Seq<char>, i: int)
    requires
        0 <= i <= line.len(),
    ensures
        lex_word_spec(line, i) matches LexStep::Token(t, _) ==> t is Word || t is String,
{
    lemma_skip_whitespace(line, i);
    let p = skip_whitespace(line, i);
    if p < line.len() && line[p] == '"' {
        lemma_lex_string_text(line, p + 1, Seq::empty());
    }
}

/// The character that a backslash and `c` stand for in a string literal.
pub fn escape_char(c: char) -> (r: Option<char>)
    ensures
        r == escape_of(c),
{
    if c == 'n' {
        Some('\n')
    } else if c == 'r' {
        Some('\r')
    } else if c == 't' {
        Some('\t')
    } else if c == '0' {
        Some('\0')
    } else if c == '\\' {
        Some('\\')
    } else if c == '\'' {
        Some('\'')
    } else if c == '"' {
        Some('"')
    } else {
        None
    }
}

impl Builder {
    /// Lexes one token of `line` from the position `*pos`, and moves the
    /// position behind it. An unfinished string literal and an unknown
    /// escape are reported as errors, and no token is returned for them.
    pub fn lex_word(&mut self, line: &str, pos: &mut usize) -> (r: Option<Token>)
        requires
            *old(pos) <= line@.len(),
        ensures
            match lex_word_spec(line@, *old(pos) as int) {
                LexStep::End => r.is_none() && final(self)@ == old(self)@,
                LexStep::Error(m) => r.is_none() && final(self)@ == old(self)@.err(m),
                LexStep::Token(t, next) => {
                    &&& r.is_some()
                    &&& r.unwrap()@ == t
                    &&& *final(pos) == next
                    &&& *old(pos) < next
                    &&& final(self)@ == old(self)@
                },
            },
            *final(pos) <= line@.len(),
    {
        let n = line.unicode_len();
        let mut p: usize = *pos;
        while p < n && char_is_whitespace(line.get_char(p))
            invariant
                *pos <= p <= n,
                n == line@.len(),
                skip_whitespace(line@, *pos as int) == skip_whitespace(line@, p as int),
            decreases n - p,
        {
            p += 1;
        }
        if p >= n {
            *pos = p;
            return None;
        }
        proof {
            lemma_lex_word_advances(line@, *pos as int);
        }
        let first = line.get_char(p);
        if first == '"' {
            let mut cooked = String::new();
            let mut i: usize = p + 1;
            loop
                invariant
                    p < i <= n,
                    n == line@.len(),
                    *pos <= p,
                    *self == *old(self),
                    lex_word_spec(line@, *old(pos) as int) == lex_string(
                        line@,
                        i as int,
                        cooked@,
                    ),
                    lex_word_spec(line@, *old(pos) as int) matches LexStep::Token(_, next) ==> *old(
                        pos,
                    ) < next <= line@.len(),
                decreases n - i,
            {
                if i >= n {
                    *pos = n;
                    self.err(String::from_str("Unterminated string in instruction"));
                    return None;
                }
                let c = line.get_char(i);
                if c == '"' {
                    *pos = i + 1;
                    return Some(Token::String(cooked));
                } else if c == '\\' {
                    if i + 1 >= n {
                        *pos = n;
                        self.err(String::from_str("Unterminated string in instruction"));
                        return None;
                    }
                    let e = line.get_char(i + 1);
                    match escape_char(e) {
                        Some(escape) => {
                            push_char(&mut cooked, escape);
                            i += 2;
                        },
                        None => {
                            *pos = n;
                            let mut msg = String::from_str("invalid escape '\\");
                            push_char(&mut msg, e);
                            self.err(msg.concat("'"));
                            return None;
                        },
                    }
                } else {
                    push_char(&mut cooked, c);
                    i += 1;
                }
            }
        } else {
            let mut e: usize = p + 1;
            while e < n && !char_is_whitespace(line.get_char(e))
                invariant
                    p < e <= n,
                    n == line@.len(),
                    word_end(line@, p + 1) == word_end(line@, e as int),
                decreases n - e,
            {
                e += 1;
            }
            let word = String::from_str(line.substring_char(p, e));
            *pos = if e < n {
                e + 1
            } else {
                e
            };
            Some(Token::Word(word))
        }
    }

    /// Lexes `line` to its end, or to the first error, and puts the tokens
    /// at the end of `tokens`.
    pub fn lex_line(&mut self, line: &str, tokens: &mut Vec<Token>)
        ensures
            final(tokens).deep_view() == old(tokens).deep_view() + lex_line_spec(line@, 0).0,
            final(self)@ == match lex_line_spec(line@, 0).1 {
                Some(m) => old(self)@.err(m),
                None => old(self)@,
            },
    {
        let mut pos: usize = 0;
        let ghost start = tokens.deep_view();
        let ghost mut seen: Seq<TokenView> = Seq::empty();
        assert(start + seen =~= start);
        loop
            invariant
                pos <= line@.len(),
                self@ == old(self)@,
                tokens.deep_view() == start + seen,
                start == old(tokens).deep_view(),
                lex_line_spec(line@, 0).0 == seen + lex_line_spec(line@, pos as int).0,
                lex_line_spec(line@, 0).1 == lex_line_spec(line@, pos as int).1,
            decreases line@.len() - pos,
        {
            let ghost before = pos;
            match self.lex_word(line, &mut pos) {
                Some(token) => {
                    let ghost tv = token@;
                    let ghost all = tokens.deep_view();
                    tokens.push(token);
                    proof {
                        assert(tokens.deep_view() =~= all.push(tv));
                        let rest = lex_line_spec(line@, pos as int);
                        assert(seen + (seq![tv] + rest.0) =~= seen.push(tv) + rest.0);
                        seen = seen.push(tv);
                        assert(start + seen =~= all.push(tv));
                    }
                },
                None => {
                    assert(seen + Seq::<TokenView>::empty() =~= seen);
                    return ;
                },
            }
        }
    }
}

/// The register, or class of registers, that an operand is bound to.
#[derive(Clone, Debug, PartialEq, Eq)]
pub enum InlineAsmRegOrRegClass {
    /// The one class of registers that SPIR-V has.
    SpirvReg,
    /// Any other register or class, by its name.
    Other(String),
}

/// The mathematical content of an [`InlineAsmRegOrRegClass`].
pub enum RegView {
    SpirvReg,
    Other(Seq<char>),
}

impl View for InlineAsmRegOrRegClass {
    type V = RegView;

    open spec fn view(&self) -> RegView {
        match self {
            InlineAsmRegOrRegClass::SpirvReg => RegView::SpirvReg,
            InlineAsmRegOrRegClass::Other(s) => RegView::Other(s@),
        }
    }
}

/// A value that the host hands to a block of assembly: one immediate.
#[derive(Clone, Copy, Debug, PartialEq, Eq, Structural)]
pub struct OperandRef {
    pub immediate: SpirvValue,
    /// Whether the host's layout of the value is a single pointer.
    pub is_pointer: bool,
    /// The id of the type that the host's layout of the value converts to.
    pub precise_type: Word,
}

/// A place that a block of assembly writes to.
#[derive(Clone, Copy, Debug, PartialEq, Eq, Structural)]
pub struct PlaceRef {
    /// The pointer to the place.
    pub llval: SpirvValue,
    /// The id of the type that the host's layout of the place converts to.
    pub precise_type: Word,
}

/// One operand of a block of assembly.
#[derive(Clone, Debug, PartialEq, Eq)]
pub enum InlineAsmOperandRef {
    In { reg: InlineAsmRegOrRegClass, value: OperandRef },
    Out { reg: InlineAsmRegOrRegClass, late: bool, place: Option<PlaceRef> },
    InOut {
        reg: InlineAsmRegOrRegClass,
        late: bool,
        in_value: OperandRef,
        out_place: Option<PlaceRef>,
    },
    /// A constant, by the text it is rendered as.
    Const { string: String },
    SymFn,
    SymStatic,
    Label,
}

/// The mathematical content of an [`InlineAsmOperandRef`].
pub enum AsmOperandView {
    In { reg: RegView, value: OperandRef },
    Out { reg: RegView, late: bool, place: Option<PlaceRef> },
    InOut { reg: RegView, late: bool, in_value: OperandRef, out_place: Option<PlaceRef> },
    Const { string: Seq<char> },
    SymFn,
    SymStatic,
    Label,
}

impl View for InlineAsmOperandRef {
    type V = AsmOperandView;

    open spec fn view(&self) -> AsmOperandView {
        match self {
            InlineAsmOperandRef::In { reg, value } => AsmOperandView::In {
                reg: reg@,
                value: *value,
            },
            InlineAsmOperandRef::Out { reg, late, place } => AsmOperandView::Out {
                reg: reg@,
                late: *late,
                place: *place,
            },
            InlineAsmOperandRef::InOut { reg, late, in_value, out_place } => AsmOperandView::InOut {
                reg: reg@,
                late: *late,
                in_value: *in_value,
                out_place: *out_place,
            },
            InlineAsmOperandRef::Const { string } => AsmOperandView::Const { string: string@ },
            InlineAsmOperandRef::SymFn => AsmOperandView::SymFn,
            InlineAsmOperandRef::SymStatic => AsmOperandView::SymStatic,
            InlineAsmOperandRef::Label => AsmOperandView::Label,
        }
    }
}

impl DeepView for InlineAsmOperandRef {
    type V = AsmOperandView;

    open spec fn deep_view(&self) -> AsmOperandView {
        self@
    }
}

/// Where the result of a line of assembly goes.
#[derive(Clone, Copy, Debug, PartialEq, Eq, Structural)]
pub enum OutRegister {
    /// To the id with this number.
    Regular(Word),
    /// To a fresh id, which is then stored to this place.
    Place(PlaceRef),
}

} // verus!
