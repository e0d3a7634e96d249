//! Blocks of inline assembly, lowered into a block of a function.

use rustc_codegen_spirv::asm_inline::{InlineAsmOptions, InlineAsmTemplatePiece};
use rustc_codegen_spirv::builder::Builder;
use rustc_codegen_spirv::codegen_args::{CodegenArgs, Parsed};
use rustc_codegen_spirv::codegen_cx::CodegenCx;
use rustc_codegen_spirv::diag::{Level, Span};
use rustc_codegen_spirv::grammar::{InstructionTable, OperandKind};
use rustc_codegen_spirv::module::{Instruction, Operand, SpirvValue};
use rustc_codegen_spirv::spirv_asm::{
    InlineAsmOperandRef, InlineAsmRegOrRegClass, OperandRef, PlaceRef, Token,
};
use rustc_codegen_spirv::spirv_type::SpirvType;

fn options() -> InlineAsmOptions {
    InlineAsmOptions {
        pure_: false,
        nomem: false,
        readonly: false,
        preserves_flags: false,
        noreturn: false,
        nostack: false,
        att_syntax: false,
        raw: false,
        may_unwind: false,
    }
}

fn builder() -> Builder {
    let args = match CodegenArgs::parse(&Vec::new(), None) {
        Ok(Parsed::Args(a)) => a,
        other => panic!("{:?}", other),
    };
    let mut cx = CodegenCx::from_parts(args, InstructionTable::new(), 32, (1, 3));
    let void = cx.def_type(SpirvType::Void);
    let fn_ty = cx.type_func(&Vec::new(), void);
    let id = cx.builder.id();
    let def = Instruction::new(54, Some(void), Some(id), Vec::new());
    let func = cx.builder.begin_function(def, fn_ty, id, Vec::new());
    let label = cx.builder.id();
    let block = cx.builder.begin_block(func, label);
    Builder::new(cx, block)
}

fn text(s: &str) -> InlineAsmTemplatePiece {
    InlineAsmTemplatePiece::String(s.to_string())
}

fn hole(i: usize) -> InlineAsmTemplatePiece {
    InlineAsmTemplatePiece::Placeholder {
        operand_idx: i,
        modifier: None,
        span: Span { lo: 10 + i as u32, hi: 12 + i as u32 },
    }
}

fn input(value: SpirvValue) -> InlineAsmOperandRef {
    InlineAsmOperandRef::In {
        reg: InlineAsmRegOrRegClass::SpirvReg,
        value: OperandRef { immediate: value, is_pointer: false, precise_type: value.ty },
    }
}

fn block(bx: &Builder) -> &Vec<Instruction> {
    &bx.cx.builder.module.functions[0].blocks[0].instructions
}

fn messages(bx: &Builder) -> Vec<String> {
    bx.cx.dcx.emitted.iter().map(|d| d.message.clone()).collect()
}

#[test]
fn add_with_the_type_that_a_pointer_points_to() {
    let mut bx = builder();
    let int = bx.cx.type_i32();
    let ptr_ty = bx.cx.type_ptr_to(int);
    let ptr = SpirvValue::with_type(100, ptr_ty);
    let n = SpirvValue::with_type(101, int);
    let template = vec![
        text("%result = OpIAdd typeof*"),
        hole(0),
        text(" "),
        hole(0),
        text(" "),
        hole(1),
    ];
    let next = bx.cx.builder.next_id;
    bx.codegen_inline_asm(&template, &vec![input(ptr), input(n)], options());
    assert_eq!(messages(&bx), Vec::<String>::new());
    assert_eq!(
        block(&bx).last(),
        Some(&Instruction {
            opcode: 128,
            result_type: Some(int),
            result_id: Some(next),
            operands: vec![Operand::IdRef(100), Operand::IdRef(101)],
        })
    );
}

#[test]
fn trailing_terminator_needs_noreturn() {
    let mut bx = builder();
    bx.codegen_inline_asm(&vec![text("OpUnreachable")], &Vec::new(), options());
    assert_eq!(
        messages(&bx),
        vec!["trailing terminator `OpUnreachable` requires `options(noreturn)`".to_string()]
    );
    assert_eq!(block(&bx).last().map(|i| i.opcode), Some(255));
}

#[test]
fn noreturn_opens_a_block_after_the_terminator() {
    let mut bx = builder();
    let mut opts = options();
    opts.noreturn = true;
    let next = bx.cx.builder.next_id;
    bx.codegen_inline_asm(&vec![text("OpUnreachable")], &Vec::new(), opts);
    assert_eq!(messages(&bx), Vec::<String>::new());
    let insts = block(&bx);
    assert_eq!(insts.len(), 2);
    assert_eq!(insts[0].opcode, 255);
    assert_eq!(insts[1], Instruction::new(248, None, Some(next), Vec::new()));
}

#[test]
fn noreturn_without_a_terminator_is_an_error() {
    let mut bx = builder();
    let mut opts = options();
    opts.noreturn = true;
    bx.codegen_inline_asm(&vec![text("OpNop")], &Vec::new(), opts);
    assert_eq!(messages(&bx), vec!["`noreturn` requires a terminator at the end".to_string()]);
}

#[test]
fn only_noreturn_is_a_supported_option() {
    let mut bx = builder();
    let mut opts = options();
    opts.nomem = true;
    opts.raw = true;
    bx.codegen_inline_asm(&Vec::new(), &Vec::new(), opts);
    assert_eq!(messages(&bx), vec!["asm flags not supported: NOMEM | RAW".to_string()]);
}

#[test]
fn a_name_that_is_used_must_be_defined() {
    let mut bx = builder();
    bx.codegen_inline_asm(&vec![text("OpStore %a %b")], &Vec::new(), options());
    assert_eq!(
        messages(&bx),
        vec!["%a is used but not defined".to_string(), "%b is used but not defined".to_string()]
    );
    let insts = block(&bx);
    assert_eq!(insts.len(), 1);
    assert_eq!(insts[0].opcode, 62);
    assert!(matches!(insts[0].operands[0], Operand::IdRef(_)));
}

#[test]
fn a_name_is_defined_once() {
    let mut bx = builder();
    let int = bx.cx.type_i32();
    let n = SpirvValue::with_type(101, int);
    let template = vec![
        text("%r = OpCopyObject typeof"),
        hole(0),
        text(" "),
        hole(0),
        text("\n%r = OpCopyObject typeof"),
        hole(0),
        text(" "),
        hole(0),
    ];
    bx.codegen_inline_asm(&template, &vec![input(n)], options());
    assert_eq!(messages(&bx), vec!["%r is defined more than once".to_string()]);
}

#[test]
fn the_result_type_is_inferred_from_the_operands() {
    let mut bx = builder();
    let int = bx.cx.type_i32();
    let a = SpirvValue::with_type(100, int);
    let b = SpirvValue::with_type(101, int);
    let template = vec![text("%r = OpIAdd _ "), hole(0), text(" "), hole(1)];
    bx.codegen_inline_asm(&template, &vec![input(a), input(b)], options());
    assert_eq!(messages(&bx), Vec::<String>::new());
    assert_eq!(block(&bx).last().and_then(|i| i.result_type), Some(int));
}

#[test]
fn the_result_type_of_a_load_is_what_the_pointer_points_to() {
    let mut bx = builder();
    let int = bx.cx.type_i32();
    let ptr_ty = bx.cx.type_ptr_to(int);
    let ptr = SpirvValue::with_type(100, ptr_ty);
    let template = vec![text("%r = OpLoad _ "), hole(0)];
    bx.codegen_inline_asm(&template, &vec![input(ptr)], options());
    assert_eq!(messages(&bx), Vec::<String>::new());
    assert_eq!(block(&bx).last().and_then(|i| i.result_type), Some(int));
}

#[test]
fn operands_of_two_types_have_no_inferred_result_type() {
    let mut bx = builder();
    let int = bx.cx.type_i32();
    let long = bx.cx.type_i64();
    let a = SpirvValue::with_type(100, int);
    let b = SpirvValue::with_type(101, long);
    let template = vec![text("%r = OpIAdd _ "), hole(0), text(" "), hole(1)];
    bx.codegen_inline_asm(&template, &vec![input(a), input(b)], options());
    assert_eq!(
        messages(&bx),
        vec!["instruction IAdd cannot have its result type inferred".to_string()]
    );
}

#[test]
fn an_unknown_mnemonic_is_an_error() {
    let mut bx = builder();
    bx.codegen_inline_asm(&vec![text("OpBogus %x")], &Vec::new(), options());
    assert_eq!(messages(&bx), vec!["unknown spirv instruction OpBogus".to_string()]);
    bx.cx.dcx.emitted.clear();
    bx.codegen_inline_asm(&vec![text("IAdd %x")], &Vec::new(), options());
    assert_eq!(messages(&bx), vec!["unknown spirv instruction IAdd".to_string()]);
}

#[test]
fn a_result_needs_equals_and_an_instruction() {
    let mut bx = builder();
    bx.codegen_inline_asm(&vec![text("%x OpNop")], &Vec::new(), options());
    bx.codegen_inline_asm(&vec![text("%y =")], &Vec::new(), options());
    let got = messages(&bx);
    assert_eq!(got[0], "expected equals after result id specifier");
    assert!(got.contains(&"expected instruction after equals".to_string()));
}

#[test]
fn a_declared_type_takes_the_id_of_the_interned_type() {
    let mut bx = builder();
    let int = bx.cx.type_i32();
    let template = vec![text("%t = OpTypeInt 32 0\n%v = OpUndef %t")];
    let globals = bx.cx.builder.module.types_global_values.len();
    bx.codegen_inline_asm(&template, &Vec::new(), options());
    assert_eq!(messages(&bx), Vec::<String>::new());
    assert_eq!(bx.cx.builder.module.types_global_values.len(), globals);
    let last = block(&bx).last().cloned();
    assert_eq!(last.as_ref().map(|i| i.opcode), Some(1));
    assert_eq!(last.and_then(|i| i.result_type), Some(int));
}

#[test]
fn a_pointer_type_outside_generic_draws_a_warning() {
    let mut bx = builder();
    let int = bx.cx.type_i32();
    let n = SpirvValue::with_type(101, int);
    let template = vec![text("%p = OpTypePointer Function typeof"), hole(0)];
    bx.codegen_inline_asm(&template, &vec![input(n)], options());
    let d = &bx.cx.dcx.emitted[0];
    assert_eq!(d.level, Level::Warning);
    assert_eq!(d.message, "TypePointer in asm! requires `Generic` storage class");
    assert_eq!(d.notes, vec!["`Function` storage class was specified".to_string()]);
    assert_eq!(
        d.helps,
        vec!["the storage class will be inferred automatically (e.g. to `Function`)".to_string()]
    );
    assert!(bx.cx.type_cache.get(&SpirvType::Pointer { pointee: int }).is_some());
}

#[test]
fn structures_and_arrays_cannot_be_declared() {
    let mut bx = builder();
    bx.codegen_inline_asm(&vec![text("%s = OpTypeStruct")], &Vec::new(), options());
    bx.codegen_inline_asm(&vec![text("%a = OpTypeArray %x %y")], &Vec::new(), options());
    let got = messages(&bx);
    assert!(got.contains(&"OpTypeStruct in asm! is not supported yet".to_string()));
    assert!(got.contains(&"OpTypeArray in asm! is not supported yet".to_string()));
}

#[test]
fn a_literal_takes_the_width_of_its_constant() {
    let mut bx = builder();
    let template = vec![
        text("%t = OpTypeInt 8 1\n%c = OpConstant %t -1\n%u = OpTypeInt 64 0\n"),
        text("%d = OpConstant %u 18446744073709551615\n%e = OpConstant %t 128"),
    ];
    bx.codegen_inline_asm(&template, &Vec::new(), options());
    assert_eq!(messages(&bx), vec!["number too large to fit in target type".to_string()]);
    let insts = block(&bx);
    assert_eq!(insts[0].operands, vec![Operand::LiteralBit32(0xffff_ffff)]);
    assert_eq!(insts[1].operands, vec![Operand::LiteralBit64(u64::MAX)]);
    assert_eq!(insts[2].operands, Vec::<Operand>::new());
}

#[test]
fn a_float_literal_is_kept_as_written() {
    let mut bx = builder();
    let template = vec![text("%t = OpTypeFloat 32\n%c = OpConstant %t 20.5")];
    bx.codegen_inline_asm(&template, &Vec::new(), options());
    assert_eq!(messages(&bx), Vec::<String>::new());
    assert_eq!(
        block(&bx)[0].operands,
        vec![Operand::LiteralFloat { width: 32, text: "20.5".to_string() }]
    );
}

#[test]
fn flags_bring_their_operands_after_them() {
    let mut bx = builder();
    let int = bx.cx.type_i32();
    let ptr_ty = bx.cx.type_ptr_to(int);
    let ptr = SpirvValue::with_type(100, ptr_ty);
    let template = vec![text("%v = OpLoad typeof*"), hole(0), text(" "), hole(0), text(" Volatile|Aligned 4")];
    bx.codegen_inline_asm(&template, &vec![input(ptr)], options());
    assert_eq!(messages(&bx), Vec::<String>::new());
    assert_eq!(
        block(&bx)[0].operands,
        vec![
            Operand::IdRef(100),
            Operand::Enumerant(OperandKind::MemoryAccess, 3),
            Operand::LiteralBit32(4),
        ]
    );
}

#[test]
fn an_unknown_flag_or_enumerant_is_an_error() {
    let mut bx = builder();
    let int = bx.cx.type_i32();
    let ptr_ty = bx.cx.type_ptr_to(int);
    let ptr = SpirvValue::with_type(100, ptr_ty);
    let template = vec![text("%v = OpLoad typeof*"), hole(0), text(" "), hole(0), text(" Volatile|Bogus")];
    bx.codegen_inline_asm(&template, &vec![input(ptr)], options());
    bx.codegen_inline_asm(&vec![text("OpDecorate %v Bogus")], &Vec::new(), options());
    bx.codegen_inline_asm(&vec![text("OpSource Bogus 1")], &Vec::new(), options());
    let got = messages(&bx);
    assert!(got.contains(&"Unknown MemoryAccess Volatile|Bogus".to_string()));
    assert!(got.contains(&"unknown Decoration Bogus".to_string()));
    assert!(got.contains(&"Unknown SourceLanguage Bogus".to_string()));
}

#[test]
fn a_missing_operand_stops_the_line() {
    let mut bx = builder();
    bx.codegen_inline_asm(&vec![text("%v = OpUndef")], &Vec::new(), options());
    let got = messages(&bx);
    assert_eq!(got[0], "instruction Undef expects a result type");
    bx.cx.dcx.emitted.clear();
    bx.codegen_inline_asm(&vec![text("OpStore %a")], &Vec::new(), options());
    assert_eq!(messages(&bx)[0], "expected operand after instruction: Store");
}

#[test]
fn too_many_operands_and_stray_results_are_errors() {
    let mut bx = builder();
    bx.codegen_inline_asm(&vec![text("OpNop %a")], &Vec::new(), options());
    assert_eq!(messages(&bx)[0], "too many operands to instruction: Nop");
    assert_eq!(bx.cx.dcx.emitted[0].span, None);
    bx.cx.dcx.emitted.clear();
    bx.codegen_inline_asm(&vec![text("%r = OpNop")], &Vec::new(), options());
    assert_eq!(messages(&bx), vec!["instruction Nop does not expect a result id".to_string()]);
    bx.cx.dcx.emitted.clear();
    bx.codegen_inline_asm(&vec![text("OpUndef %t")], &Vec::new(), options());
    assert_eq!(messages(&bx)[0], "instruction Undef expects a result id");
}

#[test]
fn a_return_is_reported_and_kept() {
    let mut bx = builder();
    let mut opts = options();
    opts.noreturn = true;
    bx.codegen_inline_asm(&vec![text("OpReturn")], &Vec::new(), opts);
    let d = &bx.cx.dcx.emitted[0];
    assert_eq!(d.message, "using `OpReturn` to return from within `asm!` is disallowed");
    assert_eq!(d.notes.len(), 1);
    assert_eq!(messages(&bx).len(), 1);
    assert_eq!(block(&bx)[0].opcode, 253);
}

#[test]
fn a_label_must_follow_a_terminator() {
    let mut bx = builder();
    bx.codegen_inline_asm(&vec![text("OpUnreachable\nOpNop")], &Vec::new(), options());
    assert_eq!(
        messages(&bx),
        vec!["expected `OpLabel` after terminator `OpUnreachable`".to_string()]
    );
    bx.cx.dcx.emitted.clear();
    bx.codegen_inline_asm(&vec![text("OpUnreachable\n%l = OpLabel")], &Vec::new(), options());
    assert_eq!(messages(&bx), Vec::<String>::new());
}

#[test]
fn a_function_variable_goes_to_the_start_of_the_first_block() {
    let mut bx = builder();
    let int = bx.cx.type_i32();
    let ptr_ty = bx.cx.type_ptr_to(int);
    let p = SpirvValue::with_type(100, ptr_ty);
    let template = vec![text("OpNop\n%v = OpVariable typeof"), hole(0), text(" Function")];
    bx.codegen_inline_asm(&template, &vec![input(p)], options());
    assert_eq!(messages(&bx), Vec::<String>::new());
    let insts = block(&bx);
    assert_eq!(insts[0].opcode, 59);
    assert_eq!(insts[1].opcode, 0);
    let globals = bx.cx.builder.module.types_global_values.len();
    let template = vec![text("%w = OpVariable typeof"), hole(0), text(" Private")];
    bx.codegen_inline_asm(&template, &vec![input(p)], options());
    assert_eq!(bx.cx.builder.module.types_global_values.len(), globals + 1);
    assert_eq!(bx.cx.builder.module.types_global_values.last().map(|i| i.opcode), Some(59));
}

#[test]
fn a_result_for_a_place_is_stored_to_it() {
    let mut bx = builder();
    let int = bx.cx.type_i32();
    let ptr_ty = bx.cx.type_ptr_to(int);
    let n = SpirvValue::with_type(101, int);
    let out = InlineAsmOperandRef::Out {
        reg: InlineAsmRegOrRegClass::SpirvReg,
        late: false,
        place: Some(PlaceRef { llval: SpirvValue::with_type(100, ptr_ty), precise_type: int }),
    };
    let template = vec![hole(0), text(" = OpCopyObject typeof"), hole(0), text(" "), hole(1)];
    let next = bx.cx.builder.next_id;
    bx.codegen_inline_asm(&template, &vec![out, input(n)], options());
    assert_eq!(messages(&bx), Vec::<String>::new());
    let insts = block(&bx);
    assert_eq!(
        insts[0],
        Instruction::new(83, Some(int), Some(next), vec![Operand::IdRef(101)])
    );
    assert_eq!(
        insts[1],
        Instruction::new(62, None, None, vec![Operand::IdRef(100), Operand::IdRef(next)])
    );
}

#[test]
fn a_pointer_operand_is_cast_to_its_precise_type() {
    let mut bx = builder();
    let int = bx.cx.type_i32();
    let byte = bx.cx.type_i8();
    let loose = bx.cx.type_ptr_to(byte);
    let precise = bx.cx.type_ptr_to(int);
    let value = InlineAsmOperandRef::In {
        reg: InlineAsmRegOrRegClass::SpirvReg,
        value: OperandRef {
            immediate: SpirvValue::with_type(100, loose),
            is_pointer: true,
            precise_type: precise,
        },
    };
    let next = bx.cx.builder.next_id;
    let template = vec![text("%v = OpLoad typeof*"), hole(0), text(" "), hole(0)];
    bx.codegen_inline_asm(&template, &vec![value], options());
    assert_eq!(messages(&bx), Vec::<String>::new());
    let insts = block(&bx);
    assert_eq!(
        insts[0],
        Instruction::new(124, Some(precise), Some(next), vec![Operand::IdRef(100)])
    );
    assert_eq!(insts[1].opcode, 61);
    assert_eq!(insts[1].result_type, Some(int));
    assert_eq!(insts[1].operands, vec![Operand::IdRef(next)]);
}

#[test]
fn operands_that_cannot_be_read_or_written_are_reported() {
    let mut bx = builder();
    let int = bx.cx.type_i32();
    let n = SpirvValue::with_type(101, int);
    let other = InlineAsmOperandRef::In {
        reg: InlineAsmRegOrRegClass::Other("xmm0".to_string()),
        value: OperandRef { immediate: n, is_pointer: false, precise_type: int },
    };
    let template = vec![hole(0), text(" = OpNop")];
    bx.codegen_inline_asm(&template, &vec![other], options());
    assert_eq!(
        messages(&bx),
        vec!["invalid register: xmm0".to_string(), "in register cannot be assigned to".to_string()]
    );
    assert_eq!(bx.cx.dcx.emitted[0].span, Some(Span { lo: 10, hi: 12 }));
    bx.cx.dcx.emitted.clear();
    let template = vec![text("OpStore "), hole(0), text(" "), hole(1)];
    let operands = vec![InlineAsmOperandRef::SymFn, InlineAsmOperandRef::Label];
    bx.codegen_inline_asm(&template, &operands, options());
    assert_eq!(
        messages(&bx),
        vec![
            "function asm argument not supported yet".to_string(),
            "label asm argument not supported yet".to_string(),
        ]
    );
}

#[test]
fn a_constant_operand_is_written_into_the_line() {
    let mut bx = builder();
    let c = InlineAsmOperandRef::Const { string: "7".to_string() };
    let template = vec![text("%t = OpTypeInt 32 0\n%c = OpConstant %t "), hole(0)];
    bx.codegen_inline_asm(&template, &vec![c], options());
    assert_eq!(messages(&bx), Vec::<String>::new());
    assert_eq!(block(&bx)[0].operands, vec![Operand::LiteralBit32(7)]);
}

#[test]
fn a_modifier_is_not_supported() {
    let mut bx = builder();
    let int = bx.cx.type_i32();
    let n = SpirvValue::with_type(101, int);
    let piece = InlineAsmTemplatePiece::Placeholder {
        operand_idx: 0,
        modifier: Some('x'),
        span: Span { lo: 1, hi: 2 },
    };
    bx.codegen_inline_asm(&vec![text("OpNop\n%r = OpCopyObject _ "), piece], &vec![input(n)], options());
    assert_eq!(messages(&bx)[0], "asm modifiers are not supported: x");
}

#[test]
fn lexing_splits_words_and_cooks_strings() {
    let mut bx = builder();
    let mut tokens = Vec::new();
    bx.lex_line("  OpName\t%x \"a\\n\\\"b\\\\\"  tail", &mut tokens);
    assert_eq!(
        tokens,
        vec![
            Token::Word("OpName".to_string()),
            Token::Word("%x".to_string()),
            Token::String("a\n\"b\\".to_string()),
            Token::Word("tail".to_string()),
        ]
    );
    let mut pos = 0;
    assert_eq!(bx.lex_word("ab cd", &mut pos), Some(Token::Word("ab".to_string())));
    assert_eq!(pos, 3);
    assert_eq!(bx.lex_word("ab cd", &mut pos), Some(Token::Word("cd".to_string())));
    assert_eq!(pos, 5);
    assert_eq!(bx.lex_word("ab cd", &mut pos), None);
    assert_eq!(messages(&bx), Vec::<String>::new());
}

#[test]
fn lexing_reports_bad_strings_and_drops_the_rest() {
    let mut bx = builder();
    let mut tokens = Vec::new();
    bx.lex_line("OpName \"open", &mut tokens);
    assert_eq!(tokens, vec![Token::Word("OpName".to_string())]);
    let mut tokens = Vec::new();
    bx.lex_line("first \"a\\qb\" second", &mut tokens);
    assert_eq!(tokens, vec![Token::Word("first".to_string())]);
    let mut tokens = Vec::new();
    bx.lex_line("\"ends\\", &mut tokens);
    assert_eq!(
        messages(&bx),
        vec![
            "Unterminated string in instruction".to_string(),
            "invalid escape '\\q'".to_string(),
            "Unterminated string in instruction".to_string(),
        ]
    );
}

#[test]
fn a_carriage_return_ends_a_line() {
    let mut bx = builder();
    bx.codegen_inline_asm(&vec![text("OpNop\r\nOpNop\r")], &Vec::new(), options());
    assert_eq!(messages(&bx), Vec::<String>::new());
    assert_eq!(block(&bx).len(), 2);
}

#[test]
fn operands_keep_their_order_when_they_are_sharpened() {
    let mut bx = builder();
    let int = bx.cx.type_i32();
    let byte = bx.cx.type_i8();
    let loose = bx.cx.type_ptr_to(byte);
    let precise = bx.cx.type_ptr_to(int);
    let mut operands: Vec<InlineAsmOperandRef> =
        (0..10).map(|k| input(SpirvValue::with_type(100 + k, int))).collect();
    operands.push(InlineAsmOperandRef::In {
        reg: InlineAsmRegOrRegClass::SpirvReg,
        value: OperandRef {
            immediate: SpirvValue::with_type(200, loose),
            is_pointer: true,
            precise_type: precise,
        },
    });
    operands.push(InlineAsmOperandRef::Label);
    let next = bx.cx.builder.next_id;
    let sharp = bx.sharpen(&operands);
    assert_eq!(sharp.len(), 12);
    assert_eq!(&sharp[..10], &operands[..10]);
    assert_eq!(
        sharp[10],
        InlineAsmOperandRef::In {
            reg: InlineAsmRegOrRegClass::SpirvReg,
            value: OperandRef {
                immediate: SpirvValue::with_type(next, precise),
                is_pointer: true,
                precise_type: precise,
            },
        }
    );
    assert_eq!(sharp[11], InlineAsmOperandRef::Label);
}
