//! The instruction grammar, the flags, and the reading of text.

use rspirv::spirv;
use rustc_codegen_spirv::enumerants::{
    additional_operands_of, bitflag_table, parse_bitflags_operand, parse_enumerant,
};
use rustc_codegen_spirv::grammar::{
    InstructionTable, LogicalOperand, OperandKind, OperandQuantifier, OP_ACCESS_CHAIN, OP_BITCAST,
    OP_BITWISE_AND, OP_BITWISE_OR, OP_COMPOSITE_EXTRACT, OP_CONSTANT, OP_DECORATE,
    OP_DECORATE_STRING, OP_ENTRY_POINT, OP_FUNCTION, OP_IADD, OP_IEQUAL, OP_ISUB, OP_LABEL,
    OP_LOAD, OP_NAME, OP_RETURN, OP_SELECT, OP_SHIFT_LEFT_LOGICAL, OP_SHIFT_RIGHT_LOGICAL,
    OP_STORE, OP_TYPE_ACCELERATION_STRUCTURE_KHR, OP_TYPE_INT, OP_TYPE_POINTER,
    OP_TYPE_RAY_QUERY_KHR, OP_TYPE_VOID, OP_UNDEF, OP_UNREACHABLE, OP_VARIABLE,
};
use rustc_codegen_spirv::spirv_type_constraints::{instruction_signatures, ListTail, TyPat};
use rustc_codegen_spirv::text::{
    int_error_message, parse_int, split, starts_with, u64_to_string, IntErrorKind,
};

#[test]
fn the_table_holds_the_core_grammar() {
    let table = InstructionTable::new();
    assert!(table.table.len() > 300);
    assert_eq!(table.table.len(), table.scanned);
    let add = table.get("IAdd").unwrap();
    assert_eq!(add.opcode, 128);
    let one = |kind| LogicalOperand { kind, quantifier: OperandQuantifier::One };
    assert_eq!(
        add.operands,
        vec![
            one(OperandKind::IdResultType),
            one(OperandKind::IdResult),
            one(OperandKind::IdRef),
            one(OperandKind::IdRef),
        ]
    );
    let load = table.get("Load").unwrap();
    assert_eq!(
        load.operands.last(),
        Some(&LogicalOperand { kind: OperandKind::MemoryAccess, quantifier: OperandQuantifier::ZeroOrOne })
    );
    let chain = table.get("AccessChain").unwrap();
    assert_eq!(chain.operands.last().map(|o| o.quantifier), Some(OperandQuantifier::ZeroOrMore));
    assert!(table.get("OpIAdd").is_none());
    assert!(table.get("").is_none());
    assert_eq!(table.position("Nop"), Some(0));
}

#[test]
fn the_opcodes_are_those_of_the_grammar() {
    let table = InstructionTable::new();
    let pairs = [
        ("Undef", OP_UNDEF),
        ("Name", OP_NAME),
        ("EntryPoint", OP_ENTRY_POINT),
        ("TypeVoid", OP_TYPE_VOID),
        ("TypeInt", OP_TYPE_INT),
        ("TypePointer", OP_TYPE_POINTER),
        ("Constant", OP_CONSTANT),
        ("Function", OP_FUNCTION),
        ("Variable", OP_VARIABLE),
        ("Load", OP_LOAD),
        ("Store", OP_STORE),
        ("AccessChain", OP_ACCESS_CHAIN),
        ("Decorate", OP_DECORATE),
        ("CompositeExtract", OP_COMPOSITE_EXTRACT),
        ("Bitcast", OP_BITCAST),
        ("IAdd", OP_IADD),
        ("ISub", OP_ISUB),
        ("Select", OP_SELECT),
        ("IEqual", OP_IEQUAL),
        ("ShiftRightLogical", OP_SHIFT_RIGHT_LOGICAL),
        ("ShiftLeftLogical", OP_SHIFT_LEFT_LOGICAL),
        ("BitwiseOr", OP_BITWISE_OR),
        ("BitwiseAnd", OP_BITWISE_AND),
        ("Label", OP_LABEL),
        ("Return", OP_RETURN),
        ("Unreachable", OP_UNREACHABLE),
        ("TypeRayQueryKHR", OP_TYPE_RAY_QUERY_KHR),
        ("TypeAccelerationStructureKHR", OP_TYPE_ACCELERATION_STRUCTURE_KHR),
        ("DecorateString", OP_DECORATE_STRING),
    ];
    for (name, opcode) in pairs {
        assert_eq!(table.get(name).map(|g| g.opcode), Some(opcode), "{}", name);
    }
}

#[test]
fn every_kind_has_its_name() {
    let table = InstructionTable::new();
    for g in &table.table {
        for o in &g.operands {
            assert_eq!(OperandKind::from_name(o.kind.name()), Some(o.kind));
        }
    }
    assert_eq!(OperandKind::from_name("IdRef"), Some(OperandKind::IdRef));
    assert_eq!(OperandKind::from_name("idref"), None);
    assert_eq!(OperandQuantifier::from_name("ZeroOrMore"), Some(OperandQuantifier::ZeroOrMore));
    assert_eq!(OperandQuantifier::from_name("Many"), None);
}

#[test]
fn flags_are_read_by_their_names() {
    let image = bitflag_table(OperandKind::ImageOperands);
    assert_eq!(parse_bitflags_operand(&image, "Bias"), Some(1));
    assert_eq!(parse_bitflags_operand(&image, "Bias|Lod|Grad"), Some(7));
    assert_eq!(parse_bitflags_operand(&image, "None"), Some(0));
    assert_eq!(parse_bitflags_operand(&image, "Lod|Lod"), Some(2));
    assert_eq!(parse_bitflags_operand(&image, "Bias|"), None);
    assert_eq!(parse_bitflags_operand(&image, ""), None);
    assert_eq!(parse_bitflags_operand(&image, "bias"), None);
    assert_eq!(parse_bitflags_operand(&image, "Bias | Lod"), None);
    let semantics = bitflag_table(OperandKind::MemorySemantics);
    assert_eq!(parse_bitflags_operand(&semantics, "Relaxed"), Some(0));
    assert_eq!(parse_bitflags_operand(&semantics, "Acquire|UniformMemory"), Some(66));
    assert!(bitflag_table(OperandKind::IdRef).is_empty());
}

#[test]
fn the_flags_have_the_bits_of_the_grammar_source() {
    let check = |kind, name: &str, bits: u32| {
        assert_eq!(parse_bitflags_operand(&bitflag_table(kind), name), Some(bits), "{}", name);
    };
    check(OperandKind::ImageOperands, "ZeroExtend", spirv::ImageOperands::ZERO_EXTEND.bits());
    check(OperandKind::ImageOperands, "MakeTexelVisibleKHR", spirv::ImageOperands::MAKE_TEXEL_VISIBLE_KHR.bits());
    check(OperandKind::FPFastMathMode, "Fast", spirv::FPFastMathMode::FAST.bits());
    check(OperandKind::SelectionControl, "DontFlatten", spirv::SelectionControl::DONT_FLATTEN.bits());
    check(OperandKind::LoopControl, "PartialCount", spirv::LoopControl::PARTIAL_COUNT.bits());
    check(OperandKind::FunctionControl, "Const", spirv::FunctionControl::CONST.bits());
    check(OperandKind::MemorySemantics, "Volatile", spirv::MemorySemantics::VOLATILE.bits());
    check(OperandKind::MemoryAccess, "NonPrivatePointerKHR", spirv::MemoryAccess::NON_PRIVATE_POINTER_KHR.bits());
    check(OperandKind::KernelProfilingInfo, "CmdExecTime", spirv::KernelProfilingInfo::CMD_EXEC_TIME.bits());
    check(OperandKind::RayFlags, "SkipAabBsKHR", spirv::RayFlags::SKIP_AAB_BS_KHR.bits());
    check(OperandKind::FragmentShadingRate, "HORIZONTAL4_PIXELS", spirv::FragmentShadingRate::HORIZONTAL4_PIXELS.bits());
    check(
        OperandKind::CooperativeMatrixOperands,
        "SATURATING_ACCUMULATION_KHR",
        spirv::CooperativeMatrixOperands::SATURATING_ACCUMULATION_KHR.bits(),
    );
}

#[test]
fn a_group_operation_may_be_a_number() {
    assert_eq!(parse_enumerant(OperandKind::GroupOperation, "2"), Some(2));
    assert_eq!(parse_enumerant(OperandKind::GroupOperation, "7"), Some(7));
    assert_eq!(parse_enumerant(OperandKind::GroupOperation, "4"), None);
    assert_eq!(parse_enumerant(OperandKind::GroupOperation, "ClusteredReduce"), Some(3));
    assert_eq!(parse_enumerant(OperandKind::IdRef, "Function"), None);
    assert_eq!(parse_enumerant(OperandKind::ImageOperands, "Bias"), None);
}

#[test]
fn some_operands_bring_others_after_them() {
    let one = |kind| LogicalOperand { kind, quantifier: OperandQuantifier::One };
    assert_eq!(additional_operands_of(OperandKind::ImageOperands, 1), vec![one(OperandKind::IdRef)]);
    assert_eq!(
        additional_operands_of(OperandKind::ImageOperands, 4),
        vec![one(OperandKind::IdRef), one(OperandKind::IdRef)]
    );
    assert_eq!(additional_operands_of(OperandKind::ImageOperands, 0), Vec::new());
    assert_eq!(additional_operands_of(OperandKind::MemoryAccess, 2), vec![one(OperandKind::LiteralInteger)]);
    assert_eq!(additional_operands_of(OperandKind::MemoryAccess, 1), Vec::new());
    assert_eq!(additional_operands_of(OperandKind::LoopControl, 8), vec![one(OperandKind::LiteralInteger)]);
    let local_size = parse_enumerant(OperandKind::ExecutionMode, "LocalSize").unwrap();
    assert_eq!(
        additional_operands_of(OperandKind::ExecutionMode, local_size),
        vec![one(OperandKind::LiteralInteger); 3]
    );
    let location = parse_enumerant(OperandKind::Decoration, "Location").unwrap();
    assert_eq!(
        additional_operands_of(OperandKind::Decoration, location),
        vec![one(OperandKind::LiteralInteger)]
    );
    assert_eq!(additional_operands_of(OperandKind::Decoration, 0xffff_fff0), Vec::new());
    assert_eq!(additional_operands_of(OperandKind::Dim, 1), Vec::new());
}

#[test]
fn signatures_cover_the_common_instructions() {
    let add = instruction_signatures(OP_IADD);
    assert_eq!(add.len(), 1);
    assert_eq!(add[0].input_types.prefix, vec![TyPat::T, TyPat::T]);
    assert_eq!(add[0].input_types.tail, ListTail::Nil);
    assert_eq!(add[0].output_type, Some(TyPat::T));
    let load = instruction_signatures(OP_LOAD);
    assert_eq!(load[0].input_types.prefix, vec![TyPat::Pointer(Box::new(TyPat::T))]);
    assert_eq!(load[0].input_types.tail, ListTail::Any);
    assert!(instruction_signatures(OP_STORE).is_empty());
    assert!(instruction_signatures(OP_UNDEF).is_empty());
}

#[test]
fn integers_are_read_as_the_standard_library_reads_them() {
    let words = ["", "+", "-", "0", "+0", "-0", "7", "007", "255", "256", "-1", "-128", "-129",
        "127", "128", "12a", "a12", " 1", "1 ", "+-1", "4294967295", "4294967296",
        "99999999999999999999999999", "-99999999999999999999999999", "١٢", "1_000"];
    for w in words {
        let ours = parse_int(w, 0, 255).map(|v| v as u8).map_err(int_error_message);
        assert_eq!(ours, w.parse::<u8>().map_err(|e| &*e.to_string().leak()), "u8 {:?}", w);
        let ours = parse_int(w, -128, 127).map(|v| v as i8).map_err(int_error_message);
        assert_eq!(ours, w.parse::<i8>().map_err(|e| &*e.to_string().leak()), "i8 {:?}", w);
        let ours = parse_int(w, 0, 0xffff_ffff).map(|v| v as u32).map_err(int_error_message);
        assert_eq!(ours, w.parse::<u32>().map_err(|e| &*e.to_string().leak()), "u32 {:?}", w);
    }
    assert_eq!(parse_int("", 0, 9), Err(IntErrorKind::Empty));
    assert_eq!(parse_int("x", 0, 9), Err(IntErrorKind::InvalidDigit));
    assert_eq!(parse_int("10", 0, 9), Err(IntErrorKind::PosOverflow));
    assert_eq!(parse_int("-10", -9, 9), Err(IntErrorKind::NegOverflow));
    assert_eq!(parse_int("-9223372036854775808", i64::MIN as i128, i64::MAX as i128), Ok(i64::MIN as i128));
    assert_eq!(parse_int("18446744073709551615", 0, u64::MAX as i128), Ok(u64::MAX as i128));
}

#[test]
fn text_is_split_and_written() {
    let parts = |s: &str, c: char| split(s, c);
    assert_eq!(parts("a|b|c", '|'), vec!["a", "b", "c"]);
    assert_eq!(parts("", '|'), vec![""]);
    assert_eq!(parts("|", '|'), vec!["", ""]);
    assert_eq!(parts("a||b|", '|'), vec!["a", "", "b", ""]);
    assert_eq!(parts("é,ü", ','), vec!["é", "ü"]);
    assert_eq!(u64_to_string(0), "0");
    assert_eq!(u64_to_string(9), "9");
    assert_eq!(u64_to_string(10), "10");
    assert_eq!(u64_to_string(4294967295), "4294967295");
    assert_eq!(u64_to_string(u64::MAX), u64::MAX.to_string());
    assert!(starts_with("spirv-unknown", "spirv-"));
    assert!(starts_with("spirv-", "spirv-"));
    assert!(!starts_with("spirv", "spirv-"));
    assert!(!starts_with("xspirv-", "spirv-"));
    assert!(starts_with("x", ""));
}
