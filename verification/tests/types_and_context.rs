//! The type cache, the constants, the zombies and the module's end.

use rustc_codegen_spirv::builder::Builder;
use rustc_codegen_spirv::builder_ops::{eval_rotate, PassMode};
use rustc_codegen_spirv::codegen_args::{CodegenArgs, Parsed};
use rustc_codegen_spirv::codegen_cx::{CodegenCx, LinkageType, SpirvConst, TypeKind};
use rustc_codegen_spirv::diag::{Level, Span};
use rustc_codegen_spirv::enumerants::storage_class_written;
use rustc_codegen_spirv::grammar::{InstructionTable, OperandKind};
use rustc_codegen_spirv::module::{Instruction, Operand, SpirvValue, SpirvValueKind};
use rustc_codegen_spirv::spirv_asm::PlaceRef;
use rustc_codegen_spirv::spirv_type::SpirvType;
use rustc_codegen_spirv::type_::{
    BackendRepr, FnAbiError, FnAbiRequest, LayoutError, TyAndLayout,
};

fn cx() -> CodegenCx {
    let args = match CodegenArgs::parse(&Vec::new(), None) {
        Ok(Parsed::Args(a)) => a,
        other => panic!("{:?}", other),
    };
    CodegenCx::from_parts(args, InstructionTable::new(), 32, (1, 3))
}

fn builder_with_params(params: Vec<Instruction>) -> Builder {
    let mut cx = cx();
    let void = cx.def_type(SpirvType::Void);
    let fn_ty = cx.type_func(&Vec::new(), void);
    let id = cx.builder.id();
    let def = Instruction::new(54, Some(void), Some(id), Vec::new());
    let func = cx.builder.begin_function(def, fn_ty, id, params);
    let label = cx.builder.id();
    let block = cx.builder.begin_block(func, label);
    Builder::new(cx, block)
}

fn all_types() -> Vec<SpirvType> {
    vec![
        SpirvType::Void,
        SpirvType::Bool,
        SpirvType::Integer(32, false),
        SpirvType::Integer(32, true),
        SpirvType::Float(32),
        SpirvType::Adt { field_types: vec![3, 4] },
        SpirvType::Vector { element: 3, count: 4 },
        SpirvType::Matrix { element: 3, count: 4 },
        SpirvType::Array { element: 3, count: 9 },
        SpirvType::RuntimeArray { element: 3 },
        SpirvType::Pointer { pointee: 3 },
        SpirvType::Function { return_type: 1, arguments: vec![3, 3] },
        SpirvType::Image {
            sampled_type: 5,
            dim: 1,
            depth: 0,
            arrayed: 0,
            multisampled: 0,
            sampled: 1,
            image_format: 0,
        },
        SpirvType::Sampler,
        SpirvType::AccelerationStructureKhr,
        SpirvType::SampledImage { image_type: 13 },
        SpirvType::InterfaceBlock { inner_type: 6 },
        SpirvType::RayQueryKhr,
    ]
}

#[test]
fn a_type_is_looked_up_as_it_was_defined() {
    let mut cx = cx();
    for ty in all_types() {
        let id = cx.def_type(ty.clone());
        assert_eq!(cx.lookup_type(id), ty);
        assert_eq!(cx.type_cache.lookup(id), Some(ty));
    }
}

#[test]
fn a_type_defined_again_keeps_its_id_and_emits_nothing() {
    let mut cx = cx();
    let mut ids = Vec::new();
    for ty in all_types() {
        ids.push(cx.def_type(ty));
    }
    let emitted = cx.builder.module.types_global_values.clone();
    let next = cx.builder.next_id;
    for (ty, id) in all_types().into_iter().zip(ids.iter()) {
        assert_eq!(cx.def_type(ty), *id);
    }
    assert_eq!(cx.builder.module.types_global_values, emitted);
    assert_eq!(cx.builder.next_id, next);
    assert_eq!(emitted.len(), all_types().len());
}

#[test]
fn distinct_ids_are_declared_by_distinct_instructions() {
    let mut cx = cx();
    for ty in all_types() {
        cx.def_type(ty);
    }
    let insts = &cx.builder.module.types_global_values;
    for i in 0..insts.len() {
        for j in 0..i {
            assert_ne!(insts[i].result_id, insts[j].result_id);
            assert!(
                insts[i].opcode != insts[j].opcode || insts[i].operands != insts[j].operands,
                "{:?} {:?}",
                insts[i],
                insts[j]
            );
        }
    }
}

#[test]
fn a_type_is_declared_with_the_operands_of_its_fields() {
    let mut cx = cx();
    let int = cx.def_type(SpirvType::Integer(16, true));
    let ptr = cx.type_ptr_to_ext(int, 3);
    let func = cx.type_func(&vec![int, ptr], int);
    let g = &cx.builder.module.types_global_values;
    assert_eq!(
        g[0],
        Instruction::new(21, None, Some(int), vec![Operand::LiteralBit32(16), Operand::LiteralBit32(1)])
    );
    assert_eq!(
        g[1],
        Instruction::new(
            32,
            None,
            Some(ptr),
            vec![Operand::Enumerant(OperandKind::StorageClass, 8), Operand::IdRef(int)]
        )
    );
    assert_eq!(
        g[2],
        Instruction::new(
            33,
            None,
            Some(func),
            vec![Operand::IdRef(int), Operand::IdRef(int), Operand::IdRef(ptr)]
        )
    );
    assert_eq!(cx.type_ptr_to(int), ptr);
}

#[test]
fn integer_types_asked_for_by_width_are_unsigned() {
    let mut cx = cx();
    let widths = [cx.type_i8(), cx.type_i16(), cx.type_i32(), cx.type_i64(), cx.type_i128()];
    for (id, w) in widths.iter().zip([8u32, 16, 32, 64, 128]) {
        assert_eq!(cx.lookup_type(*id), SpirvType::Integer(w, false));
    }
    assert_eq!(cx.type_usize(), widths[2]);
    assert_eq!(cx.type_isize(), widths[2]);
    let floats = [cx.type_f16(), cx.type_f32(), cx.type_f64(), cx.type_f128()];
    for (id, w) in floats.iter().zip([16u32, 32, 64, 128]) {
        assert_eq!(cx.lookup_type(*id), SpirvType::Float(w));
    }
    let void_ptr = cx.type_ptr();
    assert_eq!(cx.type_ptr_ext(7), void_ptr);
    assert_eq!(cx.element_type(void_ptr).ok().map(|v| cx.lookup_type(v)), Some(SpirvType::Void));
}

#[test]
fn an_array_counts_by_a_constant() {
    let mut cx = cx();
    let int = cx.type_i32();
    let arr = cx.type_array(int, 5);
    let long = cx.type_i64();
    match cx.lookup_type(arr) {
        SpirvType::Array { element, count } => {
            assert_eq!(element, int);
            let c = cx.builder.module.types_global_values.iter().find(|i| i.result_id == Some(count));
            assert_eq!(
                c,
                Some(&Instruction::new(43, Some(long), Some(count), vec![Operand::LiteralBit64(5)]))
            );
        }
        other => panic!("{:?}", other),
    }
    assert_eq!(cx.type_array(int, 5), arr);
}

#[test]
fn types_are_classified_for_the_host() {
    let mut cx = cx();
    let expected = [
        TypeKind::Void,
        TypeKind::Integer,
        TypeKind::Integer,
        TypeKind::Integer,
        TypeKind::Float,
        TypeKind::Struct,
        TypeKind::Vector,
        TypeKind::Array,
        TypeKind::Array,
        TypeKind::Array,
        TypeKind::Pointer,
        TypeKind::Function,
        TypeKind::Token,
        TypeKind::Token,
        TypeKind::Token,
        TypeKind::Token,
        TypeKind::Struct,
        TypeKind::Token,
    ];
    for (ty, kind) in all_types().into_iter().zip(expected) {
        let id = cx.def_type(ty);
        assert_eq!(cx.type_kind(id), Ok(kind));
    }
    for (w, kind) in [(16, TypeKind::Half), (64, TypeKind::Double), (128, TypeKind::FP128)] {
        let id = cx.def_type(SpirvType::Float(w));
        assert_eq!(cx.type_kind(id), Ok(kind));
    }
    let odd = cx.def_type(SpirvType::Float(24));
    let err = cx.type_kind(odd).unwrap_err();
    assert_eq!(err.level, Level::Fatal);
    assert_eq!(err.message, "Invalid float width in type_kind: 24");
}

#[test]
fn questions_of_the_wrong_type_are_fatal() {
    let mut cx = cx();
    let int = cx.type_i32();
    let vec4 = cx.def_type(SpirvType::Vector { element: int, count: 4 });
    let float = cx.type_f64();
    assert_eq!(cx.element_type(vec4), Ok(int));
    assert_eq!(cx.vector_length(vec4), Ok(4));
    assert_eq!(cx.int_width(int), Ok(32));
    assert_eq!(cx.float_width(float), Ok(64));
    assert_eq!(
        cx.element_type(int).unwrap_err().message,
        format!("element_type called on invalid type: integer %{}", int)
    );
    assert_eq!(
        cx.vector_length(int).unwrap_err().message,
        format!("vector_length called on non-vector type: integer %{}", int)
    );
    assert_eq!(
        cx.float_width(vec4).unwrap_err().message,
        format!("float_width called on non-float type: vector %{}", vec4)
    );
    assert_eq!(
        cx.int_width(float).unwrap_err().message,
        format!("int_width called on non-integer type: float %{}", float)
    );
    assert_eq!(cx.debug_type(int), format!("integer %{}", int));
}

#[test]
fn layouts_are_classified_for_the_host() {
    let cx = cx();
    let layout = |r| TyAndLayout { backend_repr: r, size: 4 };
    assert!(cx.is_backend_immediate(layout(BackendRepr::Scalar)));
    assert!(cx.is_backend_immediate(layout(BackendRepr::SimdVector)));
    assert!(!cx.is_backend_immediate(layout(BackendRepr::ScalarPair)));
    assert!(!cx.is_backend_immediate(layout(BackendRepr::Memory)));
    assert!(cx.is_backend_scalar_pair(layout(BackendRepr::ScalarPair)));
    assert!(!cx.is_backend_scalar_pair(layout(BackendRepr::Scalar)));
    let span = Span { lo: 3, hi: 9 };
    let d = cx.handle_layout_err(&LayoutError::SizeOverflow("too big".to_string()), span, "T");
    assert_eq!((d.level, d.message.as_str(), d.span), (Level::Fatal, "too big", Some(span)));
    let d = cx.handle_layout_err(&LayoutError::Other("unknown".to_string()), span, "T");
    assert_eq!((d.level, d.message.as_str()), (Level::Bug, "failed to get layout for `T`: unknown"));
}

#[test]
fn constants_are_defined_once() {
    let mut cx = cx();
    let int = cx.type_i32();
    let a = cx.constant_int(int, 7);
    let b = cx.constant_int(int, 7);
    let c = cx.constant_int(int, 8);
    assert_eq!(a, b);
    assert_ne!(a, c);
    assert_eq!(cx.val_ty(a), int);
    let u = cx.undef(int);
    assert_eq!(cx.undef(int), u);
    let id = cx.def_value(u);
    assert_eq!(
        cx.builder.module.types_global_values.last(),
        Some(&Instruction::new(1, Some(int), Some(id), Vec::new()))
    );
    assert_eq!(cx.def_constant(int, SpirvConst::Scalar(7)), a);
}

#[test]
fn the_address_of_a_function_stands_for_an_undefined_value() {
    let mut bx = builder_with_params(Vec::new());
    let func = bx.current_block.parent_fn;
    let addr = bx.cx.get_fn_addr(func);
    assert_eq!(addr.kind, SpirvValueKind::FnAddr { function: func.id });
    assert_eq!(bx.cx.lookup_type(addr.ty), SpirvType::Pointer { pointee: func.ty });
    let next = bx.cx.builder.next_id;
    let id = bx.cx.def_value(addr);
    assert_eq!(bx.cx.builder.next_id, next);
    let inst = bx.cx.builder.module.types_global_values.iter().find(|i| i.result_id == Some(id));
    assert_eq!(inst.map(|i| (i.opcode, i.result_type)), Some((1, Some(addr.ty))));
}

#[test]
fn zombies_are_kept_silently_and_annotated_at_the_end() {
    let mut cx = cx();
    let int = cx.type_i32();
    cx.zombie_with_span(int, Span { lo: 5, hi: 8 }, "first reason");
    cx.zombie_no_span(77, "no place");
    cx.zombie_with_span(int, Span { lo: 5, hi: 8 }, "second reason");
    cx.set_linkage(77, "entry".to_string(), LinkageType::Import);
    assert!(cx.dcx.emitted.is_empty());
    assert_eq!(cx.zombie_decorations.len(), 2);
    let bound = cx.builder.next_id;
    let module = cx.finalize_module();
    assert_eq!(module.header.map(|h| (h.version_major, h.version_minor, h.bound)), Some((1, 3, bound)));
    let text = |s: &str| Operand::LiteralString(s.to_string());
    let user = Operand::Enumerant(OperandKind::Decoration, 5636);
    assert_eq!(
        module.annotations,
        vec![
            Instruction::new(
                71,
                None,
                None,
                vec![
                    Operand::IdRef(77),
                    Operand::Enumerant(OperandKind::Decoration, 41),
                    text("entry"),
                    Operand::Enumerant(OperandKind::LinkageType, 1),
                ]
            ),
            Instruction::new(5632, None, None, vec![Operand::IdRef(int), user.clone(), text("Zsecond reason")]),
            Instruction::new(5632, None, None, vec![Operand::IdRef(int), user.clone(), text("L5:8")]),
            Instruction::new(5632, None, None, vec![Operand::IdRef(77), user, text("Zno place")]),
        ]
    );
}

#[test]
fn a_narrow_atomic_is_a_zombie_where_the_runtime_disallows_it() {
    let mut bx = builder_with_params(Vec::new());
    let short = bx.cx.type_i16();
    let int = bx.cx.type_i32();
    bx.current_span = Some(Span { lo: 1, hi: 2 });
    bx.validate_atomic(int, 90);
    assert!(bx.cx.zombie_decorations.is_empty());
    bx.validate_atomic(short, 91);
    assert!(bx.cx.dcx.emitted.is_empty());
    assert_eq!(bx.cx.zombie_decorations.len(), 1);
    assert_eq!(bx.cx.zombie_decorations[0].0, 91);
    assert_eq!(bx.cx.zombie_decorations[0].1.reason, "atomic on i8 or i16 when disallowed by runtime");
    assert_eq!(bx.cx.zombie_decorations[0].1.src_loc, Some(Span { lo: 1, hi: 2 }));
    bx.cx.i8_i16_atomics_allowed = true;
    bx.validate_atomic(short, 92);
    assert_eq!(bx.cx.zombie_decorations.len(), 1);
}

#[test]
fn an_undefined_zombie_is_marked_under_its_own_id() {
    let mut bx = builder_with_params(Vec::new());
    let int = bx.cx.type_i32();
    let v = bx.undef_zombie(int, "gone");
    let id = bx.cx.def_value(v);
    assert_eq!(v.ty, int);
    assert_eq!(bx.cx.zombie_decorations[0].0, id);
    assert_eq!(bx.cx.zombie_decorations[0].1.src_loc, None);
    let w = bx.undef_zombie_with_span(int, Span { lo: 2, hi: 3 }, "gone again");
    assert_eq!(w, v);
    assert_eq!(bx.cx.zombie_decorations.len(), 1);
    assert_eq!(bx.cx.zombie_decorations[0].1.reason, "gone again");
    bx.zombie(500, "other");
    assert_eq!(bx.undef_zombie_no_span(int, "x"), v);
    assert_eq!(bx.cx.zombie_decorations.len(), 2);
}

#[test]
fn a_rotation_is_made_of_shifts_and_a_selection() {
    let mut bx = builder_with_params(Vec::new());
    let int = bx.cx.type_i32();
    let value = SpirvValue::with_type(100, int);
    let shift = SpirvValue::with_type(101, int);
    let rotated = bx.rotate(value, shift, true).unwrap();
    let insts = bx.cx.builder.module.functions[0].blocks[0].instructions.clone();
    let opcodes: Vec<u32> = insts.iter().map(|i| i.opcode).collect();
    assert_eq!(opcodes, vec![199, 130, 196, 194, 197, 170, 169]);
    let width = bx.cx.constant_int(int, 32);
    let mask = bx.cx.constant_int(int, 31);
    let zero = bx.cx.constant_int(int, 0);
    let id = |v: SpirvValue| match v.kind {
        SpirvValueKind::Def(id) => id,
        other => panic!("{:?}", other),
    };
    let res = |k: usize| insts[k].result_id.unwrap();
    assert_eq!(insts[0].operands, vec![Operand::IdRef(101), Operand::IdRef(id(mask))]);
    assert_eq!(insts[1].operands, vec![Operand::IdRef(id(width)), Operand::IdRef(res(0))]);
    assert_eq!(insts[2].operands, vec![Operand::IdRef(100), Operand::IdRef(res(0))]);
    assert_eq!(insts[3].operands, vec![Operand::IdRef(100), Operand::IdRef(res(1))]);
    assert_eq!(insts[4].operands, vec![Operand::IdRef(res(2)), Operand::IdRef(res(3))]);
    assert_eq!(insts[5].operands, vec![Operand::IdRef(res(0)), Operand::IdRef(id(zero))]);
    assert_eq!(
        insts[6].operands,
        vec![Operand::IdRef(res(5)), Operand::IdRef(100), Operand::IdRef(res(4))]
    );
    assert_eq!(rotated, SpirvValue::with_type(res(6), int));
    for i in insts.iter() {
        assert!(i.result_type.is_some());
    }
    assert_eq!(bx.cx.lookup_type(insts[5].result_type.unwrap()), SpirvType::Bool);
    let right = bx.rotate(value, shift, false).unwrap();
    let insts = &bx.cx.builder.module.functions[0].blocks[0].instructions;
    assert_eq!(insts[9].opcode, 194);
    assert_eq!(insts[10].opcode, 196);
    assert_eq!(bx.cx.val_ty(right), int);
}

#[test]
fn a_rotation_by_a_value_that_is_no_integer_is_fatal() {
    let mut bx = builder_with_params(Vec::new());
    let int = bx.cx.type_i32();
    let float = bx.cx.type_f32();
    bx.current_span = Some(Span { lo: 4, hi: 6 });
    let err = bx.rotate(SpirvValue::with_type(100, int), SpirvValue::with_type(101, float), true);
    let d = err.unwrap_err();
    assert_eq!(d.level, Level::Fatal);
    assert_eq!(d.span, Some(Span { lo: 4, hi: 6 }));
    assert_eq!(d.message, format!("cannot rotate non-integer type: float %{}", float));
    assert!(bx.cx.builder.module.functions[0].blocks[0].instructions.is_empty());
}

#[test]
fn the_rotation_idiom_rotates() {
    for s in [0u128, 1, 7, 8, 31, 32, 33, 63, 64, 65, 127, 128, 129, 1000] {
        let by = s as u32;
        assert_eq!(
            eval_rotate(32, 0x8000_0001, s, true),
            (0x8000_0001u32).rotate_left(by) as u128
        );
        assert_eq!(
            eval_rotate(32, 0x8000_0001, s, false),
            (0x8000_0001u32).rotate_right(by) as u128
        );
        assert_eq!(eval_rotate(8, 0x81, s, true), (0x81u8).rotate_left(by) as u128);
        assert_eq!(eval_rotate(16, 0x8001, s, false), (0x8001u16).rotate_right(by) as u128);
        assert_eq!(
            eval_rotate(64, 0x8000_0000_0000_0001, s, true),
            (0x8000_0000_0000_0001u64).rotate_left(by) as u128
        );
        let wide = 0x8000_0000_0000_0000_0000_0000_0000_0001u128;
        assert_eq!(eval_rotate(128, wide, s, true), wide.rotate_left(by));
        assert_eq!(eval_rotate(128, wide, s, false), wide.rotate_right(by));
    }
    assert_eq!(eval_rotate(32, 0x1234_5678, 64, true), 0x1234_5678);
    assert_eq!(eval_rotate(32, 0x1234_5678, 4, true), 0x2345_6781);
    assert_eq!(eval_rotate(128, 0x1234_5678, 256, false), 0x1234_5678);
}

#[test]
fn arguments_are_stored_by_their_pass_mode() {
    let int_param = |ty: u32, id: u32| Instruction::new(55, Some(ty), Some(id), Vec::new());
    let mut bx = builder_with_params(vec![int_param(900, 901), int_param(900, 902), int_param(900, 903)]);
    let dst = PlaceRef { llval: SpirvValue::with_type(800, 801), precise_type: 900 };
    assert_eq!(bx.get_param(1), SpirvValue::with_type(902, 900));
    let mut idx = 0;
    bx.store_fn_arg(PassMode::Ignore, &mut idx, dst);
    assert_eq!(idx, 0);
    assert!(bx.cx.builder.module.functions[0].blocks[0].instructions.is_empty());
    bx.store_fn_arg(PassMode::Direct, &mut idx, dst);
    assert_eq!(idx, 1);
    assert_eq!(
        bx.cx.builder.module.functions[0].blocks[0].instructions,
        vec![Instruction::new(62, None, None, vec![Operand::IdRef(800), Operand::IdRef(901)])]
    );
    bx.store_fn_arg(PassMode::Pair, &mut idx, dst);
    assert_eq!(idx, 3);
    let insts = &bx.cx.builder.module.functions[0].blocks[0].instructions;
    let opcodes: Vec<u32> = insts.iter().map(|i| i.opcode).collect();
    assert_eq!(opcodes, vec![62, 65, 62, 65, 62]);
    assert_eq!(insts[2].operands, vec![Operand::IdRef(insts[1].result_id.unwrap()), Operand::IdRef(902)]);
    assert_eq!(insts[4].operands, vec![Operand::IdRef(insts[3].result_id.unwrap()), Operand::IdRef(903)]);
    bx.store_arg(PassMode::Direct, SpirvValue::with_type(5, 900), dst);
    assert_eq!(bx.cx.builder.module.functions[0].blocks[0].instructions.len(), 6);
}

#[test]
fn assembly_at_the_top_level_is_refused_at_its_first_line() {
    let cx = cx();
    let spans = vec![Span { lo: 7, hi: 9 }, Span { lo: 20, hi: 30 }];
    let d = cx.codegen_global_asm(&spans);
    assert_eq!(d.level, Level::Fatal);
    assert_eq!(d.span, Some(Span { lo: 7, hi: 9 }));
    assert_eq!(d.message, "[Rust-GPU] `global_asm!` not yet supported");
    let none = cx.codegen_global_asm(&Vec::new());
    assert_eq!(none.span, Some(Span::dummy()));
    assert_eq!(none.level, Level::Fatal);
}

#[test]
fn a_function_without_prologue_is_a_fault() {
    let cx = cx();
    let d = cx.mangled_name(Span { lo: 3, hi: 4 });
    assert_eq!(d.level, Level::Bug);
    assert_eq!(d.span, Some(Span { lo: 3, hi: 4 }));
    assert_eq!(d.message, "[Rust-GPU] `#[naked] fn` not yet supported");
}

#[test]
fn casts_and_registers_never_arrive() {
    let cx = cx();
    let c = cx.cast_backend_type("CastTarget");
    assert_eq!(c.level, Level::Bug);
    assert_eq!(c.span, None);
    assert_eq!(
        c.message,
        "cast_backend_type(CastTarget): query hooks should've made `PassMode::Cast` impossible"
    );
    let r = cx.reg_backend_type("Reg");
    assert_eq!(r.level, Level::Bug);
    assert_eq!(
        r.message,
        "reg_backend_type(Reg): query hooks should've made `PassMode::Cast` impossible"
    );
}

#[test]
fn abi_errors_name_what_was_asked() {
    let cx = cx();
    let span = Span { lo: 1, hi: 2 };
    let ptr = FnAbiRequest::OfFnPtr { sig: "fn()".to_string(), extra_args: "[]".to_string() };
    let inst =
        FnAbiRequest::OfInstance { instance: "main".to_string(), extra_args: "[u8]".to_string() };
    let too_big = FnAbiError::Layout(LayoutError::SizeOverflow("too big".to_string()));
    let d = cx.handle_fn_abi_err(&too_big, span, &ptr);
    assert_eq!(d.level, Level::Fatal);
    assert_eq!(d.message, "too big");
    assert_eq!(d.span, Some(span));
    let other = FnAbiError::Other("bad".to_string());
    let d = cx.handle_fn_abi_err(&other, span, &ptr);
    assert_eq!(d.level, Level::Bug);
    assert_eq!(d.message, "`fn_abi_of_fn_ptr(fn(), [])` failed: bad");
    let unknown = FnAbiError::Layout(LayoutError::Other("unknown".to_string()));
    let d = cx.handle_fn_abi_err(&unknown, span, &inst);
    assert_eq!(d.level, Level::Bug);
    assert_eq!(d.message, "`fn_abi_of_instance(main, [u8])` failed: unknown");
}

#[test]
fn the_builder_hands_out_the_module() {
    let mut b = builder_with_params(Vec::new());
    let before = b.cx.builder.clone();
    let block = b.current_block.clone();
    let next = {
        let module = b.emit();
        assert_eq!(*module, before);
        module.id()
    };
    assert_eq!(b.current_block, block);
    assert_ne!(b.cx.builder, before);
    assert_ne!(b.cx.builder.id(), next);
}

#[test]
fn a_type_that_is_interned_needs_no_free_id() {
    let mut bx = builder_with_params(Vec::new());
    let int = bx.cx.type_i32();
    let ptr = bx.cx.type_ptr_to(int);
    bx.cx.builder.next_id = u32::MAX;
    let module = bx.cx.builder.module.clone();
    assert_eq!(bx.cx.type_i32(), int);
    assert_eq!(bx.cx.type_ptr_to(int), ptr);
    assert_eq!(bx.cx.type_ptr_to_ext(int, 3), ptr);
    assert_eq!(bx.cx.type_ptr_to_ext(int, 7), ptr);
    assert_eq!(bx.try_def_type(SpirvType::Pointer { pointee: int }), Some(ptr));
    assert_eq!(bx.try_def_value(SpirvValue::with_type(5, int)), Some(5));
    assert_eq!(bx.cx.builder.next_id, u32::MAX);
    assert_eq!(bx.cx.builder.module, module);
    assert!(bx.cx.dcx.emitted.is_empty());
    assert_eq!(bx.try_def_type(SpirvType::Pointer { pointee: ptr }), None);
    assert_eq!(bx.cx.dcx.emitted.len(), 1);
    assert_eq!(bx.cx.dcx.emitted[0].level, Level::Fatal);
    assert_eq!(bx.cx.dcx.emitted[0].message, "the module has no id left for a new type or value");
    assert_eq!(bx.cx.builder.module, module);
}

#[test]
fn an_ignored_argument_needs_neither_ids_nor_a_block() {
    let mut bx = builder_with_params(Vec::new());
    bx.cx.builder.next_id = u32::MAX;
    bx.current_block.index_in_builder = 99;
    let before = bx.cx.builder.clone();
    let dst = PlaceRef { llval: SpirvValue::with_type(800, 801), precise_type: 900 };
    let mut idx = 4;
    bx.store_fn_arg(PassMode::Ignore, &mut idx, dst);
    bx.store_arg(PassMode::Ignore, SpirvValue::with_type(1, 2), dst);
    assert_eq!(idx, 4);
    assert_eq!(bx.cx.builder, before);
}

#[test]
fn a_storage_class_is_written_by_name_or_by_number() {
    assert_eq!(storage_class_written(7), "Function");
    assert_eq!(storage_class_written(8), "Generic");
    assert_eq!(storage_class_written(0), "UniformConstant");
    assert_eq!(storage_class_written(9999), "9999");
}
