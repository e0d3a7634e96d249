//! The core of a SPIR-V code generator: an interning type cache, a module
//! builder with cursors, a codegen context with deferred ("zombie") errors,
//! the lowering of inline SPIR-V assembly, and a pass that fuses selections.

pub mod asm_ids;
pub mod asm_infer;
pub mod asm_inline;
pub mod asm_insert;
pub mod asm_line;
pub mod asm_operand;
pub mod builder;
pub mod builder_ops;
pub mod codegen_args;
pub mod codegen_cx;
pub mod diag;
pub mod disassemble;
pub mod enumerants;
pub mod fuse_laws;
pub mod fuse_runs;
pub mod fuse_selects;
pub mod fuse_tidy;
pub mod grammar;
pub mod module;
pub mod opts;
pub mod removal;
pub mod spirv_asm;
pub mod spirv_type;
pub mod spirv_type_constraints;
pub mod target;
pub mod target_feature;
pub mod text;
pub mod type_;
