//! The codegen context: it owns the module builder, the type and constant
//! caches, the table of deferred errors ("zombies") and the diagnostics,
//! and offers the type constructors and classifiers that the host asks for.

use vstd::prelude::*;
use crate::codegen_args::CodegenArgs;
use crate::diag::{
    bug_at, error_at, fatal_at, DiagCtxt, Diagnostic, DiagnosticView, Level, Span,
};
use crate::grammar::{
    InstructionTable, OperandKind, DECORATION_LINKAGE_ATTRIBUTES, OP_CONSTANT, OP_DECORATE,
    OP_DECORATE_STRING, OP_UNDEF, DECORATION_USER_TYPE_GOOGLE,
};
use crate::module::{
    inst, BuilderSpirv, BuilderView, Instruction, InstructionView, Module, ModuleHeader,
    ModuleView, Operand, OperandView, SpirvFunctionCursor, SpirvValue, SpirvValueKind, Word,
};
use crate::spirv_type::{
    def_builder_spec, def_spec, id_of, interned, lemma_def_keeps_ids, lemma_def_lookup, type_of,
    SpirvType, SpirvTypeView, TypeCache,
};
use crate::target::{check_target, target_verdict, TargetInfo};
use crate::target_feature::{
    parse_features, sort_names, target_features_of, FeatureView, TargetFeature,
};
use crate::text::{concat2, decimal, u64_to_string};

verus! {

/// The reason why an id must not be reached, and where it came from.
#[derive(Clone, Debug, PartialEq, Eq)]
pub struct ZombieDecoration {
    pub reason: String,
    pub src_loc: Option<Span>,
}

/// The mathematical content of a [`ZombieDecoration`].
pub struct ZombieView {
    pub reason: Seq<char>,
    pub src_loc: Option<Span>,
}

impl View for ZombieDecoration {
    type V = ZombieView;

    open spec fn view(&self) -> ZombieView {
        ZombieView { reason: self.reason@, src_loc: self.src_loc }
    }
}

impl DeepView for ZombieDecoration {
    type V = ZombieView;

    open spec fn deep_view(&self) -> ZombieView {
        self@
    }
}

/// A constant that the context can define.
#[derive(Clone, Copy, Debug, PartialEq, Eq, Structural)]
pub enum SpirvConst {
    /// An integer, by its bits.
    Scalar(u64),
    /// The undefined value.
    Undef,
    /// The undefined value that stands in for the address of a function.
    ZombieUndefForFnAddr,
}

/// How a symbol is linked.
#[derive(Clone, Copy, Debug, PartialEq, Eq, Structural)]
pub enum LinkageType {
    Export,
    Import,
    LinkOnceODR,
}

impl LinkageType {
    /// The number that stands for the linkage type in a module.
    pub open spec fn value_spec(self) -> u32 {
        match self {
            LinkageType::Export => 0,
            LinkageType::Import => 1,
            LinkageType::LinkOnceODR => 2,
        }
    }

    /// The number that stands for the linkage type in a module.
    pub fn value(self) -> (r: u32)
        ensures
            r == self.value_spec(),
    {
        match self {
            LinkageType::Export => 0,
            LinkageType::Import => 1,
            LinkageType::LinkOnceODR => 2,
        }
    }
}

/// The host's abstract classes of types.
#[derive(Clone, Copy, Debug, PartialEq, Eq, Structural)]
pub enum TypeKind {
    Void,
    Half,
    Float,
    Double,
    FP128,
    Integer,
    Function,
    Struct,
    Array,
    Pointer,
    Vector,
    Token,
}

/// The position of the last entry of `zombies` for the id `id`.
pub open spec fn zombie_index(zombies: Seq<(Word, ZombieView)>, id: Word) -> Option<int>
    decreases zombies.len(),
{
    if zombies.len() == 0 {
        None
    } else if zombies.last().0 == id {
        Some(zombies.len() - 1)
    } else {
        zombie_index(zombies.drop_last(), id)
    }
}

/// The table of zombies after `id` was marked: its entry is replaced where
/// it stands, or added at the end.
pub open spec fn zombie_insert(zombies: Seq<(Word, ZombieView)>, id: Word, z: ZombieView) -> Seq<
    (Word, ZombieView),
> {
    match zombie_index(zombies, id) {
        Some(i) => zombies.update(i, (id, z)),
        None => zombies.push((id, z)),
    }
}

/// The zombie that is recorded for a reason given at `span`: the dummy
/// span leaves no source location.
pub open spec fn zombie_at(span: Span, reason: Seq<char>) -> ZombieView {
    ZombieView { reason, src_loc: if span == Span::dummy_spec() { None } else { Some(span) } }
}

/// The annotation that carries a zombie's reason for the id `id`.
pub open spec fn zombie_inst(id: Word, reason: Seq<char>) -> InstructionView {
    inst(
        OP_DECORATE_STRING,
        None,
        None,
        seq![
            OperandView::IdRef(id),
            OperandView::Enumerant(OperandKind::Decoration, DECORATION_USER_TYPE_GOOGLE),
            OperandView::LiteralString("Z"@ + reason),
        ],
    )
}

/// The annotation that carries a zombie's source location for the id `id`.
pub open spec fn src_loc_inst(id: Word, span: Span) -> InstructionView {
    inst(
        OP_DECORATE_STRING,
        None,
        None,
        seq![
            OperandView::IdRef(id),
            OperandView::Enumerant(OperandKind::Decoration, DECORATION_USER_TYPE_GOOGLE),
            OperandView::LiteralString(
                "L"@ + decimal(span.lo as nat) + ":"@ + decimal(span.hi as nat),
            ),
        ],
    )
}

/// The annotations of one zombie: its reason, then its location if it has
/// one.
pub open spec fn zombie_annotations(entry: (Word, ZombieView)) -> Seq<InstructionView> {
    match entry.1.src_loc {
        Some(span) => seq![zombie_inst(entry.0, entry.1.reason), src_loc_inst(entry.0, span)],
        None => seq![zombie_inst(entry.0, entry.1.reason)],
    }
}

/// The annotations of all zombies, in the table's order.
pub open spec fn all_zombie_annotations(zombies: Seq<(Word, ZombieView)>) -> Seq<InstructionView>
    decreases zombies.len(),
{
    if zombies.len() == 0 {
        Seq::empty()
    } else {
        all_zombie_annotations(zombies.drop_last()) + zombie_annotations(zombies.last())
    }
}

/// The id under which `consts` holds the constant `c` of type `ty`.
pub open spec fn const_id_of(consts: Seq<(Word, SpirvConst, Word)>, ty: Word, c: SpirvConst)
    -> Option<Word>
    decreases consts.len(),
{
    if consts.len() == 0 {
        None
    } else if consts.last().0 == ty && consts.last().1 == c {
        Some(consts.last().2)
    } else {
        const_id_of(consts.drop_last(), ty, c)
    }
}

/// The instruction that defines the constant `c` of type `ty` under the id
/// `id`. An integer of a type that is known to be wider than 32 bits takes
/// a 64-bit literal, any other a 32-bit literal that keeps the low bits.
pub open spec fn const_inst(wide: bool, ty: Word, c: SpirvConst, id: Word) -> InstructionView {
    match c {
        SpirvConst::Scalar(v) => inst(
            OP_CONSTANT,
            Some(ty),
            Some(id),
            if wide {
                seq![OperandView::LiteralBit64(v)]
            } else {
                seq![OperandView::LiteralBit32((v & 0xffff_ffff) as u32)]
            },
        ),
        _ => inst(OP_UNDEF, Some(ty), Some(id), Seq::empty()),
    }
}

/// Whether the type is an integer or a float of more than 32 bits.
pub open spec fn is_wide(t: Option<SpirvTypeView>) -> bool {
    match t {
        Some(SpirvTypeView::Integer(w, _)) => w > 32,
        Some(SpirvTypeView::Float(w)) => w > 32,
        _ => false,
    }
}

/// The codegen context.
#[derive(Debug, PartialEq, Eq)]
pub struct CodegenCx {
    /// The module builder.
    pub builder: BuilderSpirv,
    pub type_cache: TypeCache,
    /// The constants defined so far: type, constant, id.
    pub const_cache: Vec<(Word, SpirvConst, Word)>,
    /// The ids that must not be reached, each with its reason.
    pub zombie_decorations: Vec<(Word, ZombieDecoration)>,
    pub instruction_table: InstructionTable,
    /// Whether the runtime allows atomics on integers of 8 and 16 bits.
    pub i8_i16_atomics_allowed: bool,
    pub codegen_args: CodegenArgs,
    /// The sink for diagnostics.
    pub dcx: DiagCtxt,
    /// The width of a pointer of the target, in bits.
    pub pointer_size_bits: u32,
    /// The version of SPIR-V that the module is written in.
    pub spirv_version: (u8, u8),
    /// The features of the target, in the order of their names.
    pub features: Vec<TargetFeature>,
}

/// The mathematical content of a [`CodegenCx`].
pub struct CxView {
    pub builder: BuilderView,
    pub types: Seq<(Word, SpirvTypeView)>,
    pub consts: Seq<(Word, SpirvConst, Word)>,
    pub zombies: Seq<(Word, ZombieView)>,
    pub diags: Seq<DiagnosticView>,
    pub table: InstructionTable,
    pub i8_i16_atomics_allowed: bool,
    pub codegen_args: CodegenArgs,
    pub pointer_size_bits: u32,
    pub spirv_version: (u8, u8),
    pub features: Seq<FeatureView>,
}

impl View for CodegenCx {
    type V = CxView;

    open spec fn view(&self) -> CxView {
        CxView {
            builder: self.builder@,
            types: self.type_cache@,
            consts: self.const_cache@,
            zombies: self.zombie_decorations.deep_view(),
            diags: self.dcx@,
            table: self.instruction_table,
            i8_i16_atomics_allowed: self.i8_i16_atomics_allowed,
            codegen_args: self.codegen_args,
            pointer_size_bits: self.pointer_size_bits,
            spirv_version: self.spirv_version,
            features: self.features.deep_view(),
        }
    }
}

impl CxView {
    /// Whether the type cache is a one-to-one table below the next id.
    pub open spec fn wf(self) -> bool {
        interned(self.types, self.builder.next_id)
    }

    /// How many ids can still be drawn.
    pub open spec fn ids_left(self) -> int {
        u32::MAX - self.builder.next_id
    }

    /// The context with `d` as its newest diagnostic.
    pub open spec fn emit(self, d: DiagnosticView) -> CxView {
        CxView { diags: self.diags.push(d), ..self }
    }

    /// The context with another builder.
    pub open spec fn with_builder(self, builder: BuilderView) -> CxView {
        CxView { builder, ..self }
    }

    /// Whether the type `ty` can be defined: the cache holds it, or an id
    /// is left to declare it under.
    pub open spec fn can_def_type(self, ty: SpirvTypeView) -> bool {
        id_of(self.types, ty) is Some || self.ids_left() >= 1
    }

    /// Whether the constant `c` of type `ty` can be defined: it is kept
    /// already, or an id is left to define it under.
    pub open spec fn can_def_constant(self, ty: Word, c: SpirvConst) -> bool {
        const_id_of(self.consts, ty, c) is Some || self.ids_left() >= 1
    }

    /// Whether the value `v` can be given its id: it has one, or the
    /// undefined value that stands in for an address can be defined.
    pub open spec fn can_def_value(self, v: SpirvValue) -> bool {
        match v.kind {
            SpirvValueKind::FnAddr { .. } => self.can_def_constant(
                v.ty,
                SpirvConst::ZombieUndefForFnAddr,
            ),
            _ => true,
        }
    }

    /// The context after the type `ty` was defined, and the type's id.
    pub open spec fn def_type(self, ty: SpirvTypeView) -> (CxView, Word) {
        let d = def_spec(self.types, self.builder.next_id, ty);
        (
            CxView { types: d.0, builder: def_builder_spec(self.types, self.builder, ty), ..self },
            d.1,
        )
    }

    /// The context after the constant `c` of type `ty` was defined, and the
    /// constant's id: the one it has, or a fresh one under which it is
    /// then defined in the global section and kept.
    pub open spec fn def_constant(self, ty: Word, c: SpirvConst) -> (CxView, Word) {
        match const_id_of(self.consts, ty, c) {
            Some(id) => (self, id),
            None => (
                CxView {
                    consts: self.consts.push((ty, c, self.builder.next_id)),
                    builder: self.builder.after_ids(1).push_global(
                        const_inst(
                            is_wide(type_of(self.types, ty)),
                            ty,
                            c,
                            self.builder.next_id,
                        ),
                    ),
                    ..self
                },
                self.builder.next_id,
            ),
        }
    }

    /// The context after `id` was marked a zombie.
    pub open spec fn zombie(self, id: Word, span: Span, reason: Seq<char>) -> CxView {
        CxView { zombies: zombie_insert(self.zombies, id, zombie_at(span, reason)), ..self }
    }

    /// The context after the value `v` was given its id, and that id. A
    /// function's address is the undefined value kept for addresses of its
    /// type, which is defined at this point if it was not before.
    pub open spec fn def_value(self, v: SpirvValue) -> (CxView, Word) {
        match v.kind {
            SpirvValueKind::Def(id) => (self, id),
            SpirvValueKind::IllegalConst(id) => (self, id),
            SpirvValueKind::FnAddr { .. } => self.def_constant(
                v.ty,
                SpirvConst::ZombieUndefForFnAddr,
            ),
        }
    }
}

/// The class of a type, or `None` for a float of a width that has none.
pub open spec fn type_kind_spec(t: SpirvTypeView) -> Option<TypeKind> {
    match t {
        SpirvTypeView::Void => Some(TypeKind::Void),
        SpirvTypeView::Bool => Some(TypeKind::Integer),
        SpirvTypeView::Integer(_, _) => Some(TypeKind::Integer),
        SpirvTypeView::Float(width) => if width == 16 {
            Some(TypeKind::Half)
        } else if width == 32 {
            Some(TypeKind::Float)
        } else if width == 64 {
            Some(TypeKind::Double)
        } else if width == 128 {
            Some(TypeKind::FP128)
        } else {
            None
        },
        SpirvTypeView::Adt { .. } => Some(TypeKind::Struct),
        SpirvTypeView::InterfaceBlock { .. } => Some(TypeKind::Struct),
        SpirvTypeView::Vector { .. } => Some(TypeKind::Vector),
        SpirvTypeView::Array { .. } => Some(TypeKind::Array),
        SpirvTypeView::RuntimeArray { .. } => Some(TypeKind::Array),
        SpirvTypeView::Matrix { .. } => Some(TypeKind::Array),
        SpirvTypeView::Pointer { .. } => Some(TypeKind::Pointer),
        SpirvTypeView::Function { .. } => Some(TypeKind::Function),
        SpirvTypeView::Image { .. } => Some(TypeKind::Token),
        SpirvTypeView::Sampler => Some(TypeKind::Token),
        SpirvTypeView::SampledImage { .. } => Some(TypeKind::Token),
        SpirvTypeView::AccelerationStructureKhr => Some(TypeKind::Token),
        SpirvTypeView::RayQueryKhr => Some(TypeKind::Token),
    }
}

/// A short name for the sort of type that `t` is.
pub open spec fn type_sort(t: SpirvTypeView) -> Seq<char> {
    match t {
        SpirvTypeView::Void => "void"@,
        SpirvTypeView::Bool => "bool"@,
        SpirvTypeView::Integer(_, _) => "integer"@,
        SpirvTypeView::Float(_) => "float"@,
        SpirvTypeView::Adt { .. } => "struct"@,
        SpirvTypeView::Vector { .. } => "vector"@,
        SpirvTypeView::Matrix { .. } => "matrix"@,
        SpirvTypeView::Array { .. } => "array"@,
        SpirvTypeView::RuntimeArray { .. } => "runtime array"@,
        SpirvTypeView::Pointer { .. } => "pointer"@,
        SpirvTypeView::Function { .. } => "function"@,
        SpirvTypeView::Image { .. } => "image"@,
        SpirvTypeView::Sampler => "sampler"@,
        SpirvTypeView::AccelerationStructureKhr => "acceleration structure"@,
        SpirvTypeView::SampledImage { .. } => "sampled image"@,
        SpirvTypeView::InterfaceBlock { .. } => "interface block"@,
        SpirvTypeView::RayQueryKhr => "ray query"@,
    }
}

/// The text that describes the type `t` with the id `id` in a message: the
/// sort of type, then `%` and the id.
pub open spec fn type_text(t: SpirvTypeView, id: Word) -> Seq<char> {
    type_sort(t) + " %"@ + decimal(id as nat)
}

/// The text that describes the type `t` with the id `id` in a message.
pub fn describe_type(t: &SpirvType, id: Word) -> (r: String)
    ensures
        r@ == type_text(t@, id),
{
    let sort = match t {
        SpirvType::Void => "void",
        SpirvType::Bool => "bool",
        SpirvType::Integer(_, _) => "integer",
        SpirvType::Float(_) => "float",
        SpirvType::Adt { .. } => "struct",
        SpirvType::Vector { .. } => "vector",
        SpirvType::Matrix { .. } => "matrix",
        SpirvType::Array { .. } => "array",
        SpirvType::RuntimeArray { .. } => "runtime array",
        SpirvType::Pointer { .. } => "pointer",
        SpirvType::Function { .. } => "function",
        SpirvType::Image { .. } => "image",
        SpirvType::Sampler => "sampler",
        SpirvType::AccelerationStructureKhr => "acceleration structure",
        SpirvType::SampledImage { .. } => "sampled image",
        SpirvType::InterfaceBlock { .. } => "interface block",
        SpirvType::RayQueryKhr => "ray query",
    };
    let id_text = u64_to_string(id as u64);
    concat2(sort, " %").concat(id_text.as_str())
}

impl CodegenCx {
    /// A context with an empty module, empty caches and no diagnostics.
    pub fn from_parts(
        codegen_args: CodegenArgs,
        instruction_table: InstructionTable,
        pointer_size_bits: u32,
        spirv_version: (u8, u8),
    ) -> (r: CodegenCx)
        ensures
            r@ == (CxView {
                builder: BuilderView { module: ModuleView::empty(), next_id: 1 },
                types: Seq::empty(),
                consts: Seq::empty(),
                zombies: Seq::empty(),
                diags: Seq::empty(),
                table: instruction_table,
                i8_i16_atomics_allowed: false,
                codegen_args,
                pointer_size_bits,
                spirv_version,
                features: Seq::empty(),
            }),
            r@.wf(),
    {
        let r = CodegenCx {
            builder: BuilderSpirv::new(),
            type_cache: TypeCache::new(),
            const_cache: Vec::new(),
            zombie_decorations: Vec::new(),
            instruction_table,
            i8_i16_atomics_allowed: false,
            codegen_args,
            dcx: DiagCtxt::new(),
            pointer_size_bits,
            spirv_version,
            features: Vec::new(),
        };
        assert(r.zombie_decorations.deep_view() =~= Seq::empty());
        assert(r.features.deep_view() =~= Seq::empty());
        r
    }

    /// A context for the target `target`, with an empty module and the
    /// whole instruction grammar. The target is checked first: one that
    /// is not supported, or whose specification is not the one built in,
    /// is fatal. The features of the target are read in the order of
    /// their names; where a name names none, that is reported as an
    /// error, and the context has no features.
    pub fn new(target: &TargetInfo, codegen_args: CodegenArgs) -> (r: Result<CodegenCx, Diagnostic>)
        ensures
            match target_verdict(target) {
                Some(d) => r is Err && r->Err_0@ == d,
                None => {
                    &&& r is Ok
                    &&& r->Ok_0@.wf()
                    &&& r->Ok_0@.table.complete()
                    &&& r->Ok_0@ == (CxView {
                        builder: BuilderView { module: ModuleView::empty(), next_id: 1 },
                        types: Seq::empty(),
                        consts: Seq::empty(),
                        zombies: Seq::empty(),
                        diags: match target_features_of(target.target_features.deep_view()) {
                            Ok(_) => Seq::empty(),
                            Err(e) => seq![error_at(None, e)],
                        },
                        table: r->Ok_0@.table,
                        i8_i16_atomics_allowed: false,
                        codegen_args,
                        pointer_size_bits: target.pointer_size_bits,
                        spirv_version: target.spirv_version,
                        features: match target_features_of(target.target_features.deep_view()) {
                            Ok(found) => found,
                            Err(_) => Seq::empty(),
                        },
                    })
                },
            },
    {
        match check_target(target) {
            Some(d) => Err(d),
            None => {
                let mut cx = CodegenCx::from_parts(
                    codegen_args,
                    InstructionTable::new(),
                    target.pointer_size_bits,
                    target.spirv_version,
                );
                let names = sort_names(&target.target_features);
                match parse_features(&names) {
                    Ok(found) => {
                        cx.features = found;
                    },
                    Err(report) => {
                        cx.emit_diagnostic(Diagnostic::new(Level::Error, None, report));
                        assert(cx@.diags =~= seq![error_at(None, report@)]);
                    },
                }
                Ok(cx)
            },
        }
    }

    /// The builder, to write the module's global section through.
    pub fn emit_global(&mut self) -> (r: &mut BuilderSpirv)
        ensures
            *r == old(self).builder,
            *final(self) == (CodegenCx { builder: *final(r), ..*old(self) }),
    {
        &mut self.builder
    }

    /// Reports `d`.
    pub fn emit_diagnostic(&mut self, d: Diagnostic)
        ensures
            final(self)@ == old(self)@.emit(d@),
    {
        self.dcx.emit(d);
    }

    /// The id of the type `ty`, which is declared now if it was not before.
    pub fn def_type(&mut self, ty: SpirvType) -> (r: Word)
        requires
            old(self)@.wf(),
            old(self)@.can_def_type(ty@),
        ensures
            (final(self)@, r) == old(self)@.def_type(ty@),
            final(self)@.wf(),
            type_of(final(self)@.types, r) == Some(ty@),
            id_of(final(self)@.types, ty@) == Some(r),
            old(self)@.builder.next_id <= final(self)@.builder.next_id <= old(self)@.builder.next_id
                + 1,
    {
        self.type_cache.def(&mut self.builder, ty)
    }

    /// The type with the id `ty`.
    pub fn lookup_type(&self, ty: Word) -> (r: SpirvType)
        requires
            type_of(self@.types, ty).is_some(),
        ensures
            Some(r@) == type_of(self@.types, ty),
    {
        let found = self.type_cache.lookup(ty);
        assert(found.deep_view().is_some());
        found.unwrap()
    }

    /// The text that describes the type with the id `ty` in a message.
    pub fn debug_type(&self, ty: Word) -> (r: String)
        requires
            type_of(self@.types, ty).is_some(),
        ensures
            r@ == type_text(type_of(self@.types, ty).unwrap(), ty),
    {
        let t = self.lookup_type(ty);
        describe_type(&t, ty)
    }

    /// The id of the type of pointers to `ty`.
    pub fn type_ptr_to(&mut self, ty: Word) -> (r: Word)
        requires
            old(self)@.wf(),
            old(self)@.can_def_type(SpirvTypeView::Pointer { pointee: ty }),
        ensures
            (final(self)@, r) == old(self)@.def_type(SpirvTypeView::Pointer { pointee: ty }),
            final(self)@.wf(),
    {
        self.def_type(SpirvType::Pointer { pointee: ty })
    }

    /// The id of the type of pointers to `ty`, in whichever address space:
    /// all address spaces share the one pointer type.
    pub fn type_ptr_to_ext(&mut self, ty: Word, _address_space: u32) -> (r: Word)
        requires
            old(self)@.wf(),
            old(self)@.can_def_type(SpirvTypeView::Pointer { pointee: ty }),
        ensures
            (final(self)@, r) == old(self)@.def_type(SpirvTypeView::Pointer { pointee: ty }),
            final(self)@.wf(),
    {
        self.def_type(SpirvType::Pointer { pointee: ty })
    }

    /// Marks `word` a zombie: an id that the linker must find unreachable,
    /// or else report `reason` at `span`. Nothing is reported now.
    pub fn zombie_with_span(&mut self, word: Word, span: Span, reason: &str)
        ensures
            final(self)@ == old(self)@.zombie(word, span, reason@),
    {
        let src_loc = if span.lo == 0 && span.hi == 0 {
            None
        } else {
            Some(span)
        };
        let z = ZombieDecoration { reason: String::from_str(reason), src_loc };
        let ghost before = self.zombie_decorations.deep_view();
        let ghost zv = z@;
        let found = find_zombie(&self.zombie_decorations, word);
        match found {
            Some(i) => {
                self.zombie_decorations.set(i, (word, z));
                assert(self.zombie_decorations.deep_view() =~= before.update(i as int, (word, zv)));
            },
            None => {
                self.zombie_decorations.push((word, z));
                assert(self.zombie_decorations.deep_view() =~= before.push((word, zv)));
            },
        }
    }

    /// Marks `word` a zombie with no place in the source.
    pub fn zombie_no_span(&mut self, word: Word, reason: &str)
        ensures
            final(self)@ == old(self)@.zombie(word, Span::dummy_spec(), reason@),
    {
        self.zombie_with_span(word, Span::dummy(), reason);
    }

    /// Ends code generation: the module, with the id bound in its header
    /// and the annotations of all zombies after the annotations made so
    /// far.
    pub fn finalize_module(self) -> (r: Module)
        ensures
            r@ == (ModuleView {
                header: Some(
                    ModuleHeader {
                        version_major: self.spirv_version.0,
                        version_minor: self.spirv_version.1,
                        generator: 0,
                        bound: self@.builder.next_id,
                        schema: 0,
                    },
                ),
                annotations: self@.builder.module.annotations + all_zombie_annotations(
                    self@.zombies,
                ),
                ..self@.builder.module
            }),
    {
        let mut result = self.builder.finalize(self.spirv_version);
        let zombies = self.zombie_decorations;
        let ghost zs = zombies.deep_view();
        let ghost base = result.annotations.deep_view();
        let ghost first = result@;
        let mut i: usize = 0;
        assert(zs.subrange(0, 0) =~= Seq::empty());
        assert(base + Seq::<InstructionView>::empty() =~= base);
        while i < zombies.len()
            invariant
                i <= zombies.len(),
                zs == zombies.deep_view(),
                result.annotations.deep_view() == base + all_zombie_annotations(
                    zs.subrange(0, i as int),
                ),
                result@ == (ModuleView { annotations: result.annotations.deep_view(), ..first }),
            decreases zombies.len() - i,
        {
            let id = zombies[i].0;
            let ghost before = result.annotations.deep_view();
            let ghost entry = zs[i as int];
            assert(entry == (zombies@[i as int].0, zombies@[i as int].1@));
            let mut ops: Vec<Operand> = Vec::new();
            ops.push(Operand::IdRef(id));
            ops.push(Operand::Enumerant(OperandKind::Decoration, DECORATION_USER_TYPE_GOOGLE));
            ops.push(Operand::LiteralString(concat2("Z", zombies[i].1.reason.as_str())));
            let zi = Instruction::new(OP_DECORATE_STRING, None, None, ops);
            assert(zi.operands.deep_view() =~= zombie_inst(entry.0, entry.1.reason).operands);
            result.annotations.push(zi);
            assert(result.annotations.deep_view() =~= before.push(zi@));
            match zombies[i].1.src_loc {
                Some(span) => {
                    let mut ops: Vec<Operand> = Vec::new();
                    ops.push(Operand::IdRef(id));
                    ops.push(
                        Operand::Enumerant(OperandKind::Decoration, DECORATION_USER_TYPE_GOOGLE),
                    );
                    let lo = u64_to_string(span.lo as u64);
                    let hi = u64_to_string(span.hi as u64);
                    let text = concat2("L", lo.as_str()).concat(":").concat(hi.as_str());
                    ops.push(Operand::LiteralString(text));
                    let li = Instruction::new(OP_DECORATE_STRING, None, None, ops);
                    assert(li.operands.deep_view() =~= src_loc_inst(entry.0, span).operands);
                    result.annotations.push(li);
                    assert(result.annotations.deep_view() =~= before + zombie_annotations(entry));
                },
                None => {
                    assert(result.annotations.deep_view() =~= before + zombie_annotations(entry));
                },
            }
            assert(zs.subrange(0, i + 1).drop_last() =~= zs.subrange(0, i as int));
            assert(result.annotations.deep_view() =~= base + all_zombie_annotations(
                zs.subrange(0, i + 1),
            ));
            i += 1;
        }
        assert(zs.subrange(0, zombies.len() as int) =~= zs);
        result
    }

    /// Gives `target` a name and a linkage type, by an annotation.
    pub fn set_linkage(&mut self, target: Word, name: String, linkage: LinkageType)
        ensures
            final(self)@ == old(self)@.with_builder(
                old(self)@.builder.push_annotation(
                    inst(
                        OP_DECORATE,
                        None,
                        None,
                        seq![
                            OperandView::IdRef(target),
                            OperandView::Enumerant(
                                OperandKind::Decoration,
                                DECORATION_LINKAGE_ATTRIBUTES,
                            ),
                            OperandView::LiteralString(name@),
                            OperandView::Enumerant(OperandKind::LinkageType, linkage.value_spec()),
                        ],
                    ),
                ),
            ),
    {
        let mut ops: Vec<Operand> = Vec::new();
        ops.push(Operand::IdRef(target));
        ops.push(Operand::Enumerant(OperandKind::Decoration, DECORATION_LINKAGE_ATTRIBUTES));
        ops.push(Operand::LiteralString(name));
        ops.push(Operand::Enumerant(OperandKind::LinkageType, linkage.value()));
        let i = Instruction::new(OP_DECORATE, None, None, ops);
        assert(i.operands.deep_view() =~= seq![
            OperandView::IdRef(target),
            OperandView::Enumerant(OperandKind::Decoration, DECORATION_LINKAGE_ATTRIBUTES),
            OperandView::LiteralString(name@),
            OperandView::Enumerant(OperandKind::LinkageType, linkage.value_spec()),
        ]);
        self.builder.annotate(i);
    }

    /// The id of the constant `c` of type `ty`, if it was defined.
    pub fn find_constant(&self, ty: Word, c: SpirvConst) -> (r: Option<Word>)
        ensures
            r == const_id_of(self@.consts, ty, c),
    {
        let mut i: usize = self.const_cache.len();
        assert(self.const_cache@.subrange(0, i as int) =~= self.const_cache@);
        while i > 0
            invariant
                i <= self.const_cache.len(),
                const_id_of(self.const_cache@, ty, c) == const_id_of(
                    self.const_cache@.subrange(0, i as int),
                    ty,
                    c,
                ),
            decreases i,
        {
            let ghost s = self.const_cache@.subrange(0, i as int);
            assert(s.last() == self.const_cache@[i - 1]);
            let e = self.const_cache[i - 1];
            if e.0 == ty && e.1 == c {
                return Some(e.2);
            }
            assert(s.drop_last() =~= self.const_cache@.subrange(0, i - 1));
            i -= 1;
        }
        None
    }

    /// Whether the value `v` can be given its id.
    pub fn can_def_value(&self, v: SpirvValue) -> (r: bool)
        ensures
            r == self@.can_def_value(v),
    {
        match v.kind {
            SpirvValueKind::FnAddr { .. } => {
                self.find_constant(v.ty, SpirvConst::ZombieUndefForFnAddr).is_some()
                    || self.builder.next_id < u32::MAX
            },
            _ => true,
        }
    }

    /// Whether the type `ty` can be defined.
    pub fn can_def_type(&self, ty: &SpirvType) -> (r: bool)
        ensures
            r == self@.can_def_type(ty@),
    {
        self.type_cache.get(ty).is_some() || self.builder.next_id < u32::MAX
    }

    /// The id of the constant `c` of type `ty`, which is defined now if it
    /// was not before.
    pub fn def_constant(&mut self, ty: Word, c: SpirvConst) -> (r: SpirvValue)
        requires
            old(self)@.wf(),
            old(self)@.can_def_constant(ty, c),
        ensures
            (final(self)@, r) == (
                old(self)@.def_constant(ty, c).0,
                SpirvValue { kind: SpirvValueKind::Def(old(self)@.def_constant(ty, c).1), ty },
            ),
            final(self)@.wf(),
            final(self)@.types == old(self)@.types,
            old(self)@.builder.next_id <= final(self)@.builder.next_id <= old(self)@.builder.next_id
                + 1,
    {
        match self.find_constant(ty, c) {
            Some(id) => {
                return SpirvValue::with_type(id, ty);
            },
            None => {},
        }
        let wide = match self.type_cache.lookup(ty) {
            Some(SpirvType::Integer(w, _)) => w > 32,
            Some(SpirvType::Float(w)) => w > 32,
            _ => false,
        };
        let id = self.builder.id();
        let mut ops: Vec<Operand> = Vec::new();
        let instruction = match c {
            SpirvConst::Scalar(v) => {
                if wide {
                    ops.push(Operand::LiteralBit64(v));
                } else {
                    ops.push(Operand::LiteralBit32(#[verifier::truncate] ((v & 0xffff_ffff) as u32)));
                }
                Instruction::new(OP_CONSTANT, Some(ty), Some(id), ops)
            },
            _ => Instruction::new(OP_UNDEF, Some(ty), Some(id), ops),
        };
        assert(instruction.operands.deep_view() =~= const_inst(wide, ty, c, id).operands);
        self.builder.insert_types_global_values(instruction);
        self.const_cache.push((ty, c, id));
        SpirvValue::with_type(id, ty)
    }

    /// The integer constant `val` of the type `ty`.
    pub fn constant_int(&mut self, ty: Word, val: u64) -> (r: SpirvValue)
        requires
            old(self)@.wf(),
            old(self)@.can_def_constant(ty, SpirvConst::Scalar(val)),
        ensures
            (final(self)@, r) == (
                old(self)@.def_constant(ty, SpirvConst::Scalar(val)).0,
                SpirvValue {
                    kind: SpirvValueKind::Def(
                        old(self)@.def_constant(ty, SpirvConst::Scalar(val)).1,
                    ),
                    ty,
                },
            ),
            final(self)@.wf(),
            final(self)@.types == old(self)@.types,
            old(self)@.builder.next_id <= final(self)@.builder.next_id <= old(self)@.builder.next_id
                + 1,
    {
        self.def_constant(ty, SpirvConst::Scalar(val))
    }

    /// The undefined value of the type `ty`.
    pub fn undef(&mut self, ty: Word) -> (r: SpirvValue)
        requires
            old(self)@.wf(),
            old(self)@.can_def_constant(ty, SpirvConst::Undef),
        ensures
            (final(self)@, r) == (
                old(self)@.def_constant(ty, SpirvConst::Undef).0,
                SpirvValue {
                    kind: SpirvValueKind::Def(old(self)@.def_constant(ty, SpirvConst::Undef).1),
                    ty,
                },
            ),
            final(self)@.wf(),
            final(self)@.types == old(self)@.types,
            old(self)@.builder.next_id <= final(self)@.builder.next_id <= old(self)@.builder.next_id
                + 1,
    {
        self.def_constant(ty, SpirvConst::Undef)
    }

    /// The id that stands for the value `v` in an instruction.
    pub fn def_value(&mut self, v: SpirvValue) -> (r: Word)
        requires
            old(self)@.wf(),
            old(self)@.can_def_value(v),
        ensures
            (final(self)@, r) == old(self)@.def_value(v),
            final(self)@.wf(),
            final(self)@.types == old(self)@.types,
            final(self)@.diags == old(self)@.diags,
            old(self)@.builder.next_id <= final(self)@.builder.next_id <= old(self)@.builder.next_id
                + 1,
    {
        match v.kind {
            SpirvValueKind::Def(id) => id,
            SpirvValueKind::IllegalConst(id) => id,
            SpirvValueKind::FnAddr { .. } => {
                let u = self.def_constant(v.ty, SpirvConst::ZombieUndefForFnAddr);
                match u.kind {
                    SpirvValueKind::Def(id) => id,
                    _ => 0,
                }
            },
        }
    }

    /// The fatal report of assembly at the top level of a crate, which is
    /// not supported: it points at the first of the lines, or at the dummy
    /// span where there is none.
    pub fn codegen_global_asm(&self, line_spans: &Vec<Span>) -> (r: Diagnostic)
        ensures
            r@ == fatal_at(
                Some(
                    if line_spans.len() > 0 {
                        line_spans@[0]
                    } else {
                        Span::dummy_spec()
                    },
                ),
                "[Rust-GPU] `global_asm!` not yet supported"@,
            ),
    {
        let span = if line_spans.len() > 0 {
            line_spans[0]
        } else {
            Span::dummy()
        };
        Diagnostic::new(
            Level::Fatal,
            Some(span),
            String::from_str("[Rust-GPU] `global_asm!` not yet supported"),
        )
    }

    /// The report of a function without prologue, which is not supported:
    /// it points at the function's definition.
    pub fn mangled_name(&self, def_span: Span) -> (r: Diagnostic)
        ensures
            r@ == bug_at(Some(def_span), "[Rust-GPU] `#[naked] fn` not yet supported"@),
    {
        Diagnostic::new(
            Level::Bug,
            Some(def_span),
            String::from_str("[Rust-GPU] `#[naked] fn` not yet supported"),
        )
    }

    /// The type of the value `v`: the type that the instruction defining
    /// the value declared for it.
    pub fn val_ty(&self, v: SpirvValue) -> (r: Word)
        ensures
            r == v.ty,
    {
        v.ty
    }

    /// The address of the function at `function`, as a value: a pointer to
    /// the function's type. The undefined value that stands in for such
    /// addresses is defined along with it.
    pub fn get_fn_addr(&mut self, function: SpirvFunctionCursor) -> (r: SpirvValue)
        requires
            old(self)@.wf(),
            ({
                let typed = old(self)@.def_type(SpirvTypeView::Pointer { pointee: function.ty });
                &&& old(self)@.can_def_type(SpirvTypeView::Pointer { pointee: function.ty })
                &&& typed.0.can_def_constant(typed.1, SpirvConst::ZombieUndefForFnAddr)
            }),
        ensures
            ({
                let typed = old(self)@.def_type(SpirvTypeView::Pointer { pointee: function.ty });
                &&& final(self)@ == typed.0.def_constant(
                    typed.1,
                    SpirvConst::ZombieUndefForFnAddr,
                ).0
                &&& r == (SpirvValue {
                    kind: SpirvValueKind::FnAddr { function: function.id },
                    ty: typed.1,
                })
            }),
            final(self)@.wf(),
    {
        let ty = self.def_type(SpirvType::Pointer { pointee: function.ty });
        let _ = self.def_constant(ty, SpirvConst::ZombieUndefForFnAddr);
        SpirvValue { kind: SpirvValueKind::FnAddr { function: function.id }, ty }
    }
}

/// The position of the last entry of `zombies` for the id `id`.
pub fn find_zombie(zombies: &Vec<(Word, ZombieDecoration)>, id: Word) -> (r: Option<usize>)
    ensures
        match r {
            Some(i) => zombie_index(zombies.deep_view(), id) == Some(i as int) && i < zombies.len(),
            None => zombie_index(zombies.deep_view(), id).is_none(),
        },
{
    let ghost all = zombies.deep_view();
    let mut i: usize = zombies.len();
    assert(all.subrange(0, i as int) =~= all);
    while i > 0
        invariant
            i <= zombies.len(),
            all == zombies.deep_view(),
            zombie_index(all, id) == zombie_index(all.subrange(0, i as int), id),
        decreases i,
    {
        let ghost s = all.subrange(0, i as int);
        assert(s.last() == (zombies@[i - 1].0, zombies@[i - 1].1@));
        if zombies[i - 1].0 == id {
            return Some(i - 1);
        }
        assert(s.drop_last() =~= all.subrange(0, i - 1));
        i -= 1;
    }
    None
}

/// A type that was defined can be defined again whether or not an id is
/// left, also after other types were defined: the repeat gives the id of
/// the first time, draws no id and declares nothing.
pub proof fn lemma_defined_type_stays(cx: CxView, ty: SpirvTypeView, other: SpirvTypeView)
    requires
        cx.wf(),
        cx.can_def_type(ty),
        cx.def_type(ty).0.can_def_type(other),
    ensures
        ({
            let (first, id) = cx.def_type(ty);
            let (later, _) = first.def_type(other);
            &&& first.can_def_type(ty)
            &&& first.def_type(ty) == (first, id)
            &&& later.can_def_type(ty)
            &&& later.def_type(ty) == (later, id)
        }),
{
    let (first, id) = cx.def_type(ty);
    lemma_def_lookup(cx.types, cx.builder.next_id, ty);
    lemma_def_keeps_ids(first.types, first.builder.next_id, other, ty);
}

} // verus!
