//! SPIR-V types and the cache that interns them: equal types get one id,
//! and each type's declaring instruction is emitted once.

use vstd::prelude::*;
use crate::grammar::{
    OperandKind, OP_TYPE_ACCELERATION_STRUCTURE_KHR, OP_TYPE_ARRAY, OP_TYPE_BOOL, OP_TYPE_FLOAT,
    OP_TYPE_FUNCTION, OP_TYPE_IMAGE, OP_TYPE_INT, OP_TYPE_MATRIX, OP_TYPE_POINTER,
    OP_TYPE_RAY_QUERY_KHR, OP_TYPE_RUNTIME_ARRAY, OP_TYPE_SAMPLED_IMAGE, OP_TYPE_SAMPLER,
    OP_TYPE_STRUCT, OP_TYPE_VECTOR, OP_TYPE_VOID, STORAGE_CLASS_GENERIC,
};
use crate::module::{inst, BuilderSpirv, BuilderView, Instruction, InstructionView, Operand, OperandView, Word};

verus! {

/// A SPIR-V type. Types that contain other types name them by id.
#[derive(Clone, Debug, PartialEq, Eq)]
pub enum SpirvType {
    Void,
    Bool,
    /// Width in bits, and whether the integer is signed.
    Integer(u32, bool),
    /// Width in bits.
    Float(u32),
    Adt { field_types: Vec<Word> },
    Vector { element: Word, count: u32 },
    Matrix { element: Word, count: u32 },
    /// `count` is the id of a constant.
    Array { element: Word, count: Word },
    RuntimeArray { element: Word },
    Pointer { pointee: Word },
    Function { return_type: Word, arguments: Vec<Word> },
    Image {
        sampled_type: Word,
        dim: u32,
        depth: u32,
        arrayed: u32,
        multisampled: u32,
        sampled: u32,
        image_format: u32,
    },
    Sampler,
    AccelerationStructureKhr,
    SampledImage { image_type: Word },
    InterfaceBlock { inner_type: Word },
    RayQueryKhr,
}

/// The mathematical content of a [`SpirvType`].
pub enum SpirvTypeView {
    Void,
    Bool,
    Integer(u32, bool),
    Float(u32),
    Adt { field_types: Seq<Word> },
    Vector { element: Word, count: u32 },
    Matrix { element: Word, count: u32 },
    Array { element: Word, count: Word },
    RuntimeArray { element: Word },
    Pointer { pointee: Word },
    Function { return_type: Word, arguments: Seq<Word> },
    Image {
        sampled_type: Word,
        dim: u32,
        depth: u32,
        arrayed: u32,
        multisampled: u32,
        sampled: u32,
        image_format: u32,
    },
    Sampler,
    AccelerationStructureKhr,
    SampledImage { image_type: Word },
    InterfaceBlock { inner_type: Word },
    RayQueryKhr,
}

impl View for SpirvType {
    type V = SpirvTypeView;

    open spec fn view(&self) -> SpirvTypeView {
        match self {
            SpirvType::Void => SpirvTypeView::Void,
            SpirvType::Bool => SpirvTypeView::Bool,
            SpirvType::Integer(w, s) => SpirvTypeView::Integer(*w, *s),
            SpirvType::Float(w) => SpirvTypeView::Float(*w),
            SpirvType::Adt { field_types } => SpirvTypeView::Adt { field_types: field_types@ },
            SpirvType::Vector { element, count } => SpirvTypeView::Vector {
                element: *element,
                count: *count,
            },
            SpirvType::Matrix { element, count } => SpirvTypeView::Matrix {
                element: *element,
                count: *count,
            },
            SpirvType::Array { element, count } => SpirvTypeView::Array {
                element: *element,
                count: *count,
            },
            SpirvType::RuntimeArray { element } => SpirvTypeView::RuntimeArray {
                element: *element,
            },
            SpirvType::Pointer { pointee } => SpirvTypeView::Pointer { pointee: *pointee },
            SpirvType::Function { return_type, arguments } => SpirvTypeView::Function {
                return_type: *return_type,
                arguments: arguments@,
            },
            SpirvType::Image {
                sampled_type,
                dim,
                depth,
                arrayed,
                multisampled,
                sampled,
                image_format,
            } => SpirvTypeView::Image {
                sampled_type: *sampled_type,
                dim: *dim,
                depth: *depth,
                arrayed: *arrayed,
                multisampled: *multisampled,
                sampled: *sampled,
                image_format: *image_format,
            },
            SpirvType::Sampler => SpirvTypeView::Sampler,
            SpirvType::AccelerationStructureKhr => SpirvTypeView::AccelerationStructureKhr,
            SpirvType::SampledImage { image_type } => SpirvTypeView::SampledImage {
                image_type: *image_type,
            },
            SpirvType::InterfaceBlock { inner_type } => SpirvTypeView::InterfaceBlock {
                inner_type: *inner_type,
            },
            SpirvType::RayQueryKhr => SpirvTypeView::RayQueryKhr,
        }
    }
}

impl DeepView for SpirvType {
    type V = SpirvTypeView;

    open spec fn deep_view(&self) -> SpirvTypeView {
        self@
    }
}

/// Tells whether two lists of ids hold the same ids in the same order.
pub fn words_eq(a: &Vec<Word>, b: &Vec<Word>) -> (r: bool)
    ensures
        r == (a@ == b@),
{
    if a.len() != b.len() {
        return false;
    }
    let mut i: usize = 0;
    while i < a.len()
        invariant
            i <= a.len(),
            a.len() == b.len(),
            forall|j: int| 0 <= j < i ==> a@[j] == b@[j],
        decreases a.len() - i,
    {
        if a[i] != b[i] {
            return false;
        }
        i += 1;
    }
    assert(a@ =~= b@);
    true
}

/// A copy of a list of ids.
pub fn copy_words(a: &Vec<Word>) -> (r: Vec<Word>)
    ensures
        r@ == a@,
{
    let mut out: Vec<Word> = Vec::new();
    let mut i: usize = 0;
    while i < a.len()
        invariant
            i <= a.len(),
            out@ == a@.subrange(0, i as int),
        decreases a.len() - i,
    {
        out.push(a[i]);
        assert(out@ =~= a@.subrange(0, i + 1));
        i += 1;
    }
    assert(out@ =~= a@);
    out
}

/// The operands that refer to the ids of `ids`, one each.
pub open spec fn id_refs(ids: Seq<Word>) -> Seq<OperandView> {
    Seq::new(ids.len(), |i: int| OperandView::IdRef(ids[i]))
}

/// The operands that refer to the ids of `ids`, one each.
pub fn id_ref_operands(first: Option<Word>, ids: &Vec<Word>) -> (r: Vec<Operand>)
    ensures
        r.deep_view() == match first {
            Some(w) => seq![OperandView::IdRef(w)] + id_refs(ids@),
            None => id_refs(ids@),
        },
{
    let mut out: Vec<Operand> = Vec::new();
    let ghost head: Seq<OperandView> = match first {
        Some(w) => seq![OperandView::IdRef(w)],
        None => Seq::empty(),
    };
    match first {
        Some(w) => {
            out.push(Operand::IdRef(w));
        },
        None => {},
    }
    assert(out.deep_view() =~= head);
    let mut i: usize = 0;
    while i < ids.len()
        invariant
            i <= ids.len(),
            out.deep_view() == head + id_refs(ids@.subrange(0, i as int)),
        decreases ids.len() - i,
    {
        let ghost before = out.deep_view();
        out.push(Operand::IdRef(ids[i]));
        assert(out.deep_view() =~= before.push(OperandView::IdRef(ids@[i as int])));
        assert(out.deep_view() =~= head + id_refs(ids@.subrange(0, i + 1)));
        i += 1;
    }
    assert(ids@.subrange(0, ids.len() as int) =~= ids@);
    assert(head + id_refs(ids@) =~= match first {
        Some(w) => seq![OperandView::IdRef(w)] + id_refs(ids@),
        None => id_refs(ids@),
    });
    out
}

impl SpirvTypeView {
    /// The opcode of the instruction that declares the type.
    pub open spec fn opcode(self) -> u32 {
        match self {
            SpirvTypeView::Void => OP_TYPE_VOID,
            SpirvTypeView::Bool => OP_TYPE_BOOL,
            SpirvTypeView::Integer(_, _) => OP_TYPE_INT,
            SpirvTypeView::Float(_) => OP_TYPE_FLOAT,
            SpirvTypeView::Adt { .. } => OP_TYPE_STRUCT,
            SpirvTypeView::Vector { .. } => OP_TYPE_VECTOR,
            SpirvTypeView::Matrix { .. } => OP_TYPE_MATRIX,
            SpirvTypeView::Array { .. } => OP_TYPE_ARRAY,
            SpirvTypeView::RuntimeArray { .. } => OP_TYPE_RUNTIME_ARRAY,
            SpirvTypeView::Pointer { .. } => OP_TYPE_POINTER,
            SpirvTypeView::Function { .. } => OP_TYPE_FUNCTION,
            SpirvTypeView::Image { .. } => OP_TYPE_IMAGE,
            SpirvTypeView::Sampler => OP_TYPE_SAMPLER,
            SpirvTypeView::AccelerationStructureKhr => OP_TYPE_ACCELERATION_STRUCTURE_KHR,
            SpirvTypeView::SampledImage { .. } => OP_TYPE_SAMPLED_IMAGE,
            SpirvTypeView::InterfaceBlock { .. } => OP_TYPE_STRUCT,
            SpirvTypeView::RayQueryKhr => OP_TYPE_RAY_QUERY_KHR,
        }
    }

    /// The operands of the instruction that declares the type. A pointer is
    /// declared in the `Generic` storage class, whatever memory it points
    /// into.
    pub open spec fn operands(self) -> Seq<OperandView> {
        match self {
            SpirvTypeView::Integer(width, signed) => seq![
                OperandView::LiteralBit32(width),
                OperandView::LiteralBit32(if signed { 1u32 } else { 0u32 }),
            ],
            SpirvTypeView::Float(width) => seq![OperandView::LiteralBit32(width)],
            SpirvTypeView::Adt { field_types } => id_refs(field_types),
            SpirvTypeView::Vector { element, count } => seq![
                OperandView::IdRef(element),
                OperandView::LiteralBit32(count),
            ],
            SpirvTypeView::Matrix { element, count } => seq![
                OperandView::IdRef(element),
                OperandView::LiteralBit32(count),
            ],
            SpirvTypeView::Array { element, count } => seq![
                OperandView::IdRef(element),
                OperandView::IdRef(count),
            ],
            SpirvTypeView::RuntimeArray { element } => seq![OperandView::IdRef(element)],
            SpirvTypeView::Pointer { pointee } => seq![
                OperandView::Enumerant(OperandKind::StorageClass, STORAGE_CLASS_GENERIC),
                OperandView::IdRef(pointee),
            ],
            SpirvTypeView::Function { return_type, arguments } => seq![
                OperandView::IdRef(return_type),
            ] + id_refs(arguments),
            SpirvTypeView::Image {
                sampled_type,
                dim,
                depth,
                arrayed,
                multisampled,
                sampled,
                image_format,
            } => seq![
                OperandView::IdRef(sampled_type),
                OperandView::Enumerant(OperandKind::Dim, dim),
                OperandView::LiteralBit32(depth),
                OperandView::LiteralBit32(arrayed),
                OperandView::LiteralBit32(multisampled),
                OperandView::LiteralBit32(sampled),
                OperandView::Enumerant(OperandKind::ImageFormat, image_format),
            ],
            SpirvTypeView::SampledImage { image_type } => seq![OperandView::IdRef(image_type)],
            SpirvTypeView::InterfaceBlock { inner_type } => seq![OperandView::IdRef(inner_type)],
            _ => Seq::empty(),
        }
    }

    /// The instruction that declares the type under the id `id`.
    pub open spec fn declaration(self, id: Word) -> InstructionView {
        inst(self.opcode(), None, Some(id), self.operands())
    }

    /// Whether the two types are a structure of one field and the interface
    /// block around that same field: the one pair of distinct types that is
    /// declared by the same instruction text.
    pub open spec fn same_struct_text(self, other: SpirvTypeView) -> bool {
        ||| (self matches SpirvTypeView::Adt { field_types } && other
            matches SpirvTypeView::InterfaceBlock { inner_type } && field_types == seq![inner_type])
        ||| (other matches SpirvTypeView::Adt { field_types } && self
            matches SpirvTypeView::InterfaceBlock { inner_type } && field_types == seq![inner_type])
    }
}

impl SpirvType {
    /// Tells whether two types are structurally equal.
    pub fn same_as(&self, other: &SpirvType) -> (r: bool)
        ensures
            r == (self@ == other@),
    {
        match (self, other) {
            (SpirvType::Void, SpirvType::Void) => true,
            (SpirvType::Bool, SpirvType::Bool) => true,
            (SpirvType::Integer(w1, s1), SpirvType::Integer(w2, s2)) => *w1 == *w2 && *s1 == *s2,
            (SpirvType::Float(w1), SpirvType::Float(w2)) => *w1 == *w2,
            (SpirvType::Adt { field_types: f1 }, SpirvType::Adt { field_types: f2 }) => words_eq(
                f1,
                f2,
            ),
            (
                SpirvType::Vector { element: e1, count: c1 },
                SpirvType::Vector { element: e2, count: c2 },
            ) => *e1 == *e2 && *c1 == *c2,
            (
                SpirvType::Matrix { element: e1, count: c1 },
                SpirvType::Matrix { element: e2, count: c2 },
            ) => *e1 == *e2 && *c1 == *c2,
            (
                SpirvType::Array { element: e1, count: c1 },
                SpirvType::Array { element: e2, count: c2 },
            ) => *e1 == *e2 && *c1 == *c2,
            (SpirvType::RuntimeArray { element: e1 }, SpirvType::RuntimeArray { element: e2 }) => *e1
                == *e2,
            (SpirvType::Pointer { pointee: p1 }, SpirvType::Pointer { pointee: p2 }) => *p1 == *p2,
            (
                SpirvType::Function { return_type: r1, arguments: a1 },
                SpirvType::Function { return_type: r2, arguments: a2 },
            ) => *r1 == *r2 && words_eq(a1, a2),
            (
                SpirvType::Image {
                    sampled_type: t1,
                    dim: d1,
                    depth: p1,
                    arrayed: a1,
                    multisampled: m1,
                    sampled: s1,
                    image_format: f1,
                },
                SpirvType::Image {
                    sampled_type: t2,
                    dim: d2,
                    depth: p2,
                    arrayed: a2,
                    multisampled: m2,
                    sampled: s2,
                    image_format: f2,
                },
            ) => *t1 == *t2 && *d1 == *d2 && *p1 == *p2 && *a1 == *a2 && *m1 == *m2 && *s1 == *s2
                && *f1 == *f2,
            (SpirvType::Sampler, SpirvType::Sampler) => true,
            (SpirvType::AccelerationStructureKhr, SpirvType::AccelerationStructureKhr) => true,
            (
                SpirvType::SampledImage { image_type: i1 },
                SpirvType::SampledImage { image_type: i2 },
            ) => *i1 == *i2,
            (
                SpirvType::InterfaceBlock { inner_type: i1 },
                SpirvType::InterfaceBlock { inner_type: i2 },
            ) => *i1 == *i2,
            (SpirvType::RayQueryKhr, SpirvType::RayQueryKhr) => true,
            _ => false,
        }
    }

    /// A copy of the type.
    pub fn duplicate(&self) -> (r: SpirvType)
        ensures
            r@ == self@,
    {
        match self {
            SpirvType::Void => SpirvType::Void,
            SpirvType::Bool => SpirvType::Bool,
            SpirvType::Integer(w, s) => SpirvType::Integer(*w, *s),
            SpirvType::Float(w) => SpirvType::Float(*w),
            SpirvType::Adt { field_types } => SpirvType::Adt { field_types: copy_words(field_types) },
            SpirvType::Vector { element, count } => SpirvType::Vector {
                element: *element,
                count: *count,
            },
            SpirvType::Matrix { element, count } => SpirvType::Matrix {
                element: *element,
                count: *count,
            },
            SpirvType::Array { element, count } => SpirvType::Array {
                element: *element,
                count: *count,
            },
            SpirvType::RuntimeArray { element } => SpirvType::RuntimeArray { element: *element },
            SpirvType::Pointer { pointee } => SpirvType::Pointer { pointee: *pointee },
            SpirvType::Function { return_type, arguments } => SpirvType::Function {
                return_type: *return_type,
                arguments: copy_words(arguments),
            },
            SpirvType::Image {
                sampled_type,
                dim,
                depth,
                arrayed,
                multisampled,
                sampled,
                image_format,
            } => SpirvType::Image {
                sampled_type: *sampled_type,
                dim: *dim,
                depth: *depth,
                arrayed: *arrayed,
                multisampled: *multisampled,
                sampled: *sampled,
                image_format: *image_format,
            },
            SpirvType::Sampler => SpirvType::Sampler,
            SpirvType::AccelerationStructureKhr => SpirvType::AccelerationStructureKhr,
            SpirvType::SampledImage { image_type } => SpirvType::SampledImage {
                image_type: *image_type,
            },
            SpirvType::InterfaceBlock { inner_type } => SpirvType::InterfaceBlock {
                inner_type: *inner_type,
            },
            SpirvType::RayQueryKhr => SpirvType::RayQueryKhr,
        }
    }

    /// The instruction that declares the type under the id `id`.
    pub fn declaration(&self, id: Word) -> (r: Instruction)
        ensures
            r@ == self@.declaration(id),
    {
        let mut ops: Vec<Operand> = Vec::new();
        let opcode: u32;
        match self {
            SpirvType::Void => {
                opcode = OP_TYPE_VOID;
            },
            SpirvType::Bool => {
                opcode = OP_TYPE_BOOL;
            },
            SpirvType::Integer(width, signed) => {
                opcode = OP_TYPE_INT;
                ops.push(Operand::LiteralBit32(*width));
                ops.push(Operand::LiteralBit32(if *signed { 1 } else { 0 }));
            },
            SpirvType::Float(width) => {
                opcode = OP_TYPE_FLOAT;
                ops.push(Operand::LiteralBit32(*width));
            },
            SpirvType::Adt { field_types } => {
                opcode = OP_TYPE_STRUCT;
                ops = id_ref_operands(None, field_types);
            },
            SpirvType::Vector { element, count } => {
                opcode = OP_TYPE_VECTOR;
                ops.push(Operand::IdRef(*element));
                ops.push(Operand::LiteralBit32(*count));
            },
            SpirvType::Matrix { element, count } => {
                opcode = OP_TYPE_MATRIX;
                ops.push(Operand::IdRef(*element));
                ops.push(Operand::LiteralBit32(*count));
            },
            SpirvType::Array { element, count } => {
                opcode = OP_TYPE_ARRAY;
                ops.push(Operand::IdRef(*element));
                ops.push(Operand::IdRef(*count));
            },
            SpirvType::RuntimeArray { element } => {
                opcode = OP_TYPE_RUNTIME_ARRAY;
                ops.push(Operand::IdRef(*element));
            },
            SpirvType::Pointer { pointee } => {
                opcode = OP_TYPE_POINTER;
                ops.push(Operand::Enumerant(OperandKind::StorageClass, STORAGE_CLASS_GENERIC));
                ops.push(Operand::IdRef(*pointee));
            },
            SpirvType::Function { return_type, arguments } => {
                opcode = OP_TYPE_FUNCTION;
                ops = id_ref_operands(Some(*return_type), arguments);
            },
            SpirvType::Image {
                sampled_type,
                dim,
                depth,
                arrayed,
                multisampled,
                sampled,
                image_format,
            } => {
                opcode = OP_TYPE_IMAGE;
                ops.push(Operand::IdRef(*sampled_type));
                ops.push(Operand::Enumerant(OperandKind::Dim, *dim));
                ops.push(Operand::LiteralBit32(*depth));
                ops.push(Operand::LiteralBit32(*arrayed));
                ops.push(Operand::LiteralBit32(*multisampled));
                ops.push(Operand::LiteralBit32(*sampled));
                ops.push(Operand::Enumerant(OperandKind::ImageFormat, *image_format));
            },
            SpirvType::Sampler => {
                opcode = OP_TYPE_SAMPLER;
            },
            SpirvType::AccelerationStructureKhr => {
                opcode = OP_TYPE_ACCELERATION_STRUCTURE_KHR;
            },
            SpirvType::SampledImage { image_type } => {
                opcode = OP_TYPE_SAMPLED_IMAGE;
                ops.push(Operand::IdRef(*image_type));
            },
            SpirvType::InterfaceBlock { inner_type } => {
                opcode = OP_TYPE_STRUCT;
                ops.push(Operand::IdRef(*inner_type));
            },
            SpirvType::RayQueryKhr => {
                opcode = OP_TYPE_RAY_QUERY_KHR;
            },
        }
        assert(ops.deep_view() =~= self@.operands());
        Instruction::new(opcode, None, Some(id), ops)
    }
}

/// The id under which `cache` holds the type `ty`: that of the last entry
/// with this type.
pub open spec fn id_of(cache: Seq<(Word, SpirvTypeView)>, ty: SpirvTypeView) -> Option<Word>
    decreases cache.len(),
{
    if cache.len() == 0 {
        None
    } else if cache.last().1 == ty {
        Some(cache.last().0)
    } else {
        id_of(cache.drop_last(), ty)
    }
}

/// The type that `cache` holds under the id `id`: that of the last entry
/// with this id.
pub open spec fn type_of(cache: Seq<(Word, SpirvTypeView)>, id: Word) -> Option<SpirvTypeView>
    decreases cache.len(),
{
    if cache.len() == 0 {
        None
    } else if cache.last().0 == id {
        Some(cache.last().1)
    } else {
        type_of(cache.drop_last(), id)
    }
}

/// Whether `cache` is a one-to-one table whose ids are all below `bound`.
pub open spec fn interned(cache: Seq<(Word, SpirvTypeView)>, bound: Word) -> bool {
    &&& forall|i: int| 0 <= i < cache.len() ==> (#[trigger] cache[i]).0 < bound
    &&& forall|i: int, j: int|
        0 <= i < j < cache.len() ==> (#[trigger] cache[i]).0 != (#[trigger] cache[j]).0
    &&& forall|i: int, j: int|
        0 <= i < j < cache.len() ==> (#[trigger] cache[i]).1 != (#[trigger] cache[j]).1
}

/// What defining `ty` does to a cache whose next fresh id is `next_id`: the
/// cache afterwards, and the type's id. A type already held keeps its id
/// and the cache; a new type gets `next_id` and a new last entry.
pub open spec fn def_spec(cache: Seq<(Word, SpirvTypeView)>, next_id: Word, ty: SpirvTypeView) -> (
    Seq<(Word, SpirvTypeView)>,
    Word,
) {
    match id_of(cache, ty) {
        Some(id) => (cache, id),
        None => (cache.push((next_id, ty)), next_id),
    }
}

/// What defining `ty` does to the builder: nothing if the cache holds the
/// type, else one id is drawn and the type's declaration goes to the end
/// of the global section.
pub open spec fn def_builder_spec(
    cache: Seq<(Word, SpirvTypeView)>,
    builder: BuilderView,
    ty: SpirvTypeView,
) -> BuilderView {
    match id_of(cache, ty) {
        Some(_) => builder,
        None => builder.after_ids(1).push_global(ty.declaration(builder.next_id)),
    }
}

/// The two-way table between types and their ids.
#[derive(Clone, Debug, PartialEq, Eq)]
pub struct TypeCache {
    pub entries: Vec<(Word, SpirvType)>,
}

impl View for TypeCache {
    type V = Seq<(Word, SpirvTypeView)>;

    open spec fn view(&self) -> Seq<(Word, SpirvTypeView)> {
        self.entries.deep_view()
    }
}

impl TypeCache {
    /// A cache without types.
    pub fn new() -> (r: TypeCache)
        ensures
            r@ == Seq::<(Word, SpirvTypeView)>::empty(),
            forall|bound: Word| interned(r@, bound),
    {
        let r = TypeCache { entries: Vec::new() };
        assert(r@ =~= Seq::<(Word, SpirvTypeView)>::empty());
        r
    }

    /// The id of `ty`, if the cache holds the type.
    pub fn get(&self, ty: &SpirvType) -> (r: Option<Word>)
        ensures
            r == id_of(self@, ty@),
    {
        let mut i: usize = self.entries.len();
        assert(self@.subrange(0, i as int) =~= self@);
        while i > 0
            invariant
                i <= self.entries.len(),
                id_of(self@, ty@) == id_of(self@.subrange(0, i as int), ty@),
            decreases i,
        {
            let ghost s = self@.subrange(0, i as int);
            assert(s.last() == (self.entries@[i - 1].0, self.entries@[i - 1].1@));
            if self.entries[i - 1].1.same_as(ty) {
                return Some(self.entries[i - 1].0);
            }
            assert(s.drop_last() =~= self@.subrange(0, i - 1));
            i -= 1;
        }
        None
    }

    /// The type with the id `id`, if the cache holds one.
    pub fn lookup(&self, id: Word) -> (r: Option<SpirvType>)
        ensures
            r.deep_view() == type_of(self@, id),
    {
        let mut i: usize = self.entries.len();
        assert(self@.subrange(0, i as int) =~= self@);
        while i > 0
            invariant
                i <= self.entries.len(),
                type_of(self@, id) == type_of(self@.subrange(0, i as int), id),
            decreases i,
        {
            let ghost s = self@.subrange(0, i as int);
            assert(s.last() == (self.entries@[i - 1].0, self.entries@[i - 1].1@));
            if self.entries[i - 1].0 == id {
                return Some(self.entries[i - 1].1.duplicate());
            }
            assert(s.drop_last() =~= self@.subrange(0, i - 1));
            i -= 1;
        }
        None
    }

    /// The id of `ty`: the one it has, or else a fresh one, under which the
    /// type is then declared in the global section and kept.
    pub fn def(&mut self, builder: &mut BuilderSpirv, ty: SpirvType) -> (r: Word)
        requires
            id_of(old(self)@, ty@) is None ==> old(builder).ids_left() >= 1,
            interned(old(self)@, old(builder).next_id),
        ensures
            (final(self)@, r) == def_spec(old(self)@, old(builder).next_id, ty@),
            final(builder)@ == def_builder_spec(old(self)@, old(builder)@, ty@),
            interned(final(self)@, final(builder).next_id),
            type_of(final(self)@, r) == Some(ty@),
            id_of(final(self)@, ty@) == Some(r),
    {
        proof {
            lemma_def_lookup(self@, builder.next_id, ty@);
            lemma_def_keeps_interned(self@, builder.next_id, ty@);
        }
        match self.get(&ty) {
            Some(id) => id,
            None => {
                let id = builder.id();
                builder.insert_types_global_values(ty.declaration(id));
                let ghost before = self@;
                let ghost tv = ty@;
                self.entries.push((id, ty));
                assert(self@ =~= before.push((id, tv)));
                id
            },
        }
    }
}

/// A type that `id_of` finds is in the cache under the id found.
pub proof fn lemma_id_of_is_entry(cache: Seq<(Word, SpirvTypeView)>, ty: SpirvTypeView)
    ensures
        match id_of(cache, ty) {
            Some(id) => exists|i: int| 0 <= i < cache.len() && cache[i] == (id, ty),
            None => forall|i: int| 0 <= i < cache.len() ==> (#[trigger] cache[i]).1 != ty,
        },
    decreases cache.len(),
{
    if cache.len() > 0 {
        if cache.last().1 == ty {
            assert(cache[cache.len() - 1] == (cache.last().0, ty));
        } else {
            lemma_id_of_is_entry(cache.drop_last(), ty);
            match id_of(cache.drop_last(), ty) {
                Some(id) => {
                    let i = choose|i: int|
                        0 <= i < cache.drop_last().len() && cache.drop_last()[i] == (id, ty);
                    assert(cache[i] == (id, ty));
                },
                None => {
                    assert forall|i: int| 0 <= i < cache.len() implies (#[trigger] cache[i]).1
                        != ty by {
                        if i < cache.len() - 1 {
                            assert(cache.drop_last()[i].1 != ty);
                        }
                    }
                },
            }
        }
    }
}

/// In a one-to-one table, the entry at any position is what both lookups
/// find.
pub proof fn lemma_entry_is_found(cache: Seq<(Word, SpirvTypeView)>, bound: Word, i: int)
    requires
        interned(cache, bound),
        0 <= i < cache.len(),
    ensures
        id_of(cache, cache[i].1) == Some(cache[i].0),
        type_of(cache, cache[i].0) == Some(cache[i].1),
    decreases cache.len(),
{
    if i < cache.len() - 1 {
        assert(cache[i].0 != cache[cache.len() - 1].0);
        assert(cache[i].1 != cache[cache.len() - 1].1);
        assert(cache.drop_last()[i] == cache[i]);
        assert(interned(cache.drop_last(), bound)) by {
            assert forall|a: int, b: int| 0 <= a < b < cache.drop_last().len() implies (
            #[trigger] cache.drop_last()[a]).0 != (#[trigger] cache.drop_last()[b]).0 by {
                assert(cache[a].0 != cache[b].0);
            }
            assert forall|a: int, b: int| 0 <= a < b < cache.drop_last().len() implies (
            #[trigger] cache.drop_last()[a]).1 != (#[trigger] cache.drop_last()[b]).1 by {
                assert(cache[a].1 != cache[b].1);
            }
            assert forall|a: int| 0 <= a < cache.drop_last().len() implies (
            #[trigger] cache.drop_last()[a]).0 < bound by {
                assert(cache[a].0 < bound);
            }
        }
        lemma_entry_is_found(cache.drop_last(), bound, i);
    }
}

/// Looking up the id that a definition gave finds the type defined, and
/// asking for the type's id finds that id.
pub proof fn lemma_def_lookup(cache: Seq<(Word, SpirvTypeView)>, next_id: Word, ty: SpirvTypeView)
    requires
        interned(cache, next_id),
    ensures
        type_of(def_spec(cache, next_id, ty).0, def_spec(cache, next_id, ty).1) == Some(ty),
        id_of(def_spec(cache, next_id, ty).0, ty) == Some(def_spec(cache, next_id, ty).1),
{
    lemma_id_of_is_entry(cache, ty);
    match id_of(cache, ty) {
        Some(id) => {
            let i = choose|i: int| 0 <= i < cache.len() && cache[i] == (id, ty);
            lemma_entry_is_found(cache, next_id, i);
        },
        None => {
            let after = cache.push((next_id, ty));
            assert(after.last() == (next_id, ty));
        },
    }
}

/// A definition keeps the table one-to-one, with every id below the next
/// fresh one.
pub proof fn lemma_def_keeps_interned(
    cache: Seq<(Word, SpirvTypeView)>,
    next_id: Word,
    ty: SpirvTypeView,
)
    requires
        interned(cache, next_id),
        id_of(cache, ty) is None ==> next_id < u32::MAX,
    ensures
        id_of(cache, ty).is_some() ==> interned(def_spec(cache, next_id, ty).0, next_id),
        id_of(cache, ty).is_none() ==> interned(
            def_spec(cache, next_id, ty).0,
            (next_id + 1) as Word,
        ),
{
    lemma_id_of_is_entry(cache, ty);
    if id_of(cache, ty).is_none() {
        let after = cache.push((next_id, ty));
        assert forall|i: int, j: int| 0 <= i < j < after.len() implies (#[trigger] after[i]).0 != (
        #[trigger] after[j]).0 by {
            if j == cache.len() {
                assert(cache[i].0 < next_id);
            } else {
                assert(cache[i].0 != cache[j].0);
            }
        }
        assert forall|i: int, j: int| 0 <= i < j < after.len() implies (#[trigger] after[i]).1 != (
        #[trigger] after[j]).1 by {
            if j == cache.len() {
                assert(cache[i].1 != ty);
            } else {
                assert(cache[i].1 != cache[j].1);
            }
        }
        assert forall|i: int| 0 <= i < after.len() implies (#[trigger] after[i]).0 < (next_id
            + 1) as Word by {
            if i < cache.len() {
                assert(cache[i].0 < next_id);
            }
        }
    }
}

/// A type that the cache holds keeps its id when another type is defined.
pub proof fn lemma_def_keeps_ids(
    cache: Seq<(Word, SpirvTypeView)>,
    next_id: Word,
    other: SpirvTypeView,
    ty: SpirvTypeView,
)
    requires
        id_of(cache, ty) is Some,
    ensures
        id_of(def_spec(cache, next_id, other).0, ty) == id_of(cache, ty),
{
    if id_of(cache, other) is None {
        let after = cache.push((next_id, other));
        assert(after.drop_last() =~= cache);
        assert(after.last() == (next_id, other));
    }
}

/// Defining a type a second time gives the id of the first time and
/// changes neither cache nor module, whatever was defined in between is
/// left aside: the second definition starts from the cache that the first
/// one left.
pub proof fn lemma_def_twice(
    cache: Seq<(Word, SpirvTypeView)>,
    builder: BuilderView,
    ty: SpirvTypeView,
)
    requires
        interned(cache, builder.next_id),
    ensures
        ({
            let first = def_spec(cache, builder.next_id, ty);
            let built = def_builder_spec(cache, builder, ty);
            let second = def_spec(first.0, built.next_id, ty);
            &&& second.1 == first.1
            &&& second.0 == first.0
            &&& def_builder_spec(first.0, built, ty) == built
        }),
{
    lemma_def_lookup(cache, builder.next_id, ty);
}

/// Two types that are declared with the same opcode and operands are the same
/// type, or a one-field structure and the interface block of that field.
pub proof fn lemma_declaration_tells_type(a: SpirvTypeView, b: SpirvTypeView)
    requires
        a.opcode() == b.opcode(),
        a.operands() == b.operands(),
    ensures
        a == b || a.same_struct_text(b),
{
    let x = a.operands();
    let y = b.operands();
    match (a, b) {
        (SpirvTypeView::Integer(w1, s1), SpirvTypeView::Integer(w2, s2)) => {
            assert(x[0] == y[0]);
            assert(x[1] == y[1]);
        },
        (SpirvTypeView::Float(w1), SpirvTypeView::Float(w2)) => {
            assert(x[0] == y[0]);
        },
        (SpirvTypeView::Adt { field_types: f1 }, SpirvTypeView::Adt { field_types: f2 }) => {
            assert(f1.len() == x.len());
            assert forall|i: int| 0 <= i < f1.len() implies f1[i] == f2[i] by {
                assert(x[i] == y[i]);
            }
            assert(f1 =~= f2);
        },
        (SpirvTypeView::Adt { field_types: f1 }, SpirvTypeView::InterfaceBlock { inner_type }) => {
            assert(f1.len() == x.len());
            assert(x[0] == y[0]);
            assert(f1 =~= seq![inner_type]);
        },
        (SpirvTypeView::InterfaceBlock { inner_type }, SpirvTypeView::Adt { field_types: f2 }) => {
            assert(f2.len() == y.len());
            assert(x[0] == y[0]);
            assert(f2 =~= seq![inner_type]);
        },
        (SpirvTypeView::InterfaceBlock { .. }, SpirvTypeView::InterfaceBlock { .. }) => {
            assert(x[0] == y[0]);
        },
        (SpirvTypeView::Vector { .. }, SpirvTypeView::Vector { .. }) => {
            assert(x[0] == y[0]);
            assert(x[1] == y[1]);
        },
        (SpirvTypeView::Matrix { .. }, SpirvTypeView::Matrix { .. }) => {
            assert(x[0] == y[0]);
            assert(x[1] == y[1]);
        },
        (SpirvTypeView::Array { .. }, SpirvTypeView::Array { .. }) => {
            assert(x[0] == y[0]);
            assert(x[1] == y[1]);
        },
        (SpirvTypeView::RuntimeArray { .. }, SpirvTypeView::RuntimeArray { .. }) => {
            assert(x[0] == y[0]);
        },
        (SpirvTypeView::Pointer { .. }, SpirvTypeView::Pointer { .. }) => {
            assert(x[1] == y[1]);
        },
        (
            SpirvTypeView::Function { return_type: r1, arguments: a1 },
            SpirvTypeView::Function { return_type: r2, arguments: a2 },
        ) => {
            assert(x.len() == a1.len() + 1);
            assert(y.len() == a2.len() + 1);
            assert(x[0] == y[0]);
            assert forall|i: int| 0 <= i < a1.len() implies a1[i] == a2[i] by {
                assert(x[i + 1] == y[i + 1]);
                assert(x[i + 1] == OperandView::IdRef(a1[i]));
                assert(y[i + 1] == OperandView::IdRef(a2[i]));
            }
            assert(a1 =~= a2);
        },
        (SpirvTypeView::Image { .. }, SpirvTypeView::Image { .. }) => {
            assert(x[0] == y[0]);
            assert(x[1] == y[1]);
            assert(x[2] == y[2]);
            assert(x[3] == y[3]);
            assert(x[4] == y[4]);
            assert(x[5] == y[5]);
            assert(x[6] == y[6]);
        },
        (SpirvTypeView::SampledImage { .. }, SpirvTypeView::SampledImage { .. }) => {
            assert(x[0] == y[0]);
        },
        _ => {},
    }
}

/// In a one-to-one table, two entries with different ids are declared with
/// different instruction text, but for a one-field structure and the
/// interface block of that field.
pub proof fn lemma_no_two_ids_alias(cache: Seq<(Word, SpirvTypeView)>, bound: Word, i: int, j: int)
    requires
        interned(cache, bound),
        0 <= i < cache.len(),
        0 <= j < cache.len(),
        cache[i].0 != cache[j].0,
        !cache[i].1.same_struct_text(cache[j].1),
    ensures
        cache[i].1.opcode() != cache[j].1.opcode() || cache[i].1.operands()
            != cache[j].1.operands(),
{
    if cache[i].1.opcode() == cache[j].1.opcode() && cache[i].1.operands()
        == cache[j].1.operands() {
        lemma_declaration_tells_type(cache[i].1, cache[j].1);
        if i < j {
            assert(cache[i].1 != cache[j].1);
        } else if j < i {
            assert(cache[j].1 != cache[i].1);
        }
    }
}

} // verus!
