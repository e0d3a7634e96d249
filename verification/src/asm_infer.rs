//! Inference of the result type of a line of assembly that leaves it out:
//! the types of the operands are matched against the instruction's
//! signature, and the result type is built from what was found.

use vstd::prelude::*;
use crate::asm_ids::{find_id_type, id_type};
use crate::builder::{BldView, Builder};
use crate::module::{Instruction, InstructionView, Operand, OperandView, Word};
use crate::spirv_type::{type_of, SpirvType, SpirvTypeView};
use crate::spirv_type_constraints::{instruction_signatures, signatures_spec, ListTail, TyPat};

verus! {

/// Matching the type with the id `ty` against `pat`: `None` where it does
/// not fit, else the type that the variable stands for, if the pattern
/// holds the variable.
pub open spec fn match_ty(types: Seq<(Word, SpirvTypeView)>, pat: TyPat, ty: Word) -> Option<
    Option<Word>,
>
    decreases pat,
{
    match pat {
        TyPat::Any => Some(None),
        TyPat::T => Some(Some(ty)),
        TyPat::Var(i) => if i == 0 {
            Some(Some(ty))
        } else {
            None
        },
        TyPat::Either(a, b) => match match_ty(types, *a, ty) {
            Some(r) => Some(r),
            None => match_ty(types, *b, ty),
        },
        TyPat::Void => match type_of(types, ty) {
            Some(SpirvTypeView::Void) => Some(None),
            _ => None,
        },
        TyPat::Pointer(inner) => match type_of(types, ty) {
            Some(SpirvTypeView::Pointer { pointee }) => match_ty(types, *inner, pointee),
            _ => None,
        },
        TyPat::Vector(inner) => match type_of(types, ty) {
            Some(SpirvTypeView::Vector { element, .. }) => match_ty(types, *inner, element),
            _ => None,
        },
        TyPat::Vector4(inner) => match type_of(types, ty) {
            Some(SpirvTypeView::Vector { element, count }) => if count == 4 {
                match_ty(types, *inner, element)
            } else {
                None
            },
            _ => None,
        },
        TyPat::Image(inner) => match type_of(types, ty) {
            Some(SpirvTypeView::Image { sampled_type, .. }) => match_ty(
                types,
                *inner,
                sampled_type,
            ),
            _ => None,
        },
        TyPat::SampledImage(inner) => match type_of(types, ty) {
            Some(SpirvTypeView::SampledImage { image_type }) => match_ty(
                types,
                *inner,
                image_type,
            ),
            _ => None,
        },
        TyPat::IndexComposite(_) => None,
    }
}

/// The first operand from position `from` on that is an id, and the
/// position after it.
pub open spec fn next_id_operand(ops: Seq<OperandView>, from: int) -> Option<(Word, int)>
    decreases ops.len() - from,
{
    if from < 0 || from >= ops.len() {
        None
    } else {
        match ops[from].id_ref_any() {
            Some(id) => Some((id, from + 1)),
            None => next_id_operand(ops, from + 1),
        }
    }
}

/// Matching the patterns `prefix[k..]` against the operands that are ids,
/// from position `from` on, where the variable so far stands for
/// `combined`: `None` where an operand is missing or does not fit, or
/// where the variable would stand for two types; else what the variable
/// stands for, and the position after the last operand matched. An id
/// whose type is not known fits the pattern `Any` alone.
pub open spec fn match_inputs(
    types: Seq<(Word, SpirvTypeView)>,
    id_types: Seq<(Word, Word)>,
    prefix: Seq<TyPat>,
    k: int,
    ops: Seq<OperandView>,
    from: int,
    combined: Option<Word>,
) -> Option<(Option<Word>, int)>
    decreases prefix.len() - k,
{
    if k < 0 || k >= prefix.len() {
        Some((combined, from))
    } else {
        match next_id_operand(ops, from) {
            None => None,
            Some((id, next)) => {
                let found = match id_type(id_types, id) {
                    Some(ty) => match_ty(types, prefix[k], ty),
                    None => match prefix[k] {
                        TyPat::Any => Some(None),
                        _ => None,
                    },
                };
                match found {
                    None => None,
                    Some(None) => match_inputs(types, id_types, prefix, k + 1, ops, next, combined),
                    Some(Some(var)) => match combined {
                        Some(c) => if var != c {
                            None
                        } else {
                            match_inputs(types, id_types, prefix, k + 1, ops, next, combined)
                        },
                        None => match_inputs(types, id_types, prefix, k + 1, ops, next, Some(var)),
                    },
                }
            },
        }
    }
}

/// The type that the indices `leftover[from..]` select out of the
/// composite type with the id `ty`, one level per index: an array, a
/// runtime array and an interface block have one component type; a
/// structure has the type of the field that a literal index names;
/// anything else cannot be followed.
pub open spec fn walk_composite(
    types: Seq<(Word, SpirvTypeView)>,
    ty: Word,
    leftover: Seq<OperandView>,
    from: int,
) -> Option<Word>
    decreases leftover.len() - from,
{
    if from < 0 || from >= leftover.len() {
        Some(ty)
    } else {
        match type_of(types, ty) {
            Some(SpirvTypeView::Array { element, .. }) => walk_composite(
                types,
                element,
                leftover,
                from + 1,
            ),
            Some(SpirvTypeView::RuntimeArray { element }) => walk_composite(
                types,
                element,
                leftover,
                from + 1,
            ),
            Some(SpirvTypeView::InterfaceBlock { inner_type }) => walk_composite(
                types,
                inner_type,
                leftover,
                from + 1,
            ),
            Some(SpirvTypeView::Adt { field_types }) => match leftover[from] {
                OperandView::LiteralBit32(i) => if (i as int) < field_types.len() {
                    walk_composite(types, field_types[i as int], leftover, from + 1)
                } else {
                    None
                },
                _ => None,
            },
            _ => None,
        }
    }
}

/// A type that is built around one other type.
#[derive(Clone, Copy, Debug, PartialEq, Eq, Structural)]
pub enum Wrap {
    Pointer,
    Vector4,
    SampledImage,
}

impl Wrap {
    /// The type around the type with the id `t`.
    pub open spec fn around(self, t: Word) -> SpirvTypeView {
        match self {
            Wrap::Pointer => SpirvTypeView::Pointer { pointee: t },
            Wrap::Vector4 => SpirvTypeView::Vector { element: t, count: 4 },
            Wrap::SampledImage => SpirvTypeView::SampledImage { image_type: t },
        }
    }
}

impl BldView {
    /// Building the type that `pat` describes, where the variable stands
    /// for `var` and `leftover[from..]` are the operands left over: the
    /// builder afterwards, and the type's id, or `None` where the pattern
    /// does not determine one type.
    pub open spec fn subst_ty(
        self,
        pat: TyPat,
        var: Option<Word>,
        leftover: Seq<OperandView>,
        from: int,
    ) -> (BldView, Option<Word>)
        decreases pat,
    {
        match pat {
            TyPat::T => (self, var),
            TyPat::Var(i) => (
                self,
                if i == 0 {
                    var
                } else {
                    None
                },
            ),
            TyPat::Pointer(inner) => {
                let (b, t) = self.subst_ty(*inner, var, leftover, from);
                b.wrap_type(Wrap::Pointer, t)
            },
            TyPat::Vector4(inner) => {
                let (b, t) = self.subst_ty(*inner, var, leftover, from);
                b.wrap_type(Wrap::Vector4, t)
            },
            TyPat::SampledImage(inner) => {
                let (b, t) = self.subst_ty(*inner, var, leftover, from);
                b.wrap_type(Wrap::SampledImage, t)
            },
            TyPat::IndexComposite(inner) => {
                let (b, t) = self.subst_ty(*inner, var, leftover, from);
                match t {
                    Some(ty) => (b, walk_composite(b.cx.types, ty, leftover, from)),
                    None => (b, None),
                }
            },
            _ => (self, None),
        }
    }

    /// Defining the type that wraps the type `inner`, if there is one.
    #[verifier::opaque]
    pub open spec fn wrap_type(self, wrap: Wrap, inner: Option<Word>) -> (BldView, Option<Word>) {
        match inner {
            Some(t) => self.try_def_type(wrap.around(t)),
            None => (self, None),
        }
    }

    /// Inferring the result type of `inst` from its signature: the
    /// instruction must have exactly one signature, with a result; the
    /// types of its operands that are ids must fit the signature's
    /// patterns; and the pattern of the result must determine one type.
    pub open spec fn infer_result_type(self, inst: InstructionView) -> (BldView, Option<Word>) {
        let sigs = signatures_spec(inst.opcode);
        if sigs.len() != 1 {
            (self, None)
        } else {
            match sigs[0].output_type {
                None => (self, None),
                Some(output) => match match_inputs(
                    self.cx.types,
                    self.asm_state.id_to_type_map,
                    sigs[0].prefix,
                    0,
                    inst.operands,
                    0,
                    None,
                ) {
                    None => (self, None),
                    Some((var, pos)) => match sigs[0].tail {
                        ListTail::Any => self.subst_ty(output, var, inst.operands, pos),
                        ListTail::Nil => if next_id_operand(inst.operands, pos).is_some() {
                            (self, None)
                        } else {
                            self.subst_ty(
                                output,
                                var,
                                inst.operands,
                                inst.operands.len() as int,
                            )
                        },
                        ListTail::Unsupported => (self, None),
                    },
                },
            }
        }
    }
}

/// The first operand from position `from` on that is an id, and the
/// position after it.
pub fn find_id_operand(ops: &Vec<Operand>, from: usize) -> (r: Option<(Word, usize)>)
    ensures
        match r {
            Some((id, next)) => next_id_operand(ops.deep_view(), from as int) == Some(
                (id, next as int),
            ) && from < next <= ops.len(),
            None => next_id_operand(ops.deep_view(), from as int).is_none(),
        },
{
    let mut i: usize = from;
    while i < ops.len()
        invariant
            from <= i,
            next_id_operand(ops.deep_view(), from as int) == next_id_operand(
                ops.deep_view(),
                i as int,
            ),
        decreases ops.len() - i,
    {
        assert(ops.deep_view()[i as int] == ops@[i as int]@);
        match ops[i].id_ref_any() {
            Some(id) => {
                return Some((id, i + 1));
            },
            None => {},
        }
        i += 1;
    }
    None
}

impl Builder {
    /// Matches the type with the id `ty` against `pat`.
    pub fn match_ty_pat(&self, pat: &TyPat, ty: Word) -> (r: Option<Option<Word>>)
        ensures
            r == match_ty(self@.cx.types, *pat, ty),
        decreases pat,
    {
        match pat {
            TyPat::Any => Some(None),
            TyPat::T => Some(Some(ty)),
            TyPat::Var(i) => {
                if *i == 0 {
                    Some(Some(ty))
                } else {
                    None
                }
            },
            TyPat::Either(a, b) => {
                match self.match_ty_pat(a, ty) {
                    Some(r) => Some(r),
                    None => self.match_ty_pat(b, ty),
                }
            },
            TyPat::Void => match self.cx.type_cache.lookup(ty) {
                Some(SpirvType::Void) => Some(None),
                _ => None,
            },
            TyPat::Pointer(inner) => match self.cx.type_cache.lookup(ty) {
                Some(SpirvType::Pointer { pointee }) => self.match_ty_pat(inner, pointee),
                _ => None,
            },
            TyPat::Vector(inner) => match self.cx.type_cache.lookup(ty) {
                Some(SpirvType::Vector { element, .. }) => self.match_ty_pat(inner, element),
                _ => None,
            },
            TyPat::Vector4(inner) => match self.cx.type_cache.lookup(ty) {
                Some(SpirvType::Vector { element, count }) => {
                    if count == 4 {
                        self.match_ty_pat(inner, element)
                    } else {
                        None
                    }
                },
                _ => None,
            },
            TyPat::Image(inner) => match self.cx.type_cache.lookup(ty) {
                Some(SpirvType::Image { sampled_type, .. }) => self.match_ty_pat(
                    inner,
                    sampled_type,
                ),
                _ => None,
            },
            TyPat::SampledImage(inner) => match self.cx.type_cache.lookup(ty) {
                Some(SpirvType::SampledImage { image_type }) => self.match_ty_pat(
                    inner,
                    image_type,
                ),
                _ => None,
            },
            TyPat::IndexComposite(_) => None,
        }
    }

    /// The type that the indices `leftover[from..]` select out of the
    /// composite type with the id `ty`.
    pub fn walk_composite(&self, ty: Word, leftover: &Vec<Operand>, from: usize) -> (r: Option<
        Word,
    >)
        ensures
            r == walk_composite(self@.cx.types, ty, leftover.deep_view(), from as int),
    {
        let ghost goal = walk_composite(self@.cx.types, ty, leftover.deep_view(), from as int);
        let mut cur = ty;
        let mut i: usize = from;
        while i < leftover.len()
            invariant
                from <= i,
                goal == walk_composite(self@.cx.types, ty, leftover.deep_view(), from as int),
                goal == walk_composite(self@.cx.types, cur, leftover.deep_view(), i as int),
            decreases leftover.len() - i,
        {
            assert(leftover.deep_view()[i as int] == leftover@[i as int]@);
            match self.cx.type_cache.lookup(cur) {
                Some(SpirvType::Array { element, .. }) => {
                    cur = element;
                },
                Some(SpirvType::RuntimeArray { element }) => {
                    cur = element;
                },
                Some(SpirvType::InterfaceBlock { inner_type }) => {
                    cur = inner_type;
                },
                Some(SpirvType::Adt { field_types }) => {
                    match &leftover[i] {
                        Operand::LiteralBit32(index) => {
                            if (*index as usize) < field_types.len() {
                                cur = field_types[*index as usize];
                            } else {
                                return None;
                            }
                        },
                        _ => {
                            return None;
                        },
                    }
                },
                _ => {
                    return None;
                },
            }
            i += 1;
        }
        Some(cur)
    }

    /// Defines the type that wraps the type `inner`, if there is one.
    pub fn wrap_type(&mut self, wrap: Wrap, inner: Option<Word>) -> (r: Option<Word>)
        requires
            old(self)@.wf(),
        ensures
            (final(self)@, r) == old(self)@.wrap_type(wrap, inner),
            final(self)@.wf(),
            final(self)@.cx.table == old(self)@.cx.table,
    {
        reveal(BldView::wrap_type);
        match inner {
            Some(t) => {
                let ty = match wrap {
                    Wrap::Pointer => SpirvType::Pointer { pointee: t },
                    Wrap::Vector4 => SpirvType::Vector { element: t, count: 4 },
                    Wrap::SampledImage => SpirvType::SampledImage { image_type: t },
                };
                self.try_def_type(ty)
            },
            None => None,
        }
    }

    /// Builds the type that `pat` describes, where the variable stands for
    /// `var` and `leftover[from..]` are the operands left over.
    pub fn subst_ty_pat(
        &mut self,
        pat: &TyPat,
        var: Option<Word>,
        leftover: &Vec<Operand>,
        from: usize,
    ) -> (r: Option<Word>)
        requires
            old(self)@.wf(),
        ensures
            (final(self)@, r) == old(self)@.subst_ty(*pat, var, leftover.deep_view(), from as int),
            final(self)@.wf(),
            final(self)@.cx.table == old(self)@.cx.table,
        decreases pat,
    {
        match pat {
            TyPat::T => var,
            TyPat::Var(i) => {
                if *i == 0 {
                    var
                } else {
                    None
                }
            },
            TyPat::Pointer(inner) => {
                let t = self.subst_ty_pat(inner, var, leftover, from);
                self.wrap_type(Wrap::Pointer, t)
            },
            TyPat::Vector4(inner) => {
                let t = self.subst_ty_pat(inner, var, leftover, from);
                self.wrap_type(Wrap::Vector4, t)
            },
            TyPat::SampledImage(inner) => {
                let t = self.subst_ty_pat(inner, var, leftover, from);
                self.wrap_type(Wrap::SampledImage, t)
            },
            TyPat::IndexComposite(inner) => {
                match self.subst_ty_pat(inner, var, leftover, from) {
                    Some(ty) => self.walk_composite(ty, leftover, from),
                    None => None,
                }
            },
            _ => None,
        }
    }

    /// Matches the types of the operands of `instruction` that are ids
    /// against the patterns of `prefix`.
    pub fn match_inputs(&self, prefix: &Vec<TyPat>, ops: &Vec<Operand>) -> (r: Option<
        (Option<Word>, usize),
    >)
        ensures
            match r {
                Some((var, pos)) => match_inputs(
                    self@.cx.types,
                    self@.asm_state.id_to_type_map,
                    prefix@,
                    0,
                    ops.deep_view(),
                    0,
                    None,
                ) == Some((var, pos as int)) && pos <= ops.len(),
                None => match_inputs(
                    self@.cx.types,
                    self@.asm_state.id_to_type_map,
                    prefix@,
                    0,
                    ops.deep_view(),
                    0,
                    None,
                ).is_none(),
            },
    {
        let ghost goal = match_inputs(
            self@.cx.types,
            self@.asm_state.id_to_type_map,
            prefix@,
            0,
            ops.deep_view(),
            0,
            None,
        );
        let mut combined: Option<Word> = None;
        let mut from: usize = 0;
        let mut k: usize = 0;
        while k < prefix.len()
            invariant
                k <= prefix.len(),
                from <= ops.len(),
                goal == match_inputs(
                    self@.cx.types,
                    self@.asm_state.id_to_type_map,
                    prefix@,
                    0,
                    ops.deep_view(),
                    0,
                    None,
                ),
                goal == match_inputs(
                    self@.cx.types,
                    self@.asm_state.id_to_type_map,
                    prefix@,
                    k as int,
                    ops.deep_view(),
                    from as int,
                    combined,
                ),
            decreases prefix.len() - k,
        {
            let (id, next) = match find_id_operand(ops, from) {
                Some(found) => found,
                None => {
                    return None;
                },
            };
            let found = match find_id_type(&self.asm_state.id_to_type_map, id) {
                Some(ty) => self.match_ty_pat(&prefix[k], ty),
                None => match &prefix[k] {
                    TyPat::Any => Some(None),
                    _ => None,
                },
            };
            match found {
                None => {
                    return None;
                },
                Some(None) => {},
                Some(Some(var)) => {
                    match combined {
                        Some(c) => {
                            if var != c {
                                return None;
                            }
                        },
                        None => {
                            combined = Some(var);
                        },
                    }
                },
            }
            from = next;
            k += 1;
        }
        Some((combined, from))
    }

    /// Infers the result type of `instruction` from its signature.
    pub fn infer_result_type(&mut self, instruction: &Instruction) -> (r: Option<Word>)
        requires
            old(self)@.wf(),
        ensures
            (final(self)@, r) == old(self)@.infer_result_type(instruction@),
            final(self)@.wf(),
            final(self)@.cx.table == old(self)@.cx.table,
    {
        let sigs = instruction_signatures(instruction.opcode);
        if sigs.len() != 1 {
            return None;
        }
        assert(sigs.deep_view()[0] == sigs@[0]@);
        let sig = &sigs[0];
        let output = match &sig.output_type {
            None => {
                return None;
            },
            Some(o) => o,
        };
        match self.match_inputs(&sig.input_types.prefix, &instruction.operands) {
            None => None,
            Some((var, pos)) => match sig.input_types.tail {
                ListTail::Any => self.subst_ty_pat(output, var, &instruction.operands, pos),
                ListTail::Nil => {
                    match find_id_operand(&instruction.operands, pos) {
                        Some(_) => None,
                        None => self.subst_ty_pat(
                            output,
                            var,
                            &instruction.operands,
                            instruction.operands.len(),
                        ),
                    }
                },
                ListTail::Unsupported => None,
            },
        }
    }
}

} // verus!
