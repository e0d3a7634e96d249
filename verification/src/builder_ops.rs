//! What the function builder emits: typed instructions into the current
//! block, the rotation of integers by shifts, the guard on narrow atomics,
//! and the storing of a function's arguments.

use vstd::prelude::*;
use crate::builder::{BldView, Builder};
use crate::codegen_cx::SpirvConst;
use crate::diag::{fatal_at, Diagnostic, Span};
use crate::grammar::{
    OP_ACCESS_CHAIN, OP_BITWISE_AND, OP_BITWISE_OR, OP_IEQUAL, OP_ISUB, OP_SELECT,
    OP_SHIFT_LEFT_LOGICAL, OP_SHIFT_RIGHT_LOGICAL, OP_STORE,
};
use crate::module::{
    inst, InsertPoint, Instruction, InstructionView, Operand, OperandView, SpirvValue,
    SpirvValueKind, Word,
};
use crate::spirv_asm::PlaceRef;
use crate::spirv_type::{type_of, SpirvType, SpirvTypeView};
use crate::text::concat2;

verus! {

/// How the host passes an argument.
#[derive(Clone, Copy, Debug, PartialEq, Eq, Structural)]
pub enum PassMode {
    /// The argument is not passed at all.
    Ignore,
    /// As one parameter.
    Direct,
    /// As two parameters, one for each scalar of a pair.
    Pair,
    /// Cast through a register shape.
    Cast,
    /// By a pointer to it.
    Indirect,
}

/// The reason that marks an atomic on a narrow integer.
pub open spec fn narrow_atomic_reason() -> Seq<char> {
    "atomic on i8 or i16 when disallowed by runtime"@
}

/// The operands that refer to the two ids.
pub open spec fn two_ids(a: Word, b: Word) -> Seq<OperandView> {
    seq![OperandView::IdRef(a), OperandView::IdRef(b)]
}

impl BldView {
    /// The builder after an instruction with a result of the type `ty` was
    /// appended, and the value that it defines: the instruction declares
    /// the type of the value.
    pub open spec fn emit_op(self, opcode: u32, ty: Word, operands: Seq<OperandView>) -> (
        BldView,
        SpirvValue,
    ) {
        (
            self.with_cx(self.cx.with_builder(self.cx.builder.after_ids(1))).push(
                inst(opcode, Some(ty), Some(self.cx.builder.next_id), operands),
            ),
            SpirvValue { kind: SpirvValueKind::Def(self.cx.builder.next_id), ty },
        )
    }

    /// The builder after the instruction `opcode` was applied to the two
    /// values, and its result, of the type `ty`.
    #[verifier::opaque]
    pub open spec fn binop(self, opcode: u32, ty: Word, a: SpirvValue, b: SpirvValue) -> (
        BldView,
        SpirvValue,
    ) {
        let (cx1, ia) = self.cx.def_value(a);
        let (cx2, ib) = cx1.def_value(b);
        self.with_cx(cx2).emit_op(opcode, ty, two_ids(ia, ib))
    }

    /// The builder after the value `val` was stored through the pointer
    /// `ptr`.
    #[verifier::opaque]
    pub open spec fn store(self, val: SpirvValue, ptr: SpirvValue) -> BldView {
        let (cx1, ip) = self.cx.def_value(ptr);
        let (cx2, iv) = cx1.def_value(val);
        self.with_cx(cx2).push(inst(OP_STORE, None, None, two_ids(ip, iv)))
    }

    /// The builder after the constants of a rotation of an integer of
    /// `width` bits were defined, and the three constants: the width, the
    /// mask `width - 1`, and zero; with them the type of booleans.
    #[verifier::opaque]
    pub open spec fn rotate_constants(self, ty: Word, width: u32) -> (
        BldView,
        (SpirvValue, SpirvValue, SpirvValue, Word),
    ) {
        let (cx1, size) = self.cx.def_constant(ty, SpirvConst::Scalar(width as u64));
        let (cx2, mask) = cx1.def_constant(ty, SpirvConst::Scalar((width - 1) as u64));
        let (cx3, zero) = cx2.def_constant(ty, SpirvConst::Scalar(0));
        let (cx4, boolean) = cx3.def_type(SpirvTypeView::Bool);
        (
            self.with_cx(cx4),
            (
                SpirvValue { kind: SpirvValueKind::Def(size), ty },
                SpirvValue { kind: SpirvValueKind::Def(mask), ty },
                SpirvValue { kind: SpirvValueKind::Def(zero), ty },
                boolean,
            ),
        )
    }

    /// The builder after `value` was rotated by `shift`, whose type is an
    /// integer of `width` bits, and the rotated value. The shift is
    /// masked to the width; the value is shifted one way by the masked
    /// amount and the other way by the width less that amount, and the
    /// two are combined; and since a shift by the whole width is
    /// undefined, the value itself is selected where the masked amount
    /// is zero.
    pub open spec fn rotate(self, value: SpirvValue, shift: SpirvValue, is_left: bool, width: u32)
        -> (BldView, SpirvValue) {
        let (b0, (size, mask, zero, boolean)) = self.rotate_constants(shift.ty, width);
        let (b1, mask_shift) = b0.binop(OP_BITWISE_AND, shift.ty, shift, mask);
        let (b2, sub) = b1.binop(OP_ISUB, shift.ty, size, mask_shift);
        let (b3, lhs) = b2.binop(
            if is_left {
                OP_SHIFT_LEFT_LOGICAL
            } else {
                OP_SHIFT_RIGHT_LOGICAL
            },
            value.ty,
            value,
            mask_shift,
        );
        let (b4, rhs) = b3.binop(
            if is_left {
                OP_SHIFT_RIGHT_LOGICAL
            } else {
                OP_SHIFT_LEFT_LOGICAL
            },
            value.ty,
            value,
            sub,
        );
        let (b5, or) = b4.binop(OP_BITWISE_OR, value.ty, lhs, rhs);
        let (b6, mask_is_zero) = b5.binop(OP_IEQUAL, boolean, mask_shift, zero);
        b6.select(mask_is_zero, value, or)
    }

    /// The builder after a selection between two values was appended, and
    /// the value selected: `then` where `cond` holds, `otherwise` where not.
    #[verifier::opaque]
    pub open spec fn select(self, cond: SpirvValue, then: SpirvValue, otherwise: SpirvValue) -> (
        BldView,
        SpirvValue,
    ) {
        let (cx1, ic) = self.cx.def_value(cond);
        let (cx2, it) = cx1.def_value(then);
        let (cx3, io) = cx2.def_value(otherwise);
        self.with_cx(cx3).emit_op(
            OP_SELECT,
            then.ty,
            seq![OperandView::IdRef(ic), OperandView::IdRef(it), OperandView::IdRef(io)],
        )
    }

    /// The builder after the value `val` was stored to the element with
    /// the index `k` of the pair at `dst`: a pointer to the element is
    /// made by an access chain with the constant `k`, and the value is
    /// stored through it.
    #[verifier::opaque]
    pub open spec fn store_element(self, val: SpirvValue, dst: SpirvValue, k: u32) -> BldView {
        let (cx1, ptr_ty) = self.cx.def_type(SpirvTypeView::Pointer { pointee: val.ty });
        let (cx2, index_ty) = cx1.def_type(SpirvTypeView::Integer(32, false));
        let (cx3, index) = cx2.def_constant(index_ty, SpirvConst::Scalar(k as u64));
        let (cx4, base) = cx3.def_value(dst);
        let (b, ptr) = self.with_cx(cx4).emit_op(OP_ACCESS_CHAIN, ptr_ty, two_ids(base, index));
        b.store(val, ptr)
    }

    /// The parameters of the function that the cursor is in.
    pub open spec fn params(self) -> Seq<InstructionView> {
        self.cx.builder.module.functions[self.current_block.parent_fn.index_in_builder as int].parameters
    }

    /// Whether the function that the cursor is in has a parameter with the
    /// index `index`, with an id and a type.
    pub open spec fn has_param(self, index: int) -> bool {
        &&& 0 <= index < self.params().len()
        &&& self.params()[index].result_id.is_some()
        &&& self.params()[index].result_type.is_some()
    }

    /// The parameter with the index `index`, as a value.
    pub open spec fn param(self, index: int) -> SpirvValue {
        SpirvValue {
            kind: SpirvValueKind::Def(self.params()[index].result_id.unwrap()),
            ty: self.params()[index].result_type.unwrap(),
        }
    }

    /// The builder after an atomic operation on a value of the type `ty`
    /// was checked: where the runtime disallows atomics on integers of
    /// less than 32 bits, such an operation marks `to_zombie` a zombie.
    pub open spec fn validate_atomic(self, ty: Word, to_zombie: Word) -> BldView {
        if self.cx.i8_i16_atomics_allowed {
            self
        } else {
            match type_of(self.cx.types, ty) {
                Some(SpirvTypeView::Integer(width, _)) => if width < 32 {
                    self.with_cx(self.cx.zombie(to_zombie, self.span(), narrow_atomic_reason()))
                } else {
                    self
                },
                _ => self,
            }
        }
    }
}

/// The value of a rotation of the `width` low bits of `x` by `s`, as the
/// instructions of the builder's rotation compute it: the amount is
/// masked with `width - 1`; where the masked amount is zero, the value is
/// `x`; else it is `x` shifted one way by the amount, combined with `x`
/// shifted the other way by `width` less the amount, within `width` bits.
pub open spec fn rotate_value(width: u32, x: u128, s: u128, is_left: bool) -> u128 {
    let m = s & ((width - 1) as u128);
    let keep = width_mask(width);
    if m == 0 {
        x
    } else if is_left {
        ((x << m) & keep) | (x >> ((width as u128 - m) as u128))
    } else {
        (x >> m) | ((x << ((width as u128 - m) as u128)) & keep)
    }
}

/// The `width` low bits, all set.
pub open spec fn width_mask(width: u32) -> u128 {
    if width == 8 {
        0xff
    } else if width == 16 {
        0xffff
    } else if width == 32 {
        0xffff_ffff
    } else if width == 64 {
        0xffff_ffff_ffff_ffff
    } else {
        0xffff_ffff_ffff_ffff_ffff_ffff_ffff_ffff
    }
}

/// Whether integers of the width exist in a module.
pub open spec fn integer_width(width: u32) -> bool {
    width == 8 || width == 16 || width == 32 || width == 64 || width == 128
}

/// Computes the value of a rotation as the instructions of the builder's
/// rotation do.
pub fn eval_rotate(width: u32, x: u128, s: u128, is_left: bool) -> (r: u128)
    requires
        integer_width(width),
    ensures
        r == rotate_value(width, x, s, is_left),
{
    let k: u128 = (width - 1) as u128;
    let m: u128 = s & k;
    assert(s & k <= k) by (bit_vector);
    let keep: u128 = if width == 8 {
        0xff
    } else if width == 16 {
        0xffff
    } else if width == 32 {
        0xffff_ffff
    } else if width == 64 {
        0xffff_ffff_ffff_ffff
    } else {
        0xffff_ffff_ffff_ffff_ffff_ffff_ffff_ffff
    };
    if m == 0 {
        x
    } else if is_left {
        ((x << m) & keep) | (x >> (width as u128 - m))
    } else {
        (x >> m) | ((x << (width as u128 - m)) & keep)
    }
}

/// A rotation by a multiple of the width gives the value back, and any
/// other rotation to the left is the value shifted left by the amount
/// modulo the width, combined with the value shifted right by the width
/// less that; to the right, the two shifts change places.
pub proof fn lemma_rotation(width: u32, x: u128, s: u128, is_left: bool)
    requires
        integer_width(width),
    ensures
        s % (width as u128) == 0 ==> rotate_value(width, x, s, is_left) == x,
        s % (width as u128) != 0 && is_left ==> rotate_value(width, x, s, is_left) == ((x << (s % (
        width as u128))) & width_mask(width)) | (x >> ((width as u128 - s % (width as u128))
            as u128)),
        s % (width as u128) != 0 && !is_left ==> rotate_value(width, x, s, is_left) == (x >> (s % (
        width as u128))) | ((x << ((width as u128 - s % (width as u128)) as u128)) & width_mask(
            width,
        )),
{
    assert(s & 7 == s % 8) by (bit_vector);
    assert(s & 15 == s % 16) by (bit_vector);
    assert(s & 31 == s % 32) by (bit_vector);
    assert(s & 63 == s % 64) by (bit_vector);
    assert(s & 127 == s % 128) by (bit_vector);
}

impl Builder {
    /// Appends an instruction with a result of the type `ty` to the
    /// current block, and returns the value that it defines.
    pub fn emit_op(&mut self, opcode: u32, ty: Word, operands: Vec<Operand>) -> (r: SpirvValue)
        requires
            old(self)@.wf(),
            old(self)@.cx.ids_left() >= 1,
        ensures
            (final(self)@, r) == old(self)@.emit_op(opcode, ty, operands.deep_view()),
            final(self)@.wf(),
            final(self)@.block().last().result_type == Some(r.ty),
            final(self)@.block().last().result_id == Some(old(self)@.cx.builder.next_id),
            r.kind == SpirvValueKind::Def(old(self)@.cx.builder.next_id),
    {
        let id = self.cx.builder.id();
        let i = Instruction::new(opcode, Some(ty), Some(id), operands);
        self.insert(InsertPoint::End, i);
        SpirvValue::with_type(id, ty)
    }

    /// Applies the instruction `opcode` to two values.
    pub fn binop(&mut self, opcode: u32, ty: Word, a: SpirvValue, b: SpirvValue) -> (r: SpirvValue)
        requires
            old(self)@.wf(),
            old(self)@.cx.ids_left() >= 3,
        ensures
            (final(self)@, r) == old(self)@.binop(opcode, ty, a, b),
            final(self)@.wf(),
            final(self)@.cx.builder.next_id <= old(self)@.cx.builder.next_id + 3,
            r.ty == ty,
    {
        reveal(BldView::binop);
        let ia = self.cx.def_value(a);
        let ib = self.cx.def_value(b);
        let mut ops: Vec<Operand> = Vec::new();
        ops.push(Operand::IdRef(ia));
        ops.push(Operand::IdRef(ib));
        assert(ops.deep_view() =~= two_ids(ia, ib));
        self.emit_op(opcode, ty, ops)
    }

    /// Selects between two values by a condition.
    pub fn select(&mut self, cond: SpirvValue, then: SpirvValue, otherwise: SpirvValue) -> (r:
        SpirvValue)
        requires
            old(self)@.wf(),
            old(self)@.cx.ids_left() >= 4,
        ensures
            (final(self)@, r) == old(self)@.select(cond, then, otherwise),
            final(self)@.wf(),
            r.ty == then.ty,
    {
        reveal(BldView::select);
        let ic = self.cx.def_value(cond);
        let it = self.cx.def_value(then);
        let io = self.cx.def_value(otherwise);
        let mut ops: Vec<Operand> = Vec::new();
        ops.push(Operand::IdRef(ic));
        ops.push(Operand::IdRef(it));
        ops.push(Operand::IdRef(io));
        assert(ops.deep_view() =~= seq![
            OperandView::IdRef(ic),
            OperandView::IdRef(it),
            OperandView::IdRef(io),
        ]);
        self.emit_op(OP_SELECT, then.ty, ops)
    }

    /// Stores the value `val` through the pointer `ptr`.
    pub fn store(&mut self, val: SpirvValue, ptr: SpirvValue)
        requires
            old(self)@.wf(),
            old(self)@.cx.can_def_value(ptr),
            old(self)@.cx.def_value(ptr).0.can_def_value(val),
        ensures
            final(self)@ == old(self)@.store(val, ptr),
            final(self)@.wf(),
            final(self)@.cx.builder.next_id <= old(self)@.cx.builder.next_id + 2,
            final(self)@.current_block == old(self)@.current_block,
            final(self)@.params() == old(self)@.params(),
    {
        reveal(BldView::store);
        let ip = self.cx.def_value(ptr);
        let iv = self.cx.def_value(val);
        let mut ops: Vec<Operand> = Vec::new();
        ops.push(Operand::IdRef(ip));
        ops.push(Operand::IdRef(iv));
        assert(ops.deep_view() =~= two_ids(ip, iv));
        let i = Instruction::new(OP_STORE, None, None, ops);
        self.insert(InsertPoint::End, i);
    }

    /// Defines the constants of a rotation.
    fn rotate_constants(&mut self, ty: Word, width: u32) -> (r: (
        SpirvValue,
        SpirvValue,
        SpirvValue,
        Word,
    ))
        requires
            old(self)@.wf(),
            old(self)@.cx.ids_left() >= 4,
            width >= 1,
        ensures
            (final(self)@, r) == old(self)@.rotate_constants(ty, width),
            final(self)@.wf(),
            final(self)@.cx.builder.next_id <= old(self)@.cx.builder.next_id + 4,
    {
        reveal(BldView::rotate_constants);
        let size = self.cx.constant_int(ty, width as u64);
        let mask = self.cx.constant_int(ty, (width - 1) as u64);
        let zero = self.cx.constant_int(ty, 0);
        let boolean = self.cx.def_type(SpirvType::Bool);
        (size, mask, zero, boolean)
    }

    /// Rotates `value` by `shift`, to the left or to the right, with
    /// shifts: SPIR-V has no instruction that rotates. The type of
    /// `shift` must be an integer; of any other type the rotation is
    /// fatal.
    pub fn rotate(&mut self, value: SpirvValue, shift: SpirvValue, is_left: bool) -> (r: Result<
        SpirvValue,
        Diagnostic,
    >)
        requires
            old(self)@.wf(),
            old(self)@.cx.ids_left() >= 32,
        ensures
            match type_of(old(self)@.cx.types, shift.ty) {
                Some(SpirvTypeView::Integer(width, _)) => if width >= 1 {
                    r is Ok && (final(self)@, r->Ok_0) == old(self)@.rotate(
                        value,
                        shift,
                        is_left,
                        width,
                    )
                } else {
                    r is Err && final(self)@ == old(self)@
                },
                _ => r is Err && final(self)@ == old(self)@,
            },
            r is Err ==> r->Err_0@ == fatal_at(
                old(self)@.current_span,
                "cannot rotate non-integer type: "@ + crate::asm_ids::type_text_of(
                    old(self)@.cx.types,
                    shift.ty,
                ),
            ),
            final(self)@.wf(),
            r is Ok ==> r->Ok_0.ty == value.ty,
    {
        let width = match self.cx.type_cache.lookup(shift.ty) {
            Some(SpirvType::Integer(width, _)) => width,
            _ => 0,
        };
        if width == 0 {
            let text = self.describe(shift.ty);
            return Err(self.fatal(concat2("cannot rotate non-integer type: ", text.as_str())));
        }
        let (size, mask, zero, boolean) = self.rotate_constants(shift.ty, width);
        let mask_shift = self.binop(OP_BITWISE_AND, shift.ty, shift, mask);
        let sub = self.binop(OP_ISUB, shift.ty, size, mask_shift);
        let lhs = self.binop(
            if is_left {
                OP_SHIFT_LEFT_LOGICAL
            } else {
                OP_SHIFT_RIGHT_LOGICAL
            },
            value.ty,
            value,
            mask_shift,
        );
        let rhs = self.binop(
            if is_left {
                OP_SHIFT_RIGHT_LOGICAL
            } else {
                OP_SHIFT_LEFT_LOGICAL
            },
            value.ty,
            value,
            sub,
        );
        let or = self.binop(OP_BITWISE_OR, value.ty, lhs, rhs);
        let mask_is_zero = self.binop(OP_IEQUAL, boolean, mask_shift, zero);
        Ok(self.select(mask_is_zero, value, or))
    }

    /// Checks an atomic operation on a value of the type `ty`.
    pub fn validate_atomic(&mut self, ty: Word, to_zombie: Word)
        ensures
            final(self)@ == old(self)@.validate_atomic(ty, to_zombie),
    {
        if !self.cx.i8_i16_atomics_allowed {
            match self.cx.type_cache.lookup(ty) {
                Some(SpirvType::Integer(width, _)) => {
                    if width < 32 {
                        self.zombie(to_zombie, "atomic on i8 or i16 when disallowed by runtime");
                    }
                },
                _ => {},
            }
        }
    }

    /// The undefined value of the type `ty`, marked a zombie with the
    /// current span if there is one.
    pub fn undef_zombie(&mut self, ty: Word, reason: &str) -> (r: SpirvValue)
        requires
            old(self)@.wf(),
            old(self)@.cx.can_def_constant(ty, SpirvConst::Undef),
        ensures
            ({
                let defined = old(self)@.cx.def_constant(ty, SpirvConst::Undef);
                &&& final(self)@ == old(self)@.with_cx(
                    defined.0.zombie(defined.1, old(self)@.span(), reason@),
                )
                &&& r == (SpirvValue { kind: SpirvValueKind::Def(defined.1), ty })
            }),
            final(self)@.wf(),
    {
        match self.current_span {
            Some(current_span) => self.undef_zombie_with_span(ty, current_span, reason),
            None => self.undef_zombie_no_span(ty, reason),
        }
    }

    /// The undefined value of the type `ty`, marked a zombie at `span`.
    pub fn undef_zombie_with_span(&mut self, ty: Word, span: Span, reason: &str) -> (r: SpirvValue)
        requires
            old(self)@.wf(),
            old(self)@.cx.can_def_constant(ty, SpirvConst::Undef),
        ensures
            ({
                let defined = old(self)@.cx.def_constant(ty, SpirvConst::Undef);
                &&& final(self)@ == old(self)@.with_cx(defined.0.zombie(defined.1, span, reason@))
                &&& r == (SpirvValue { kind: SpirvValueKind::Def(defined.1), ty })
            }),
            final(self)@.wf(),
    {
        let undef = self.cx.undef(ty);
        let id = match undef.kind {
            SpirvValueKind::Def(id) => id,
            _ => 0,
        };
        self.cx.zombie_with_span(id, span, reason);
        undef
    }

    /// The undefined value of the type `ty`, marked a zombie with no place
    /// in the source.
    pub fn undef_zombie_no_span(&mut self, ty: Word, reason: &str) -> (r: SpirvValue)
        requires
            old(self)@.wf(),
            old(self)@.cx.can_def_constant(ty, SpirvConst::Undef),
        ensures
            ({
                let defined = old(self)@.cx.def_constant(ty, SpirvConst::Undef);
                &&& final(self)@ == old(self)@.with_cx(
                    defined.0.zombie(defined.1, Span::dummy_spec(), reason@),
                )
                &&& r == (SpirvValue { kind: SpirvValueKind::Def(defined.1), ty })
            }),
            final(self)@.wf(),
    {
        let undef = self.cx.undef(ty);
        let id = match undef.kind {
            SpirvValueKind::Def(id) => id,
            _ => 0,
        };
        self.cx.zombie_no_span(id, reason);
        undef
    }

    /// The parameter with the index `index` of the function that the
    /// cursor is in.
    pub fn get_param(&self, index: usize) -> (r: SpirvValue)
        requires
            self@.wf(),
            self@.has_param(index as int),
        ensures
            r == self@.param(index as int),
    {
        let f = self.current_block.parent_fn.index_in_builder;
        let param = &self.cx.builder.module.functions[f].parameters[index];
        assert(self@.params()[index as int] == param@);
        match (param.result_id, param.result_type) {
            (Some(id), Some(ty)) => SpirvValue::with_type(id, ty),
            _ => SpirvValue::with_type(0, 0),
        }
    }

    /// Stores the value of an argument to `dst`: nothing for an argument
    /// that is ignored, the value itself for any other. The modes `Cast`
    /// and `Indirect` never reach the builder.
    pub fn store_arg(&mut self, mode: PassMode, val: SpirvValue, dst: PlaceRef)
        requires
            mode != PassMode::Ignore ==> {
                &&& old(self)@.wf()
                &&& old(self)@.cx.can_def_value(dst.llval)
                &&& old(self)@.cx.def_value(dst.llval).0.can_def_value(val)
            },
            mode != PassMode::Cast,
            mode != PassMode::Indirect,
        ensures
            final(self)@ == if mode == PassMode::Ignore {
                old(self)@
            } else {
                old(self)@.store(val, dst.llval)
            },
            old(self)@.wf() ==> final(self)@.wf(),
            final(self)@.cx.builder.next_id <= old(self)@.cx.builder.next_id + 2,
            final(self)@.current_block == old(self)@.current_block,
            final(self)@.params() == old(self)@.params(),
    {
        match mode {
            PassMode::Ignore => {},
            _ => {
                self.store(val, dst.llval);
            },
        }
    }

    /// Stores the value `val` to the element with the index `k` of the
    /// pair at `dst`.
    pub fn store_element(&mut self, val: SpirvValue, dst: SpirvValue, k: u32)
        requires
            old(self)@.wf(),
            old(self)@.cx.ids_left() >= 8,
        ensures
            final(self)@ == old(self)@.store_element(val, dst, k),
            final(self)@.wf(),
            final(self)@.cx.builder.next_id <= old(self)@.cx.builder.next_id + 7,
            final(self)@.current_block == old(self)@.current_block,
            final(self)@.params() == old(self)@.params(),
    {
        reveal(BldView::store_element);
        let ptr_ty = self.cx.def_type(SpirvType::Pointer { pointee: val.ty });
        let index_ty = self.cx.def_type(SpirvType::Integer(32, false));
        let index = self.cx.constant_int(index_ty, k as u64);
        let index_id = match index.kind {
            SpirvValueKind::Def(id) => id,
            _ => 0,
        };
        let base = self.cx.def_value(dst);
        let mut ops: Vec<Operand> = Vec::new();
        ops.push(Operand::IdRef(base));
        ops.push(Operand::IdRef(index_id));
        assert(ops.deep_view() =~= two_ids(base, index_id));
        let ptr = self.emit_op(OP_ACCESS_CHAIN, ptr_ty, ops);
        self.store(val, ptr);
    }

    /// Stores the next argument of the function to `dst`, by the mode in
    /// which the host passes it, and moves `idx` past the parameters that
    /// the argument took: none where it is ignored, one where it is
    /// passed directly, two where it is passed as a pair. The modes
    /// `Cast` and `Indirect` never reach the builder.
    pub fn store_fn_arg(&mut self, mode: PassMode, idx: &mut usize, dst: PlaceRef)
        requires
            mode != PassMode::Ignore ==> old(self)@.wf(),
            mode == PassMode::Direct ==> {
                &&& old(self)@.cx.can_def_value(dst.llval)
                &&& old(self)@.cx.def_value(dst.llval).0.can_def_value(
                    old(self)@.param(*old(idx) as int),
                )
            },
            mode == PassMode::Pair ==> old(self)@.cx.ids_left() >= 16,
            mode != PassMode::Cast,
            mode != PassMode::Indirect,
            mode == PassMode::Direct ==> old(self)@.has_param(*old(idx) as int),
            mode == PassMode::Pair ==> old(self)@.has_param(*old(idx) as int) && old(
                self,
            )@.has_param(*old(idx) + 1),
        ensures
            match mode {
                PassMode::Direct => final(self)@ == old(self)@.store(
                    old(self)@.param(*old(idx) as int),
                    dst.llval,
                ) && *final(idx) == *old(idx) + 1,
                PassMode::Pair => final(self)@ == old(self)@.store_element(
                    old(self)@.param(*old(idx) as int),
                    dst.llval,
                    0,
                ).store_element(old(self)@.param(*old(idx) + 1), dst.llval, 1) && *final(idx)
                    == *old(idx) + 2,
                _ => final(self)@ == old(self)@ && *final(idx) == *old(idx),
            },
            old(self)@.wf() ==> final(self)@.wf(),
    {
        proof {
            if mode != PassMode::Ignore {
                let f = self.current_block.parent_fn.index_in_builder as int;
                assert(self@.params().len()
                    == self.cx.builder.module.functions[f].parameters.len());
            }
        }
        match mode {
            PassMode::Direct => {
                let arg = self.get_param(*idx);
                *idx = *idx + 1;
                self.store_arg(mode, arg, dst);
            },
            PassMode::Pair => {
                let a = self.get_param(*idx);
                let b = self.get_param(*idx + 1);
                *idx = *idx + 2;
                self.store_element(a, dst.llval, 0);
                self.store_element(b, dst.llval, 1);
            },
            _ => {},
        }
    }
}

} // verus!
