//! What the host asks of the context about types: constructors,
//! classifiers, and the handling of layout errors.

use vstd::prelude::*;
use crate::codegen_cx::{type_kind_spec, type_text, CodegenCx, SpirvConst, TypeKind, describe_type};
use crate::diag::{bug_at, fatal_at, Diagnostic, DiagnosticView, Level, Span};
use crate::module::Word;
use crate::spirv_type::{copy_words, type_of, SpirvType, SpirvTypeView};
use crate::text::{concat2, decimal, u64_to_string};

verus! {

/// How the host represents the values of a type.
#[derive(Clone, Copy, Debug, PartialEq, Eq, Structural)]
pub enum BackendRepr {
    Scalar,
    ScalarPair,
    SimdVector,
    Memory,
}

/// What the host knows of a type's layout.
#[derive(Clone, Copy, Debug, PartialEq, Eq, Structural)]
pub struct TyAndLayout {
    pub backend_repr: BackendRepr,
    /// The size in bytes.
    pub size: u64,
}

/// Why the host could not lay a type out.
#[derive(Clone, Debug, PartialEq, Eq)]
pub enum LayoutError {
    /// The type is too large for the target; the text says which.
    SizeOverflow(String),
    /// Any other failure, by its text.
    Other(String),
}

impl LayoutError {
    /// The text of the error.
    pub open spec fn text(&self) -> Seq<char> {
        match self {
            LayoutError::SizeOverflow(s) => s@,
            LayoutError::Other(s) => s@,
        }
    }
}

/// Why the host could not compute a function's ABI.
#[derive(Clone, Debug, PartialEq, Eq)]
pub enum FnAbiError {
    Layout(LayoutError),
    /// Any other failure, by its text.
    Other(String),
}

impl FnAbiError {
    /// The text of the error.
    pub open spec fn text(&self) -> Seq<char> {
        match self {
            FnAbiError::Layout(e) => e.text(),
            FnAbiError::Other(s) => s@,
        }
    }
}

/// What the host had asked for when a function's ABI could not be had;
/// signature, instance and extra arguments are given as text.
#[derive(Clone, Debug, PartialEq, Eq)]
pub enum FnAbiRequest {
    OfFnPtr { sig: String, extra_args: String },
    OfInstance { instance: String, extra_args: String },
}

/// The report for a layout error: fatal where the type is too large, a
/// fault of the compiler otherwise.
pub open spec fn layout_err_report(err: &LayoutError, span: Span, ty: Seq<char>) -> DiagnosticView {
    match err {
        LayoutError::SizeOverflow(text) => fatal_at(Some(span), text@),
        LayoutError::Other(text) => bug_at(
            Some(span),
            "failed to get layout for `"@ + ty + "`: "@ + text@,
        ),
    }
}

/// The report for an ABI error: fatal where a type is too large, a fault
/// of the compiler otherwise.
pub open spec fn fn_abi_err_report(err: &FnAbiError, span: Span, request: &FnAbiRequest)
    -> DiagnosticView {
    match err {
        FnAbiError::Layout(LayoutError::SizeOverflow(text)) => fatal_at(Some(span), text@),
        _ => match request {
            FnAbiRequest::OfFnPtr { sig, extra_args } => bug_at(
                Some(span),
                "`fn_abi_of_fn_ptr("@ + sig@ + ", "@ + extra_args@ + ")` failed: "@ + err.text(),
            ),
            FnAbiRequest::OfInstance { instance, extra_args } => bug_at(
                Some(span),
                "`fn_abi_of_instance("@ + instance@ + ", "@ + extra_args@ + ")` failed: "@
                    + err.text(),
            ),
        },
    }
}

/// The fatal report that `type_kind` makes of a float of width `width`.
pub open spec fn invalid_float_width(width: u32) -> DiagnosticView {
    fatal_at(None, "Invalid float width in type_kind: "@ + decimal(width as nat))
}

/// The fatal report of a query `what` that was made of the wrong type.
pub open spec fn wrong_type(what: Seq<char>, t: SpirvTypeView, id: Word) -> DiagnosticView {
    fatal_at(None, what + type_text(t, id))
}

/// A fatal report of a query `what` that was made of the wrong type.
fn wrong_type_report(what: &str, t: &SpirvType, id: Word) -> (r: Diagnostic)
    ensures
        r@ == wrong_type(what@, t@, id),
{
    let text = describe_type(t, id);
    Diagnostic::new(Level::Fatal, None, concat2(what, text.as_str()))
}

impl CodegenCx {
    /// The report for a layout error.
    pub fn handle_layout_err(&self, err: &LayoutError, span: Span, ty: &str) -> (r: Diagnostic)
        ensures
            r@ == layout_err_report(err, span, ty@),
    {
        match err {
            LayoutError::SizeOverflow(text) => Diagnostic::new(
                Level::Fatal,
                Some(span),
                text.clone(),
            ),
            LayoutError::Other(text) => Diagnostic::new(
                Level::Bug,
                Some(span),
                concat2("failed to get layout for `", ty).concat("`: ").concat(text.as_str()),
            ),
        }
    }

    /// The report for an ABI error.
    pub fn handle_fn_abi_err(&self, err: &FnAbiError, span: Span, request: &FnAbiRequest) -> (r:
        Diagnostic)
        ensures
            r@ == fn_abi_err_report(err, span, request),
    {
        if let FnAbiError::Layout(LayoutError::SizeOverflow(text)) = err {
            return Diagnostic::new(Level::Fatal, Some(span), text.clone());
        }
        let err_text = match err {
            FnAbiError::Layout(LayoutError::SizeOverflow(s)) => s.clone(),
            FnAbiError::Layout(LayoutError::Other(s)) => s.clone(),
            FnAbiError::Other(s) => s.clone(),
        };
        match request {
            FnAbiRequest::OfFnPtr { sig, extra_args } => Diagnostic::new(
                Level::Bug,
                Some(span),
                concat2("`fn_abi_of_fn_ptr(", sig.as_str()).concat(", ").concat(
                    extra_args.as_str(),
                ).concat(")` failed: ").concat(err_text.as_str()),
            ),
            FnAbiRequest::OfInstance { instance, extra_args } => Diagnostic::new(
                Level::Bug,
                Some(span),
                concat2("`fn_abi_of_instance(", instance.as_str()).concat(", ").concat(
                    extra_args.as_str(),
                ).concat(")` failed: ").concat(err_text.as_str()),
            ),
        }
    }

    /// The report of a cast through a register shape, which never reaches
    /// the code generator: the host is asked not to pass arguments so.
    /// `ty` is the shape as text.
    pub fn cast_backend_type(&self, ty: &str) -> (r: Diagnostic)
        ensures
            r@ == bug_at(
                None,
                "cast_backend_type("@ + ty@
                    + "): query hooks should've made `PassMode::Cast` impossible"@,
            ),
    {
        Diagnostic::new(
            Level::Bug,
            None,
            concat2("cast_backend_type(", ty).concat(
                "): query hooks should've made `PassMode::Cast` impossible",
            ),
        )
    }

    /// The report of a register as a type, which never reaches the code
    /// generator either. `ty` is the register as text.
    pub fn reg_backend_type(&self, ty: &str) -> (r: Diagnostic)
        ensures
            r@ == bug_at(
                None,
                "reg_backend_type("@ + ty@
                    + "): query hooks should've made `PassMode::Cast` impossible"@,
            ),
    {
        Diagnostic::new(
            Level::Bug,
            None,
            concat2("reg_backend_type(", ty).concat(
                "): query hooks should've made `PassMode::Cast` impossible",
            ),
        )
    }

    /// Whether values of the layout are handed around as one immediate: a
    /// single scalar or a SIMD vector.
    pub fn is_backend_immediate(&self, layout: TyAndLayout) -> (r: bool)
        ensures
            r == (layout.backend_repr == BackendRepr::Scalar || layout.backend_repr
                == BackendRepr::SimdVector),
    {
        match layout.backend_repr {
            BackendRepr::Scalar => true,
            BackendRepr::SimdVector => true,
            BackendRepr::ScalarPair => false,
            BackendRepr::Memory => false,
        }
    }

    /// Whether values of the layout are handed around as a pair of scalars.
    pub fn is_backend_scalar_pair(&self, layout: TyAndLayout) -> (r: bool)
        ensures
            r == (layout.backend_repr == BackendRepr::ScalarPair),
    {
        match layout.backend_repr {
            BackendRepr::ScalarPair => true,
            BackendRepr::Scalar => false,
            BackendRepr::SimdVector => false,
            BackendRepr::Memory => false,
        }
    }

    /// The unsigned integer type as wide as a pointer.
    pub fn type_usize(&mut self) -> (r: Word)
        requires
            old(self)@.wf(),
            old(self)@.can_def_type(
                SpirvTypeView::Integer(old(self).pointer_size_bits, false),
            ),
        ensures
            (final(self)@, r) == old(self)@.def_type(
                SpirvTypeView::Integer(old(self).pointer_size_bits, false),
            ),
            final(self)@.wf(),
    {
        let bits = self.pointer_size_bits;
        self.def_type(SpirvType::Integer(bits, false))
    }

    /// The integer type as wide as a pointer. Like every integer type that
    /// the host asks for by width alone, it is declared unsigned.
    pub fn type_isize(&mut self) -> (r: Word)
        requires
            old(self)@.wf(),
            old(self)@.can_def_type(
                SpirvTypeView::Integer(old(self).pointer_size_bits, false),
            ),
        ensures
            (final(self)@, r) == old(self)@.def_type(
                SpirvTypeView::Integer(old(self).pointer_size_bits, false),
            ),
            final(self)@.wf(),
    {
        let bits = self.pointer_size_bits;
        self.def_type(SpirvType::Integer(bits, false))
    }

    /// The integer type of the given width.
    pub fn type_int(&mut self, width: u32) -> (r: Word)
        requires
            old(self)@.wf(),
            old(self)@.can_def_type(SpirvTypeView::Integer(width, false)),
        ensures
            (final(self)@, r) == old(self)@.def_type(SpirvTypeView::Integer(width, false)),
            final(self)@.wf(),
    {
        self.def_type(SpirvType::Integer(width, false))
    }

    /// The integer type of 8 bits.
    pub fn type_i8(&mut self) -> (r: Word)
        requires
            old(self)@.wf(),
            old(self)@.can_def_type(SpirvTypeView::Integer(8, false)),
        ensures
            (final(self)@, r) == old(self)@.def_type(SpirvTypeView::Integer(8, false)),
            final(self)@.wf(),
    {
        self.type_int(8)
    }

    /// The integer type of 16 bits.
    pub fn type_i16(&mut self) -> (r: Word)
        requires
            old(self)@.wf(),
            old(self)@.can_def_type(SpirvTypeView::Integer(16, false)),
        ensures
            (final(self)@, r) == old(self)@.def_type(SpirvTypeView::Integer(16, false)),
            final(self)@.wf(),
    {
        self.type_int(16)
    }

    /// The integer type of 32 bits.
    pub fn type_i32(&mut self) -> (r: Word)
        requires
            old(self)@.wf(),
            old(self)@.can_def_type(SpirvTypeView::Integer(32, false)),
        ensures
            (final(self)@, r) == old(self)@.def_type(SpirvTypeView::Integer(32, false)),
            final(self)@.wf(),
    {
        self.type_int(32)
    }

    /// The integer type of 64 bits.
    pub fn type_i64(&mut self) -> (r: Word)
        requires
            old(self)@.wf(),
            old(self)@.can_def_type(SpirvTypeView::Integer(64, false)),
        ensures
            (final(self)@, r) == old(self)@.def_type(SpirvTypeView::Integer(64, false)),
            final(self)@.wf(),
    {
        self.type_int(64)
    }

    /// The integer type of 128 bits.
    pub fn type_i128(&mut self) -> (r: Word)
        requires
            old(self)@.wf(),
            old(self)@.can_def_type(SpirvTypeView::Integer(128, false)),
        ensures
            (final(self)@, r) == old(self)@.def_type(SpirvTypeView::Integer(128, false)),
            final(self)@.wf(),
    {
        self.type_int(128)
    }

    /// The floating-point type of the given width.
    pub fn type_float(&mut self, width: u32) -> (r: Word)
        requires
            old(self)@.wf(),
            old(self)@.can_def_type(SpirvTypeView::Float(width)),
        ensures
            (final(self)@, r) == old(self)@.def_type(SpirvTypeView::Float(width)),
            final(self)@.wf(),
    {
        self.def_type(SpirvType::Float(width))
    }

    /// The floating-point type of 16 bits.
    pub fn type_f16(&mut self) -> (r: Word)
        requires
            old(self)@.wf(),
            old(self)@.can_def_type(SpirvTypeView::Float(16)),
        ensures
            (final(self)@, r) == old(self)@.def_type(SpirvTypeView::Float(16)),
            final(self)@.wf(),
    {
        self.type_float(16)
    }

    /// The floating-point type of 32 bits.
    pub fn type_f32(&mut self) -> (r: Word)
        requires
            old(self)@.wf(),
            old(self)@.can_def_type(SpirvTypeView::Float(32)),
        ensures
            (final(self)@, r) == old(self)@.def_type(SpirvTypeView::Float(32)),
            final(self)@.wf(),
    {
        self.type_float(32)
    }

    /// The floating-point type of 64 bits.
    pub fn type_f64(&mut self) -> (r: Word)
        requires
            old(self)@.wf(),
            old(self)@.can_def_type(SpirvTypeView::Float(64)),
        ensures
            (final(self)@, r) == old(self)@.def_type(SpirvTypeView::Float(64)),
            final(self)@.wf(),
    {
        self.type_float(64)
    }

    /// The floating-point type of 128 bits.
    pub fn type_f128(&mut self) -> (r: Word)
        requires
            old(self)@.wf(),
            old(self)@.can_def_type(SpirvTypeView::Float(128)),
        ensures
            (final(self)@, r) == old(self)@.def_type(SpirvTypeView::Float(128)),
            final(self)@.wf(),
    {
        self.type_float(128)
    }

    /// The type of arrays of `len` elements of type `ty`. The length is a
    /// constant of the unsigned 64-bit integer type.
    pub fn type_array(&mut self, ty: Word, len: u64) -> (r: Word)
        requires
            old(self)@.wf(),
            ({
                let with_u64 = old(self)@.def_type(SpirvTypeView::Integer(64, false));
                let with_len = with_u64.0.def_constant(with_u64.1, SpirvConst::Scalar(len));
                &&& old(self)@.can_def_type(SpirvTypeView::Integer(64, false))
                &&& with_u64.0.can_def_constant(with_u64.1, SpirvConst::Scalar(len))
                &&& with_len.0.can_def_type(SpirvTypeView::Array { element: ty, count: with_len.1 })
            }),
        ensures
            ({
                let with_u64 = old(self)@.def_type(SpirvTypeView::Integer(64, false));
                let with_len = with_u64.0.def_constant(with_u64.1, SpirvConst::Scalar(len));
                (final(self)@, r) == with_len.0.def_type(
                    SpirvTypeView::Array { element: ty, count: with_len.1 },
                )
            }),
            final(self)@.wf(),
    {
        let u64_ty = self.def_type(SpirvType::Integer(64, false));
        let count = self.constant_int(u64_ty, len);
        let count_id = match count.kind {
            crate::module::SpirvValueKind::Def(id) => id,
            _ => 0,
        };
        self.def_type(SpirvType::Array { element: ty, count: count_id })
    }

    /// The type of functions from `args` to `ret`.
    pub fn type_func(&mut self, args: &Vec<Word>, ret: Word) -> (r: Word)
        requires
            old(self)@.wf(),
            old(self)@.can_def_type(
                SpirvTypeView::Function { return_type: ret, arguments: args@ },
            ),
        ensures
            (final(self)@, r) == old(self)@.def_type(
                SpirvTypeView::Function { return_type: ret, arguments: args@ },
            ),
            final(self)@.wf(),
    {
        self.def_type(SpirvType::Function { return_type: ret, arguments: copy_words(args) })
    }

    /// The class of the type with the id `ty`. A float of a width other
    /// than 16, 32, 64 or 128 has none: that is fatal.
    pub fn type_kind(&self, ty: Word) -> (r: Result<TypeKind, Diagnostic>)
        requires
            type_of(self@.types, ty).is_some(),
        ensures
            match r {
                Ok(kind) => type_kind_spec(type_of(self@.types, ty).unwrap()) == Some(kind),
                Err(d) => {
                    &&& type_kind_spec(type_of(self@.types, ty).unwrap()).is_none()
                    &&& type_of(self@.types, ty).unwrap() matches SpirvTypeView::Float(width)
                    &&& d@ == invalid_float_width(width)
                },
            },
    {
        match self.lookup_type(ty) {
            SpirvType::Void => Ok(TypeKind::Void),
            SpirvType::Bool => Ok(TypeKind::Integer),
            SpirvType::Integer(_, _) => Ok(TypeKind::Integer),
            SpirvType::Float(width) => {
                if width == 16 {
                    Ok(TypeKind::Half)
                } else if width == 32 {
                    Ok(TypeKind::Float)
                } else if width == 64 {
                    Ok(TypeKind::Double)
                } else if width == 128 {
                    Ok(TypeKind::FP128)
                } else {
                    let n = u64_to_string(width as u64);
                    Err(
                        Diagnostic::new(
                            Level::Fatal,
                            None,
                            concat2("Invalid float width in type_kind: ", n.as_str()),
                        ),
                    )
                }
            },
            SpirvType::Adt { .. } => Ok(TypeKind::Struct),
            SpirvType::InterfaceBlock { .. } => Ok(TypeKind::Struct),
            SpirvType::Vector { .. } => Ok(TypeKind::Vector),
            SpirvType::Array { .. } => Ok(TypeKind::Array),
            SpirvType::RuntimeArray { .. } => Ok(TypeKind::Array),
            SpirvType::Matrix { .. } => Ok(TypeKind::Array),
            SpirvType::Pointer { .. } => Ok(TypeKind::Pointer),
            SpirvType::Function { .. } => Ok(TypeKind::Function),
            SpirvType::Image { .. } => Ok(TypeKind::Token),
            SpirvType::Sampler => Ok(TypeKind::Token),
            SpirvType::SampledImage { .. } => Ok(TypeKind::Token),
            SpirvType::AccelerationStructureKhr => Ok(TypeKind::Token),
            SpirvType::RayQueryKhr => Ok(TypeKind::Token),
        }
    }

    /// The type of pointers to nothing in particular.
    pub fn type_ptr(&mut self) -> (r: Word)
        requires
            old(self)@.wf(),
            ({
                let with_void = old(self)@.def_type(SpirvTypeView::Void);
                &&& old(self)@.can_def_type(SpirvTypeView::Void)
                &&& with_void.0.can_def_type(SpirvTypeView::Pointer { pointee: with_void.1 })
            }),
        ensures
            ({
                let with_void = old(self)@.def_type(SpirvTypeView::Void);
                (final(self)@, r) == with_void.0.def_type(
                    SpirvTypeView::Pointer { pointee: with_void.1 },
                )
            }),
            final(self)@.wf(),
    {
        let void = self.def_type(SpirvType::Void);
        self.type_ptr_to(void)
    }

    /// The type of pointers to nothing in particular, in whichever address
    /// space.
    pub fn type_ptr_ext(&mut self, address_space: u32) -> (r: Word)
        requires
            old(self)@.wf(),
            ({
                let with_void = old(self)@.def_type(SpirvTypeView::Void);
                &&& old(self)@.can_def_type(SpirvTypeView::Void)
                &&& with_void.0.can_def_type(SpirvTypeView::Pointer { pointee: with_void.1 })
            }),
        ensures
            ({
                let with_void = old(self)@.def_type(SpirvTypeView::Void);
                (final(self)@, r) == with_void.0.def_type(
                    SpirvTypeView::Pointer { pointee: with_void.1 },
                )
            }),
            final(self)@.wf(),
    {
        let void = self.def_type(SpirvType::Void);
        self.type_ptr_to_ext(void, address_space)
    }

    /// What a pointer points to, or what a vector is made of. Of any other
    /// type the question is fatal.
    pub fn element_type(&self, ty: Word) -> (r: Result<Word, Diagnostic>)
        requires
            type_of(self@.types, ty).is_some(),
        ensures
            match type_of(self@.types, ty).unwrap() {
                SpirvTypeView::Pointer { pointee } => r == Ok::<Word, Diagnostic>(pointee),
                SpirvTypeView::Vector { element, .. } => r == Ok::<Word, Diagnostic>(element),
                other => r is Err && r->Err_0@ == wrong_type(
                    "element_type called on invalid type: "@,
                    other,
                    ty,
                ),
            },
    {
        match self.lookup_type(ty) {
            SpirvType::Pointer { pointee } => Ok(pointee),
            SpirvType::Vector { element, .. } => Ok(element),
            other => Err(wrong_type_report("element_type called on invalid type: ", &other, ty)),
        }
    }

    /// The number of elements of a vector type. Of any other type the
    /// question is fatal.
    pub fn vector_length(&self, ty: Word) -> (r: Result<usize, Diagnostic>)
        requires
            type_of(self@.types, ty).is_some(),
        ensures
            match type_of(self@.types, ty).unwrap() {
                SpirvTypeView::Vector { count, .. } => r == Ok::<usize, Diagnostic>(count as usize),
                other => r is Err && r->Err_0@ == wrong_type(
                    "vector_length called on non-vector type: "@,
                    other,
                    ty,
                ),
            },
    {
        match self.lookup_type(ty) {
            SpirvType::Vector { count, .. } => Ok(count as usize),
            other => Err(
                wrong_type_report("vector_length called on non-vector type: ", &other, ty),
            ),
        }
    }

    /// The width in bits of a float type. Of any other type the question is
    /// fatal.
    pub fn float_width(&self, ty: Word) -> (r: Result<usize, Diagnostic>)
        requires
            type_of(self@.types, ty).is_some(),
        ensures
            match type_of(self@.types, ty).unwrap() {
                SpirvTypeView::Float(width) => r == Ok::<usize, Diagnostic>(width as usize),
                other => r is Err && r->Err_0@ == wrong_type(
                    "float_width called on non-float type: "@,
                    other,
                    ty,
                ),
            },
    {
        match self.lookup_type(ty) {
            SpirvType::Float(width) => Ok(width as usize),
            other => Err(wrong_type_report("float_width called on non-float type: ", &other, ty)),
        }
    }

    /// The width in bits of an integer type. Of any other type the question
    /// is fatal.
    pub fn int_width(&self, ty: Word) -> (r: Result<u64, Diagnostic>)
        requires
            type_of(self@.types, ty).is_some(),
        ensures
            match type_of(self@.types, ty).unwrap() {
                SpirvTypeView::Integer(width, _) => r == Ok::<u64, Diagnostic>(width as u64),
                other => r is Err && r->Err_0@ == wrong_type(
                    "int_width called on non-integer type: "@,
                    other,
                    ty,
                ),
            },
    {
        match self.lookup_type(ty) {
            SpirvType::Integer(width, _) => Ok(width as u64),
            other => Err(
                wrong_type_report("int_width called on non-integer type: ", &other, ty),
            ),
        }
    }
}

} // verus!
