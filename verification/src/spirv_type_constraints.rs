//! Signatures of instructions: patterns over the types of the operands and
//! of the result, from which a result type that was left out is inferred.

use vstd::prelude::*;
use crate::grammar::{
    OP_ACCESS_CHAIN, OP_COMPOSITE_EXTRACT, OP_IN_BOUNDS_ACCESS_CHAIN, OP_LOAD, OP_SELECT,
};

verus! {

/// A pattern over one type.
#[derive(Debug, PartialEq, Eq)]
pub enum TyPat {
    /// Any type.
    Any,
    /// The type variable of the signature. It stands for the same type
    /// wherever it occurs, and is the variable with the index 0.
    T,
    /// The type variable with the given index.
    Var(usize),
    Void,
    /// A pointer to a type of the inner pattern.
    Pointer(Box<TyPat>),
    /// A vector of elements of the inner pattern.
    Vector(Box<TyPat>),
    /// A vector of four elements of the inner pattern.
    Vector4(Box<TyPat>),
    /// An image that samples to the inner pattern.
    Image(Box<TyPat>),
    /// A sampled image of an image of the inner pattern.
    SampledImage(Box<TyPat>),
    /// The first pattern, or else the second.
    Either(Box<TyPat>, Box<TyPat>),
    /// What the literal indices that follow select out of the composite of
    /// the inner pattern.
    IndexComposite(Box<TyPat>),
}

/// How a list of patterns ends.
#[derive(Clone, Copy, Debug, PartialEq, Eq, Structural)]
pub enum ListTail {
    /// Any operands may follow.
    Any,
    /// No operand that is an id may follow.
    Nil,
    /// The list goes on in a way that inference does not follow.
    Unsupported,
}

/// A pattern over the types of the operands that are ids, in order.
#[derive(Debug, PartialEq, Eq)]
pub struct TyListPat {
    pub prefix: Vec<TyPat>,
    pub tail: ListTail,
}

/// The signature of an instruction.
#[derive(Debug, PartialEq, Eq)]
pub struct InstSig {
    pub input_types: TyListPat,
    /// The pattern of the result type, where the instruction has a result.
    pub output_type: Option<TyPat>,
}

/// The mathematical content of an [`InstSig`].
pub struct InstSigView {
    pub prefix: Seq<TyPat>,
    pub tail: ListTail,
    pub output_type: Option<TyPat>,
}

impl View for InstSig {
    type V = InstSigView;

    open spec fn view(&self) -> InstSigView {
        InstSigView {
            prefix: self.input_types.prefix@,
            tail: self.input_types.tail,
            output_type: self.output_type,
        }
    }
}

impl DeepView for InstSig {
    type V = InstSigView;

    open spec fn deep_view(&self) -> InstSigView {
        self@
    }
}

/// The pattern of pointers to the type variable.
pub open spec fn pointer_to_t() -> TyPat {
    TyPat::Pointer(Box::new(TyPat::T))
}

/// The signatures of the instruction with the opcode `opcode`: none where
/// the instruction is not among those that inference covers.
pub open spec fn signatures_spec(opcode: u32) -> Seq<InstSigView> {
    if opcode == OP_LOAD {
        seq![
            InstSigView {
                prefix: seq![pointer_to_t()],
                tail: ListTail::Any,
                output_type: Some(TyPat::T),
            },
        ]
    } else if opcode == OP_ACCESS_CHAIN || opcode == OP_IN_BOUNDS_ACCESS_CHAIN {
        seq![
            InstSigView {
                prefix: seq![pointer_to_t()],
                tail: ListTail::Any,
                output_type: Some(
                    TyPat::Pointer(Box::new(TyPat::IndexComposite(Box::new(TyPat::T)))),
                ),
            },
        ]
    } else if opcode == OP_COMPOSITE_EXTRACT {
        seq![
            InstSigView {
                prefix: seq![TyPat::T],
                tail: ListTail::Any,
                output_type: Some(TyPat::IndexComposite(Box::new(TyPat::T))),
            },
        ]
    } else if opcode == 77 {
        seq![
            InstSigView {
                prefix: seq![TyPat::Vector(Box::new(TyPat::T)), TyPat::Any],
                tail: ListTail::Nil,
                output_type: Some(TyPat::T),
            },
        ]
    } else if opcode == 83 || opcode == 126 || opcode == 127 || opcode == 200 {
        seq![
            InstSigView { prefix: seq![TyPat::T], tail: ListTail::Nil, output_type: Some(TyPat::T) },
        ]
    } else if (128 <= opcode <= 141) || (197 <= opcode <= 199) {
        seq![
            InstSigView {
                prefix: seq![TyPat::T, TyPat::T],
                tail: ListTail::Nil,
                output_type: Some(TyPat::T),
            },
        ]
    } else if 194 <= opcode <= 196 {
        seq![
            InstSigView {
                prefix: seq![TyPat::T, TyPat::Any],
                tail: ListTail::Nil,
                output_type: Some(TyPat::T),
            },
        ]
    } else if opcode == OP_SELECT {
        seq![
            InstSigView {
                prefix: seq![TyPat::Any, TyPat::T, TyPat::T],
                tail: ListTail::Nil,
                output_type: Some(TyPat::T),
            },
        ]
    } else if opcode == 86 {
        seq![
            InstSigView {
                prefix: seq![TyPat::T, TyPat::Any],
                tail: ListTail::Nil,
                output_type: Some(TyPat::SampledImage(Box::new(TyPat::T))),
            },
        ]
    } else if opcode == 100 {
        seq![
            InstSigView {
                prefix: seq![TyPat::SampledImage(Box::new(TyPat::T))],
                tail: ListTail::Nil,
                output_type: Some(TyPat::T),
            },
        ]
    } else if opcode == 87 || opcode == 88 {
        seq![
            InstSigView {
                prefix: seq![
                    TyPat::SampledImage(Box::new(TyPat::Image(Box::new(TyPat::T)))),
                ],
                tail: ListTail::Any,
                output_type: Some(TyPat::Vector4(Box::new(TyPat::T))),
            },
        ]
    } else if opcode == 95 || opcode == 98 {
        seq![
            InstSigView {
                prefix: seq![TyPat::Image(Box::new(TyPat::T))],
                tail: ListTail::Any,
                output_type: Some(TyPat::Vector4(Box::new(TyPat::T))),
            },
        ]
    } else {
        Seq::empty()
    }
}

/// A signature with the given patterns for its operands.
fn sig(first: TyPat, more: Option<TyPat>, last: Option<TyPat>, tail: ListTail, output: TyPat) -> (r:
    Vec<InstSig>)
    ensures
        r.deep_view() == seq![
            InstSigView {
                prefix: seq![first] + (match more {
                    Some(p) => seq![p],
                    None => Seq::empty(),
                }) + (match last {
                    Some(p) => seq![p],
                    None => Seq::empty(),
                }),
                tail,
                output_type: Some(output),
            },
        ],
{
    let mut prefix: Vec<TyPat> = Vec::new();
    prefix.push(first);
    match more {
        Some(p) => {
            prefix.push(p);
        },
        None => {},
    }
    match last {
        Some(p) => {
            prefix.push(p);
        },
        None => {},
    }
    assert(prefix@ =~= seq![first] + (match more {
        Some(p) => seq![p],
        None => Seq::empty(),
    }) + (match last {
        Some(p) => seq![p],
        None => Seq::empty(),
    }));
    let mut v: Vec<InstSig> = Vec::new();
    let s = InstSig { input_types: TyListPat { prefix, tail }, output_type: Some(output) };
    v.push(s);
    assert(v.deep_view() =~= seq![s@]);
    v
}

/// The signatures of the instruction with the opcode `opcode`.
pub fn instruction_signatures(opcode: u32) -> (r: Vec<InstSig>)
    ensures
        r.deep_view() == signatures_spec(opcode),
{
    proof {
        let e = Seq::<TyPat>::empty();
        assert forall|a: TyPat| seq![a] + e + e =~= seq![a] by {}
        assert forall|a: TyPat, b: TyPat| seq![a] + seq![b] + e =~= seq![a, b] by {}
        assert forall|a: TyPat, b: TyPat, c: TyPat| seq![a] + seq![b] + seq![c] =~= seq![a, b, c] by {}
    }
    if opcode == OP_LOAD {
        sig(TyPat::Pointer(Box::new(TyPat::T)), None, None, ListTail::Any, TyPat::T)
    } else if opcode == OP_ACCESS_CHAIN || opcode == OP_IN_BOUNDS_ACCESS_CHAIN {
        sig(
            TyPat::Pointer(Box::new(TyPat::T)), None, None,
            ListTail::Any,
            TyPat::Pointer(Box::new(TyPat::IndexComposite(Box::new(TyPat::T)))),
        )
    } else if opcode == OP_COMPOSITE_EXTRACT {
        sig(TyPat::T, None, None, ListTail::Any, TyPat::IndexComposite(Box::new(TyPat::T)))
    } else if opcode == 77 {
        sig(TyPat::Vector(Box::new(TyPat::T)), Some(TyPat::Any), None, ListTail::Nil, TyPat::T)
    } else if opcode == 83 || opcode == 126 || opcode == 127 || opcode == 200 {
        sig(TyPat::T, None, None, ListTail::Nil, TyPat::T)
    } else if (128 <= opcode && opcode <= 141) || (197 <= opcode && opcode <= 199) {
        sig(TyPat::T, Some(TyPat::T), None, ListTail::Nil, TyPat::T)
    } else if 194 <= opcode && opcode <= 196 {
        sig(TyPat::T, Some(TyPat::Any), None, ListTail::Nil, TyPat::T)
    } else if opcode == OP_SELECT {
        sig(TyPat::Any, Some(TyPat::T), Some(TyPat::T), ListTail::Nil, TyPat::T)
    } else if opcode == 86 {
        sig(TyPat::T, Some(TyPat::Any), None, ListTail::Nil, TyPat::SampledImage(Box::new(TyPat::T)))
    } else if opcode == 100 {
        sig(TyPat::SampledImage(Box::new(TyPat::T)), None, None, ListTail::Nil, TyPat::T)
    } else if opcode == 87 || opcode == 88 {
        sig(
            TyPat::SampledImage(Box::new(TyPat::Image(Box::new(TyPat::T)))), None, None,
            ListTail::Any,
            TyPat::Vector4(Box::new(TyPat::T)),
        )
    } else if opcode == 95 || opcode == 98 {
        sig(TyPat::Image(Box::new(TyPat::T)), None, None, ListTail::Any, TyPat::Vector4(Box::new(TyPat::T)))
    } else {
        let v: Vec<InstSig> = Vec::new();
        assert(v.deep_view() =~= Seq::<InstSigView>::empty());
        v
    }
}

} // verus!
