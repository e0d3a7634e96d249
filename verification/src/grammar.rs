//! The instruction grammar: operand kinds, quantifiers, and the table from
//! opcode mnemonic to the operands an instruction takes.

use vstd::prelude::*;
use crate::text::str_eq;

verus! {

/// The kind of a logical operand of an instruction.
#[derive(Clone, Copy, Debug, PartialEq, Eq, Structural)]
pub enum OperandKind {
    ImageOperands,
    FPFastMathMode,
    SelectionControl,
    LoopControl,
    FunctionControl,
    MemorySemantics,
    MemoryAccess,
    KernelProfilingInfo,
    RayFlags,
    FragmentShadingRate,
    SourceLanguage,
    ExecutionModel,
    AddressingModel,
    MemoryModel,
    ExecutionMode,
    StorageClass,
    Dim,
    SamplerAddressingMode,
    SamplerFilterMode,
    ImageFormat,
    ImageChannelOrder,
    ImageChannelDataType,
    FPRoundingMode,
    FPDenormMode,
    QuantizationModes,
    FPOperationMode,
    OverflowModes,
    LinkageType,
    AccessQualifier,
    HostAccessQualifier,
    FunctionParameterAttribute,
    Decoration,
    BuiltIn,
    Scope,
    GroupOperation,
    KernelEnqueueFlags,
    Capability,
    RayQueryIntersection,
    RayQueryCommittedIntersectionType,
    RayQueryCandidateIntersectionType,
    PackedVectorFormat,
    CooperativeMatrixOperands,
    CooperativeMatrixLayout,
    CooperativeMatrixUse,
    InitializationModeQualifier,
    LoadCacheControl,
    StoreCacheControl,
    IdResultType,
    IdResult,
    IdMemorySemantics,
    IdScope,
    IdRef,
    LiteralInteger,
    LiteralString,
    LiteralFloat,
    LiteralContextDependentNumber,
    LiteralExtInstInteger,
    LiteralSpecConstantOpInteger,
    PairLiteralIntegerIdRef,
    PairIdRefLiteralInteger,
    PairIdRefIdRef,
}

impl OperandKind {
    /// The kind's name, as the grammar writes it.
    pub open spec fn name_spec(self) -> Seq<char> {
        match self {
            OperandKind::ImageOperands => "ImageOperands"@,
            OperandKind::FPFastMathMode => "FPFastMathMode"@,
            OperandKind::SelectionControl => "SelectionControl"@,
            OperandKind::LoopControl => "LoopControl"@,
            OperandKind::FunctionControl => "FunctionControl"@,
            OperandKind::MemorySemantics => "MemorySemantics"@,
            OperandKind::MemoryAccess => "MemoryAccess"@,
            OperandKind::KernelProfilingInfo => "KernelProfilingInfo"@,
            OperandKind::RayFlags => "RayFlags"@,
            OperandKind::FragmentShadingRate => "FragmentShadingRate"@,
            OperandKind::SourceLanguage => "SourceLanguage"@,
            OperandKind::ExecutionModel => "ExecutionModel"@,
            OperandKind::AddressingModel => "AddressingModel"@,
            OperandKind::MemoryModel => "MemoryModel"@,
            OperandKind::ExecutionMode => "ExecutionMode"@,
            OperandKind::StorageClass => "StorageClass"@,
            OperandKind::Dim => "Dim"@,
            OperandKind::SamplerAddressingMode => "SamplerAddressingMode"@,
            OperandKind::SamplerFilterMode => "SamplerFilterMode"@,
            OperandKind::ImageFormat => "ImageFormat"@,
            OperandKind::ImageChannelOrder => "ImageChannelOrder"@,
            OperandKind::ImageChannelDataType => "ImageChannelDataType"@,
            OperandKind::FPRoundingMode => "FPRoundingMode"@,
            OperandKind::FPDenormMode => "FPDenormMode"@,
            OperandKind::QuantizationModes => "QuantizationModes"@,
            OperandKind::FPOperationMode => "FPOperationMode"@,
            OperandKind::OverflowModes => "OverflowModes"@,
            OperandKind::LinkageType => "LinkageType"@,
            OperandKind::AccessQualifier => "AccessQualifier"@,
            OperandKind::HostAccessQualifier => "HostAccessQualifier"@,
            OperandKind::FunctionParameterAttribute => "FunctionParameterAttribute"@,
            OperandKind::Decoration => "Decoration"@,
            OperandKind::BuiltIn => "BuiltIn"@,
            OperandKind::Scope => "Scope"@,
            OperandKind::GroupOperation => "GroupOperation"@,
            OperandKind::KernelEnqueueFlags => "KernelEnqueueFlags"@,
            OperandKind::Capability => "Capability"@,
            OperandKind::RayQueryIntersection => "RayQueryIntersection"@,
            OperandKind::RayQueryCommittedIntersectionType => "RayQueryCommittedIntersectionType"@,
            OperandKind::RayQueryCandidateIntersectionType => "RayQueryCandidateIntersectionType"@,
            OperandKind::PackedVectorFormat => "PackedVectorFormat"@,
            OperandKind::CooperativeMatrixOperands => "CooperativeMatrixOperands"@,
            OperandKind::CooperativeMatrixLayout => "CooperativeMatrixLayout"@,
            OperandKind::CooperativeMatrixUse => "CooperativeMatrixUse"@,
            OperandKind::InitializationModeQualifier => "InitializationModeQualifier"@,
            OperandKind::LoadCacheControl => "LoadCacheControl"@,
            OperandKind::StoreCacheControl => "StoreCacheControl"@,
            OperandKind::IdResultType => "IdResultType"@,
            OperandKind::IdResult => "IdResult"@,
            OperandKind::IdMemorySemantics => "IdMemorySemantics"@,
            OperandKind::IdScope => "IdScope"@,
            OperandKind::IdRef => "IdRef"@,
            OperandKind::LiteralInteger => "LiteralInteger"@,
            OperandKind::LiteralString => "LiteralString"@,
            OperandKind::LiteralFloat => "LiteralFloat"@,
            OperandKind::LiteralContextDependentNumber => "LiteralContextDependentNumber"@,
            OperandKind::LiteralExtInstInteger => "LiteralExtInstInteger"@,
            OperandKind::LiteralSpecConstantOpInteger => "LiteralSpecConstantOpInteger"@,
            OperandKind::PairLiteralIntegerIdRef => "PairLiteralIntegerIdRef"@,
            OperandKind::PairIdRefLiteralInteger => "PairIdRefLiteralInteger"@,
            OperandKind::PairIdRefIdRef => "PairIdRefIdRef"@,
        }
    }

    /// The kind's name, as the grammar writes it.
    pub fn name(self) -> (r: &'static str)
        ensures
            r@ == self.name_spec(),
    {
        match self {
            OperandKind::ImageOperands => "ImageOperands",
            OperandKind::FPFastMathMode => "FPFastMathMode",
            OperandKind::SelectionControl => "SelectionControl",
            OperandKind::LoopControl => "LoopControl",
            OperandKind::FunctionControl => "FunctionControl",
            OperandKind::MemorySemantics => "MemorySemantics",
            OperandKind::MemoryAccess => "MemoryAccess",
            OperandKind::KernelProfilingInfo => "KernelProfilingInfo",
            OperandKind::RayFlags => "RayFlags",
            OperandKind::FragmentShadingRate => "FragmentShadingRate",
            OperandKind::SourceLanguage => "SourceLanguage",
            OperandKind::ExecutionModel => "ExecutionModel",
            OperandKind::AddressingModel => "AddressingModel",
            OperandKind::MemoryModel => "MemoryModel",
            OperandKind::ExecutionMode => "ExecutionMode",
            OperandKind::StorageClass => "StorageClass",
            OperandKind::Dim => "Dim",
            OperandKind::SamplerAddressingMode => "SamplerAddressingMode",
            OperandKind::SamplerFilterMode => "SamplerFilterMode",
            OperandKind::ImageFormat => "ImageFormat",
            OperandKind::ImageChannelOrder => "ImageChannelOrder",
            OperandKind::ImageChannelDataType => "ImageChannelDataType",
            OperandKind::FPRoundingMode => "FPRoundingMode",
            OperandKind::FPDenormMode => "FPDenormMode",
            OperandKind::QuantizationModes => "QuantizationModes",
            OperandKind::FPOperationMode => "FPOperationMode",
            OperandKind::OverflowModes => "OverflowModes",
            OperandKind::LinkageType => "LinkageType",
            OperandKind::AccessQualifier => "AccessQualifier",
            OperandKind::HostAccessQualifier => "HostAccessQualifier",
            OperandKind::FunctionParameterAttribute => "FunctionParameterAttribute",
            OperandKind::Decoration => "Decoration",
            OperandKind::BuiltIn => "BuiltIn",
            OperandKind::Scope => "Scope",
            OperandKind::GroupOperation => "GroupOperation",
            OperandKind::KernelEnqueueFlags => "KernelEnqueueFlags",
            OperandKind::Capability => "Capability",
            OperandKind::RayQueryIntersection => "RayQueryIntersection",
            OperandKind::RayQueryCommittedIntersectionType => "RayQueryCommittedIntersectionType",
            OperandKind::RayQueryCandidateIntersectionType => "RayQueryCandidateIntersectionType",
            OperandKind::PackedVectorFormat => "PackedVectorFormat",
            OperandKind::CooperativeMatrixOperands => "CooperativeMatrixOperands",
            OperandKind::CooperativeMatrixLayout => "CooperativeMatrixLayout",
            OperandKind::CooperativeMatrixUse => "CooperativeMatrixUse",
            OperandKind::InitializationModeQualifier => "InitializationModeQualifier",
            OperandKind::LoadCacheControl => "LoadCacheControl",
            OperandKind::StoreCacheControl => "StoreCacheControl",
            OperandKind::IdResultType => "IdResultType",
            OperandKind::IdResult => "IdResult",
            OperandKind::IdMemorySemantics => "IdMemorySemantics",
            OperandKind::IdScope => "IdScope",
            OperandKind::IdRef => "IdRef",
            OperandKind::LiteralInteger => "LiteralInteger",
            OperandKind::LiteralString => "LiteralString",
            OperandKind::LiteralFloat => "LiteralFloat",
            OperandKind::LiteralContextDependentNumber => "LiteralContextDependentNumber",
            OperandKind::LiteralExtInstInteger => "LiteralExtInstInteger",
            OperandKind::LiteralSpecConstantOpInteger => "LiteralSpecConstantOpInteger",
            OperandKind::PairLiteralIntegerIdRef => "PairLiteralIntegerIdRef",
            OperandKind::PairIdRefLiteralInteger => "PairIdRefLiteralInteger",
            OperandKind::PairIdRefIdRef => "PairIdRefIdRef",
        }
    }

    /// The kind that `name` names, if any.
    pub open spec fn from_name_spec(name: Seq<char>) -> Option<OperandKind> {
        if name == "ImageOperands"@ {
            Some(OperandKind::ImageOperands)
        } else if name == "FPFastMathMode"@ {
            Some(OperandKind::FPFastMathMode)
        } else if name == "SelectionControl"@ {
            Some(OperandKind::SelectionControl)
        } else if name == "LoopControl"@ {
            Some(OperandKind::LoopControl)
        } else if name == "FunctionControl"@ {
            Some(OperandKind::FunctionControl)
        } else if name == "MemorySemantics"@ {
            Some(OperandKind::MemorySemantics)
        } else if name == "MemoryAccess"@ {
            Some(OperandKind::MemoryAccess)
        } else if name == "KernelProfilingInfo"@ {
            Some(OperandKind::KernelProfilingInfo)
        } else if name == "RayFlags"@ {
            Some(OperandKind::RayFlags)
        } else if name == "FragmentShadingRate"@ {
            Some(OperandKind::FragmentShadingRate)
        } else if name == "SourceLanguage"@ {
            Some(OperandKind::SourceLanguage)
        } else if name == "ExecutionModel"@ {
            Some(OperandKind::ExecutionModel)
        } else if name == "AddressingModel"@ {
            Some(OperandKind::AddressingModel)
        } else if name == "MemoryModel"@ {
            Some(OperandKind::MemoryModel)
        } else if name == "ExecutionMode"@ {
            Some(OperandKind::ExecutionMode)
        } else if name == "StorageClass"@ {
            Some(OperandKind::StorageClass)
        } else if name == "Dim"@ {
            Some(OperandKind::Dim)
        } else if name == "SamplerAddressingMode"@ {
            Some(OperandKind::SamplerAddressingMode)
        } else if name == "SamplerFilterMode"@ {
            Some(OperandKind::SamplerFilterMode)
        } else if name == "ImageFormat"@ {
            Some(OperandKind::ImageFormat)
        } else if name == "ImageChannelOrder"@ {
            Some(OperandKind::ImageChannelOrder)
        } else if name == "ImageChannelDataType"@ {
            Some(OperandKind::ImageChannelDataType)
        } else if name == "FPRoundingMode"@ {
            Some(OperandKind::FPRoundingMode)
        } else if name == "FPDenormMode"@ {
            Some(OperandKind::FPDenormMode)
        } else if name == "QuantizationModes"@ {
            Some(OperandKind::QuantizationModes)
        } else if name == "FPOperationMode"@ {
            Some(OperandKind::FPOperationMode)
        } else if name == "OverflowModes"@ {
            Some(OperandKind::OverflowModes)
        } else if name == "LinkageType"@ {
            Some(OperandKind::LinkageType)
        } else if name == "AccessQualifier"@ {
            Some(OperandKind::AccessQualifier)
        } else if name == "HostAccessQualifier"@ {
            Some(OperandKind::HostAccessQualifier)
        } else if name == "FunctionParameterAttribute"@ {
            Some(OperandKind::FunctionParameterAttribute)
        } else if name == "Decoration"@ {
            Some(OperandKind::Decoration)
        } else if name == "BuiltIn"@ {
            Some(OperandKind::BuiltIn)
        } else if name == "Scope"@ {
            Some(OperandKind::Scope)
        } else if name == "GroupOperation"@ {
            Some(OperandKind::GroupOperation)
        } else if name == "KernelEnqueueFlags"@ {
            Some(OperandKind::KernelEnqueueFlags)
        } else if name == "Capability"@ {
            Some(OperandKind::Capability)
        } else if name == "RayQueryIntersection"@ {
            Some(OperandKind::RayQueryIntersection)
        } else if name == "RayQueryCommittedIntersectionType"@ {
            Some(OperandKind::RayQueryCommittedIntersectionType)
        } else if name == "RayQueryCandidateIntersectionType"@ {
            Some(OperandKind::RayQueryCandidateIntersectionType)
        } else if name == "PackedVectorFormat"@ {
            Some(OperandKind::PackedVectorFormat)
        } else if name == "CooperativeMatrixOperands"@ {
            Some(OperandKind::CooperativeMatrixOperands)
        } else if name == "CooperativeMatrixLayout"@ {
            Some(OperandKind::CooperativeMatrixLayout)
        } else if name == "CooperativeMatrixUse"@ {
            Some(OperandKind::CooperativeMatrixUse)
        } else if name == "InitializationModeQualifier"@ {
            Some(OperandKind::InitializationModeQualifier)
        } else if name == "LoadCacheControl"@ {
            Some(OperandKind::LoadCacheControl)
        } else if name == "StoreCacheControl"@ {
            Some(OperandKind::StoreCacheControl)
        } else if name == "IdResultType"@ {
            Some(OperandKind::IdResultType)
        } else if name == "IdResult"@ {
            Some(OperandKind::IdResult)
        } else if name == "IdMemorySemantics"@ {
            Some(OperandKind::IdMemorySemantics)
        } else if name == "IdScope"@ {
            Some(OperandKind::IdScope)
        } else if name == "IdRef"@ {
            Some(OperandKind::IdRef)
        } else if name == "LiteralInteger"@ {
            Some(OperandKind::LiteralInteger)
        } else if name == "LiteralString"@ {
            Some(OperandKind::LiteralString)
        } else if name == "LiteralFloat"@ {
            Some(OperandKind::LiteralFloat)
        } else if name == "LiteralContextDependentNumber"@ {
            Some(OperandKind::LiteralContextDependentNumber)
        } else if name == "LiteralExtInstInteger"@ {
            Some(OperandKind::LiteralExtInstInteger)
        } else if name == "LiteralSpecConstantOpInteger"@ {
            Some(OperandKind::LiteralSpecConstantOpInteger)
        } else if name == "PairLiteralIntegerIdRef"@ {
            Some(OperandKind::PairLiteralIntegerIdRef)
        } else if name == "PairIdRefLiteralInteger"@ {
            Some(OperandKind::PairIdRefLiteralInteger)
        } else if name == "PairIdRefIdRef"@ {
            Some(OperandKind::PairIdRefIdRef)
        } else {
            None
        }
    }

    /// The kind that `name` names, if any.
    pub fn from_name(name: &str) -> (r: Option<OperandKind>)
        ensures
            r == OperandKind::from_name_spec(name@),
            match r {
                Some(k) => k.name_spec() == name@,
                None => forall|k: OperandKind| k.name_spec() != name@,
            },
    {
        if str_eq(name, "ImageOperands") {
            Some(OperandKind::ImageOperands)
        } else if str_eq(name, "FPFastMathMode") {
            Some(OperandKind::FPFastMathMode)
        } else if str_eq(name, "SelectionControl") {
            Some(OperandKind::SelectionControl)
        } else if str_eq(name, "LoopControl") {
            Some(OperandKind::LoopControl)
        } else if str_eq(name, "FunctionControl") {
            Some(OperandKind::FunctionControl)
        } else if str_eq(name, "MemorySemantics") {
            Some(OperandKind::MemorySemantics)
        } else if str_eq(name, "MemoryAccess") {
            Some(OperandKind::MemoryAccess)
        } else if str_eq(name, "KernelProfilingInfo") {
            Some(OperandKind::KernelProfilingInfo)
        } else if str_eq(name, "RayFlags") {
            Some(OperandKind::RayFlags)
        } else if str_eq(name, "FragmentShadingRate") {
            Some(OperandKind::FragmentShadingRate)
        } else if str_eq(name, "SourceLanguage") {
            Some(OperandKind::SourceLanguage)
        } else if str_eq(name, "ExecutionModel") {
            Some(OperandKind::ExecutionModel)
        } else if str_eq(name, "AddressingModel") {
            Some(OperandKind::AddressingModel)
        } else if str_eq(name, "MemoryModel") {
            Some(OperandKind::MemoryModel)
        } else if str_eq(name, "ExecutionMode") {
            Some(OperandKind::ExecutionMode)
        } else if str_eq(name, "StorageClass") {
            Some(OperandKind::StorageClass)
        } else if str_eq(name, "Dim") {
            Some(OperandKind::Dim)
        } else if str_eq(name, "SamplerAddressingMode") {
            Some(OperandKind::SamplerAddressingMode)
        } else if str_eq(name, "SamplerFilterMode") {
            Some(OperandKind::SamplerFilterMode)
        } else if str_eq(name, "ImageFormat") {
            Some(OperandKind::ImageFormat)
        } else if str_eq(name, "ImageChannelOrder") {
            Some(OperandKind::ImageChannelOrder)
        } else if str_eq(name, "ImageChannelDataType") {
            Some(OperandKind::ImageChannelDataType)
        } else if str_eq(name, "FPRoundingMode") {
            Some(OperandKind::FPRoundingMode)
        } else if str_eq(name, "FPDenormMode") {
            Some(OperandKind::FPDenormMode)
        } else if str_eq(name, "QuantizationModes") {
            Some(OperandKind::QuantizationModes)
        } else if str_eq(name, "FPOperationMode") {
            Some(OperandKind::FPOperationMode)
        } else if str_eq(name, "OverflowModes") {
            Some(OperandKind::OverflowModes)
        } else if str_eq(name, "LinkageType") {
            Some(OperandKind::LinkageType)
        } else if str_eq(name, "AccessQualifier") {
            Some(OperandKind::AccessQualifier)
        } else if str_eq(name, "HostAccessQualifier") {
            Some(OperandKind::HostAccessQualifier)
        } else if str_eq(name, "FunctionParameterAttribute") {
            Some(OperandKind::FunctionParameterAttribute)
        } else if str_eq(name, "Decoration") {
            Some(OperandKind::Decoration)
        } else if str_eq(name, "BuiltIn") {
            Some(OperandKind::BuiltIn)
        } else if str_eq(name, "Scope") {
            Some(OperandKind::Scope)
        } else if str_eq(name, "GroupOperation") {
            Some(OperandKind::GroupOperation)
        } else if str_eq(name, "KernelEnqueueFlags") {
            Some(OperandKind::KernelEnqueueFlags)
        } else if str_eq(name, "Capability") {
            Some(OperandKind::Capability)
        } else if str_eq(name, "RayQueryIntersection") {
            Some(OperandKind::RayQueryIntersection)
        } else if str_eq(name, "RayQueryCommittedIntersectionType") {
            Some(OperandKind::RayQueryCommittedIntersectionType)
        } else if str_eq(name, "RayQueryCandidateIntersectionType") {
            Some(OperandKind::RayQueryCandidateIntersectionType)
        } else if str_eq(name, "PackedVectorFormat") {
            Some(OperandKind::PackedVectorFormat)
        } else if str_eq(name, "CooperativeMatrixOperands") {
            Some(OperandKind::CooperativeMatrixOperands)
        } else if str_eq(name, "CooperativeMatrixLayout") {
            Some(OperandKind::CooperativeMatrixLayout)
        } else if str_eq(name, "CooperativeMatrixUse") {
            Some(OperandKind::CooperativeMatrixUse)
        } else if str_eq(name, "InitializationModeQualifier") {
            Some(OperandKind::InitializationModeQualifier)
        } else if str_eq(name, "LoadCacheControl") {
            Some(OperandKind::LoadCacheControl)
        } else if str_eq(name, "StoreCacheControl") {
            Some(OperandKind::StoreCacheControl)
        } else if str_eq(name, "IdResultType") {
            Some(OperandKind::IdResultType)
        } else if str_eq(name, "IdResult") {
            Some(OperandKind::IdResult)
        } else if str_eq(name, "IdMemorySemantics") {
            Some(OperandKind::IdMemorySemantics)
        } else if str_eq(name, "IdScope") {
            Some(OperandKind::IdScope)
        } else if str_eq(name, "IdRef") {
            Some(OperandKind::IdRef)
        } else if str_eq(name, "LiteralInteger") {
            Some(OperandKind::LiteralInteger)
        } else if str_eq(name, "LiteralString") {
            Some(OperandKind::LiteralString)
        } else if str_eq(name, "LiteralFloat") {
            Some(OperandKind::LiteralFloat)
        } else if str_eq(name, "LiteralContextDependentNumber") {
            Some(OperandKind::LiteralContextDependentNumber)
        } else if str_eq(name, "LiteralExtInstInteger") {
            Some(OperandKind::LiteralExtInstInteger)
        } else if str_eq(name, "LiteralSpecConstantOpInteger") {
            Some(OperandKind::LiteralSpecConstantOpInteger)
        } else if str_eq(name, "PairLiteralIntegerIdRef") {
            Some(OperandKind::PairLiteralIntegerIdRef)
        } else if str_eq(name, "PairIdRefLiteralInteger") {
            Some(OperandKind::PairIdRefLiteralInteger)
        } else if str_eq(name, "PairIdRefIdRef") {
            Some(OperandKind::PairIdRefIdRef)
        } else {
            None
        }
    }
}

/// How often a logical operand may appear.
#[derive(Clone, Copy, Debug, PartialEq, Eq, Structural)]
pub enum OperandQuantifier {
    /// Exactly once.
    One,
    /// Not at all, or once.
    ZeroOrOne,
    /// Any number of times.
    ZeroOrMore,
}

impl OperandQuantifier {
    /// The quantifier that `name` names, if any.
    pub open spec fn from_name_spec(name: Seq<char>) -> Option<OperandQuantifier> {
        if name == "One"@ {
            Some(OperandQuantifier::One)
        } else if name == "ZeroOrOne"@ {
            Some(OperandQuantifier::ZeroOrOne)
        } else if name == "ZeroOrMore"@ {
            Some(OperandQuantifier::ZeroOrMore)
        } else {
            None
        }
    }

    /// The quantifier that `name` names, if any.
    pub fn from_name(name: &str) -> (r: Option<OperandQuantifier>)
        ensures
            r == OperandQuantifier::from_name_spec(name@),
    {
        if str_eq(name, "One") {
            Some(OperandQuantifier::One)
        } else if str_eq(name, "ZeroOrOne") {
            Some(OperandQuantifier::ZeroOrOne)
        } else if str_eq(name, "ZeroOrMore") {
            Some(OperandQuantifier::ZeroOrMore)
        } else {
            None
        }
    }
}

/// One operand that an instruction's grammar asks for.
#[derive(Clone, Copy, Debug, PartialEq, Eq, Structural)]
pub struct LogicalOperand {
    pub kind: OperandKind,
    pub quantifier: OperandQuantifier,
}

/// A logical operand as the grammar source spells it: the names of its kind
/// and of its quantifier.
pub type RawOperand = (String, String);

/// The logical operand that a pair of names stands for.
pub open spec fn decode_operand(raw: (Seq<char>, Seq<char>)) -> Option<LogicalOperand> {
    match (OperandKind::from_name_spec(raw.0), OperandQuantifier::from_name_spec(raw.1)) {
        (Some(kind), Some(quantifier)) => Some(LogicalOperand { kind, quantifier }),
        _ => None,
    }
}

/// Whether every pair of names in `raw` stands for a logical operand.
pub open spec fn decodable(raw: Seq<(Seq<char>, Seq<char>)>) -> bool {
    forall|i: int| 0 <= i < raw.len() ==> (#[trigger] decode_operand(raw[i])).is_some()
}

/// The logical operands that `raw` stands for.
pub open spec fn decode_operands(raw: Seq<(Seq<char>, Seq<char>)>) -> Seq<LogicalOperand> {
    Seq::new(raw.len(), |i: int| decode_operand(raw[i]).unwrap())
}

/// Reads a list of logical operands from their names: all of them, or none
/// if one name is unknown.
pub fn decode_raw_operands(raw: &Vec<RawOperand>) -> (r: Option<Vec<LogicalOperand>>)
    ensures
        r.is_some() == decodable(raw.deep_view()),
        r.is_some() ==> r.unwrap()@ == decode_operands(raw.deep_view()),
{
    let mut out: Vec<LogicalOperand> = Vec::new();
    let mut i: usize = 0;
    while i < raw.len()
        invariant
            i <= raw.len(),
            out.len() == i,
            forall|j: int| 0 <= j < i ==> (#[trigger] decode_operand(raw.deep_view()[j])).is_some(),
            forall|j: int| 0 <= j < i ==> out@[j] == decode_operand(raw.deep_view()[j]).unwrap(),
        decreases raw.len() - i,
    {
        let kind = OperandKind::from_name(raw[i].0.as_str());
        let quantifier = OperandQuantifier::from_name(raw[i].1.as_str());
        assert(raw.deep_view()[i as int] == (raw@[i as int].0@, raw@[i as int].1@));
        match (kind, quantifier) {
            (Some(kind), Some(quantifier)) => {
                out.push(LogicalOperand { kind, quantifier });
            },
            _ => {
                assert(decode_operand(raw.deep_view()[i as int]).is_none());
                return None;
            },
        }
        i += 1;
    }
    assert(out@ =~= decode_operands(raw.deep_view()));
    Some(out)
}

/// The grammar of one instruction.
#[derive(Clone, Debug, PartialEq, Eq)]
pub struct InstructionGrammar {
    /// The mnemonic without its `Op` prefix.
    pub opname: String,
    pub opcode: u32,
    /// The operands in order, result type and result id included.
    pub operands: Vec<LogicalOperand>,
}

/// The mathematical content of an [`InstructionGrammar`].
pub struct GrammarView {
    pub opname: Seq<char>,
    pub opcode: u32,
    pub operands: Seq<LogicalOperand>,
}

impl View for InstructionGrammar {
    type V = GrammarView;

    open spec fn view(&self) -> GrammarView {
        GrammarView { opname: self.opname@, opcode: self.opcode, operands: self.operands@ }
    }
}

impl DeepView for InstructionGrammar {
    type V = GrammarView;

    open spec fn deep_view(&self) -> GrammarView {
        self@
    }
}

/// The entry at position `index` of the core instruction table of the
/// grammar source: mnemonic, opcode, and the names of the kind and of the
/// quantifier of each operand. `None` past the table's end.
pub uninterp spec fn core_instruction(index: nat) -> Option<
    (Seq<char>, u32, Seq<(Seq<char>, Seq<char>)>),
>;

/// `rspirv::grammar::CoreInstructionTable::iter`, read at one position. The
/// contract names the entry found there; the names of an operand's kind and
/// quantifier are those that their `Debug` impls print.
#[verifier::external_body]
pub(crate) fn core_instruction_at(index: usize) -> (r: Option<(String, u32, Vec<RawOperand>)>)
    ensures
        r.deep_view() == core_instruction(index as nat),
{
    let inst = rspirv::grammar::CoreInstructionTable::iter().nth(index)?;
    let operands = inst.operands.iter().map(
        |o| (format!("{:?}", o.kind), format!("{:?}", o.quantifier)),
    ).collect();
    Some((inst.opname.to_string(), inst.opcode as u32, operands))
}

/// The grammar at position `index` of the core table, if there is an entry
/// and every operand name in it is known.
pub open spec fn grammar_at(index: nat) -> Option<GrammarView> {
    match core_instruction(index) {
        Some(raw) => if decodable(raw.2) {
            Some(GrammarView { opname: raw.0, opcode: raw.1, operands: decode_operands(raw.2) })
        } else {
            None
        },
        None => None,
    }
}

/// The grammars at the first `n` positions of the core table, in order.
pub open spec fn table_upto(n: nat) -> Seq<GrammarView>
    decreases n,
{
    if n == 0 {
        Seq::empty()
    } else {
        let before = table_upto((n - 1) as nat);
        match grammar_at((n - 1) as nat) {
            Some(g) => before.push(g),
            None => before,
        }
    }
}

/// The last entry of `table` whose mnemonic is `name`.
pub open spec fn find_by_name(table: Seq<GrammarView>, name: Seq<char>) -> Option<int>
    decreases table.len(),
{
    if table.len() == 0 {
        None
    } else if table.last().opname == name {
        Some(table.len() - 1)
    } else {
        find_by_name(table.drop_last(), name)
    }
}

/// The table from opcode mnemonic to instruction grammar.
#[derive(Clone, Debug, PartialEq, Eq)]
pub struct InstructionTable {
    pub table: Vec<InstructionGrammar>,
    /// How many positions of the grammar source were read.
    pub scanned: usize,
}

impl View for InstructionTable {
    type V = Seq<GrammarView>;

    open spec fn view(&self) -> Seq<GrammarView> {
        self.table.deep_view()
    }
}

impl InstructionTable {
    /// Whether the table holds the whole core grammar.
    pub open spec fn complete(&self) -> bool {
        &&& self@ == table_upto(self.scanned as nat)
        &&& forall|i: nat| i < self.scanned ==> (#[trigger] core_instruction(i)).is_some()
        &&& core_instruction(self.scanned as nat).is_none() || self.scanned == usize::MAX
    }

    /// Reads the core grammar, entry by entry, up to its end.
    pub fn new() -> (r: InstructionTable)
        ensures
            r.complete(),
    {
        let mut table: Vec<InstructionGrammar> = Vec::new();
        let mut i: usize = 0;
        assert(table.deep_view() =~= table_upto(0));
        while i < usize::MAX
            invariant
                table.deep_view() == table_upto(i as nat),
                forall|j: nat| j < i ==> (#[trigger] core_instruction(j)).is_some(),
            ensures
                table.deep_view() == table_upto(i as nat),
                forall|j: nat| j < i ==> (#[trigger] core_instruction(j)).is_some(),
                core_instruction(i as nat).is_none() || i == usize::MAX,
            decreases usize::MAX - i,
        {
            match core_instruction_at(i) {
                None => {
                    break ;
                },
                Some(raw) => {
                    let ghost before = table.deep_view();
                    match decode_raw_operands(&raw.2) {
                        Some(operands) => {
                            let g = InstructionGrammar { opname: raw.0, opcode: raw.1, operands };
                            assert(Some(g@) == grammar_at(i as nat));
                            table.push(g);
                            assert(table.deep_view() =~= before.push(g@));
                        },
                        None => {
                            assert(grammar_at(i as nat).is_none());
                        },
                    }
                    i += 1;
                },
            }
        }
        InstructionTable { table, scanned: i }
    }

    /// The position of the grammar of the instruction with mnemonic `name`
    /// (written without `Op`): that of the last entry of that name.
    pub fn position(&self, name: &str) -> (r: Option<usize>)
        ensures
            match r {
                Some(i) => find_by_name(self@, name@) == Some(i as int) && i < self.table.len(),
                None => find_by_name(self@, name@).is_none(),
            },
    {
        let mut i: usize = self.table.len();
        assert(self@.subrange(0, i as int) =~= self@);
        while i > 0
            invariant
                i <= self.table.len(),
                find_by_name(self@, name@) == find_by_name(self@.subrange(0, i as int), name@),
            decreases i,
        {
            let ghost s = self@.subrange(0, i as int);
            assert(s.last() == self.table@[i - 1]@);
            if str_eq(self.table[i - 1].opname.as_str(), name) {
                return Some(i - 1);
            }
            assert(s.drop_last() =~= self@.subrange(0, i - 1));
            i -= 1;
        }
        None
    }

    /// The grammar of the instruction with mnemonic `name` (written without
    /// `Op`): the last entry of that name.
    pub fn get(&self, name: &str) -> (r: Option<&InstructionGrammar>)
        ensures
            match find_by_name(self@, name@) {
                Some(i) => 0 <= i < self.table.len() && r == Some(&self.table@[i]),
                None => r.is_none(),
            },
    {
        match self.position(name) {
            Some(i) => Some(&self.table[i]),
            None => None,
        }
    }
}

/// Whether `opcode` ends a basic block: a branch, a return, or an abort.
pub open spec fn is_block_terminator_spec(opcode: u32) -> bool {
    ||| opcode == OP_BRANCH
    ||| opcode == OP_BRANCH_CONDITIONAL
    ||| opcode == OP_SWITCH
    ||| opcode == OP_RETURN
    ||| opcode == OP_RETURN_VALUE
    ||| opcode == OP_KILL
    ||| opcode == OP_UNREACHABLE
    ||| opcode == OP_TERMINATE_INVOCATION
    ||| opcode == OP_TERMINATE_RAY_KHR
    ||| opcode == OP_IGNORE_INTERSECTION_KHR
    ||| opcode == OP_EMIT_MESH_TASKS_EXT
}

/// `rspirv::grammar::reflect::is_block_terminator`, on an opcode's number.
/// It holds of the three branches, the two returns and the six aborts; a
/// number that is no opcode ends no block.
#[verifier::external_body]
pub(crate) fn is_block_terminator(opcode: u32) -> (r: bool)
    ensures
        r == is_block_terminator_spec(opcode),
{
    match rspirv::spirv::Op::from_u32(opcode) {
        Some(op) => rspirv::grammar::reflect::is_block_terminator(op),
        None => false,
    }
}

pub const OP_UNDEF: u32 = 1;
pub const OP_NAME: u32 = 5;
pub const OP_ENTRY_POINT: u32 = 15;
pub const OP_TYPE_VOID: u32 = 19;
pub const OP_TYPE_BOOL: u32 = 20;
pub const OP_TYPE_INT: u32 = 21;
pub const OP_TYPE_FLOAT: u32 = 22;
pub const OP_TYPE_VECTOR: u32 = 23;
pub const OP_TYPE_MATRIX: u32 = 24;
pub const OP_TYPE_IMAGE: u32 = 25;
pub const OP_TYPE_SAMPLER: u32 = 26;
pub const OP_TYPE_SAMPLED_IMAGE: u32 = 27;
pub const OP_TYPE_ARRAY: u32 = 28;
pub const OP_TYPE_RUNTIME_ARRAY: u32 = 29;
pub const OP_TYPE_STRUCT: u32 = 30;
pub const OP_TYPE_POINTER: u32 = 32;
pub const OP_TYPE_FUNCTION: u32 = 33;
pub const OP_CONSTANT: u32 = 43;
pub const OP_SPEC_CONSTANT: u32 = 50;
pub const OP_FUNCTION: u32 = 54;
pub const OP_FUNCTION_PARAMETER: u32 = 55;
pub const OP_FUNCTION_END: u32 = 56;
pub const OP_VARIABLE: u32 = 59;
pub const OP_LOAD: u32 = 61;
pub const OP_STORE: u32 = 62;
pub const OP_ACCESS_CHAIN: u32 = 65;
pub const OP_IN_BOUNDS_ACCESS_CHAIN: u32 = 66;
pub const OP_DECORATE: u32 = 71;
pub const OP_COMPOSITE_EXTRACT: u32 = 81;
pub const OP_BITCAST: u32 = 124;
pub const OP_IADD: u32 = 128;
pub const OP_ISUB: u32 = 130;
pub const OP_IMUL: u32 = 132;
pub const OP_SELECT: u32 = 169;
pub const OP_IEQUAL: u32 = 170;
pub const OP_SHIFT_RIGHT_LOGICAL: u32 = 194;
pub const OP_SHIFT_LEFT_LOGICAL: u32 = 196;
pub const OP_BITWISE_OR: u32 = 197;
pub const OP_BITWISE_XOR: u32 = 198;
pub const OP_BITWISE_AND: u32 = 199;
pub const OP_LABEL: u32 = 248;
pub const OP_BRANCH: u32 = 249;
pub const OP_BRANCH_CONDITIONAL: u32 = 250;
pub const OP_SWITCH: u32 = 251;
pub const OP_KILL: u32 = 252;
pub const OP_RETURN: u32 = 253;
pub const OP_RETURN_VALUE: u32 = 254;
pub const OP_UNREACHABLE: u32 = 255;
pub const OP_TERMINATE_INVOCATION: u32 = 4416;
pub const OP_IGNORE_INTERSECTION_KHR: u32 = 4448;
pub const OP_TERMINATE_RAY_KHR: u32 = 4449;
pub const OP_TYPE_RAY_QUERY_KHR: u32 = 4472;
pub const OP_EMIT_MESH_TASKS_EXT: u32 = 5294;
pub const OP_TYPE_ACCELERATION_STRUCTURE_KHR: u32 = 5341;
pub const OP_DECORATE_STRING: u32 = 5632;

/// The storage class `Function`.
pub const STORAGE_CLASS_FUNCTION: u32 = 7;
/// The storage class `Generic`.
pub const STORAGE_CLASS_GENERIC: u32 = 8;
/// The decoration `LinkageAttributes`.
pub const DECORATION_LINKAGE_ATTRIBUTES: u32 = 41;
/// The decoration `UserTypeGOOGLE`, which carries text of the producer's own.
pub const DECORATION_USER_TYPE_GOOGLE: u32 = 5636;

} // verus!
