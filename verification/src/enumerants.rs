//! Operand values by name: the enumerants, whose names the grammar source
//! knows, and the flags, whose names are listed here.

use vstd::prelude::*;
use crate::grammar::{decodable, decode_operands, decode_raw_operands, LogicalOperand, OperandKind, RawOperand};
use crate::text::{
    decimal, parse_int, parse_int_spec, split, split_on, str_eq, u64_to_string,
};

verus! {

/// The number of the `SourceLanguage` that `name` names, if it names one.
pub uninterp spec fn source_language_named(name: Seq<char>) -> Option<u32>;

/// `FromStr` of `rspirv::spirv::SourceLanguage`, with the value that was read given
/// as its number. The contract names the result.
#[verifier::external_body]
fn parse_source_language(word: &str) -> (r: Option<u32>)
    ensures
        r == source_language_named(word@),
{
    match word.parse::<rspirv::spirv::SourceLanguage>() {
        Ok(x) => Some(x as u32),
        Err(()) => None,
    }
}

/// The number of the `ExecutionModel` that `name` names, if it names one.
pub uninterp spec fn execution_model_named(name: Seq<char>) -> Option<u32>;

/// `FromStr` of `rspirv::spirv::ExecutionModel`, with the value that was read given
/// as its number. The contract names the result.
#[verifier::external_body]
fn parse_execution_model(word: &str) -> (r: Option<u32>)
    ensures
        r == execution_model_named(word@),
{
    match word.parse::<rspirv::spirv::ExecutionModel>() {
        Ok(x) => Some(x as u32),
        Err(()) => None,
    }
}

/// The number of the `AddressingModel` that `name` names, if it names one.
pub uninterp spec fn addressing_model_named(name: Seq<char>) -> Option<u32>;

/// `FromStr` of `rspirv::spirv::AddressingModel`, with the value that was read given
/// as its number. The contract names the result.
#[verifier::external_body]
fn parse_addressing_model(word: &str) -> (r: Option<u32>)
    ensures
        r == addressing_model_named(word@),
{
    match word.parse::<rspirv::spirv::AddressingModel>() {
        Ok(x) => Some(x as u32),
        Err(()) => None,
    }
}

/// The number of the `MemoryModel` that `name` names, if it names one.
pub uninterp spec fn memory_model_named(name: Seq<char>) -> Option<u32>;

/// `FromStr` of `rspirv::spirv::MemoryModel`, with the value that was read given
/// as its number. The contract names the result.
#[verifier::external_body]
fn parse_memory_model(word: &str) -> (r: Option<u32>)
    ensures
        r == memory_model_named(word@),
{
    match word.parse::<rspirv::spirv::MemoryModel>() {
        Ok(x) => Some(x as u32),
        Err(()) => None,
    }
}

/// The number of the `ExecutionMode` that `name` names, if it names one.
pub uninterp spec fn execution_mode_named(name: Seq<char>) -> Option<u32>;

/// `FromStr` of `rspirv::spirv::ExecutionMode`, with the value that was read given
/// as its number. The contract names the result.
#[verifier::external_body]
fn parse_execution_mode(word: &str) -> (r: Option<u32>)
    ensures
        r == execution_mode_named(word@),
{
    match word.parse::<rspirv::spirv::ExecutionMode>() {
        Ok(x) => Some(x as u32),
        Err(()) => None,
    }
}

/// The number of the `StorageClass` that `name` names, if it names one.
pub uninterp spec fn storage_class_named(name: Seq<char>) -> Option<u32>;

/// `FromStr` of `rspirv::spirv::StorageClass`, with the value that was read given
/// as its number. The contract names the result.
#[verifier::external_body]
fn parse_storage_class(word: &str) -> (r: Option<u32>)
    ensures
        r == storage_class_named(word@),
{
    match word.parse::<rspirv::spirv::StorageClass>() {
        Ok(x) => Some(x as u32),
        Err(()) => None,
    }
}

/// The number of the `Dim` that `name` names, if it names one.
pub uninterp spec fn dim_named(name: Seq<char>) -> Option<u32>;

/// `FromStr` of `rspirv::spirv::Dim`, with the value that was read given
/// as its number. The contract names the result.
#[verifier::external_body]
fn parse_dim(word: &str) -> (r: Option<u32>)
    ensures
        r == dim_named(word@),
{
    match word.parse::<rspirv::spirv::Dim>() {
        Ok(x) => Some(x as u32),
        Err(()) => None,
    }
}

/// The number of the `SamplerAddressingMode` that `name` names, if it names one.
pub uninterp spec fn sampler_addressing_mode_named(name: Seq<char>) -> Option<u32>;

/// `FromStr` of `rspirv::spirv::SamplerAddressingMode`, with the value that was read given
/// as its number. The contract names the result.
#[verifier::external_body]
fn parse_sampler_addressing_mode(word: &str) -> (r: Option<u32>)
    ensures
        r == sampler_addressing_mode_named(word@),
{
    match word.parse::<rspirv::spirv::SamplerAddressingMode>() {
        Ok(x) => Some(x as u32),
        Err(()) => None,
    }
}

/// The number of the `SamplerFilterMode` that `name` names, if it names one.
pub open spec fn sampler_filter_mode_named(name: Seq<char>) -> Option<u32> {
    if name == "Nearest"@ {
        Some(0u32)
    } else if name == "Linear"@ {
        Some(1u32)
    } else {
        None
    }
}

/// `FromStr` of `rspirv::spirv::SamplerFilterMode`, with the value that was read given
/// as its number. The contract writes the names out.
#[verifier::external_body]
fn parse_sampler_filter_mode(word: &str) -> (r: Option<u32>)
    ensures
        r == sampler_filter_mode_named(word@),
{
    match word.parse::<rspirv::spirv::SamplerFilterMode>() {
        Ok(x) => Some(x as u32),
        Err(()) => None,
    }
}

/// The number of the `ImageFormat` that `name` names, if it names one.
pub uninterp spec fn image_format_named(name: Seq<char>) -> Option<u32>;

/// `FromStr` of `rspirv::spirv::ImageFormat`, with the value that was read given
/// as its number. The contract names the result.
#[verifier::external_body]
fn parse_image_format(word: &str) -> (r: Option<u32>)
    ensures
        r == image_format_named(word@),
{
    match word.parse::<rspirv::spirv::ImageFormat>() {
        Ok(x) => Some(x as u32),
        Err(()) => None,
    }
}

/// The number of the `ImageChannelOrder` that `name` names, if it names one.
pub uninterp spec fn image_channel_order_named(name: Seq<char>) -> Option<u32>;

/// `FromStr` of `rspirv::spirv::ImageChannelOrder`, with the value that was read given
/// as its number. The contract names the result.
#[verifier::external_body]
fn parse_image_channel_order(word: &str) -> (r: Option<u32>)
    ensures
        r == image_channel_order_named(word@),
{
    match word.parse::<rspirv::spirv::ImageChannelOrder>() {
        Ok(x) => Some(x as u32),
        Err(()) => None,
    }
}

/// The number of the `ImageChannelDataType` that `name` names, if it names one.
pub uninterp spec fn image_channel_data_type_named(name: Seq<char>) -> Option<u32>;

/// `FromStr` of `rspirv::spirv::ImageChannelDataType`, with the value that was read given
/// as its number. The contract names the result.
#[verifier::external_body]
fn parse_image_channel_data_type(word: &str) -> (r: Option<u32>)
    ensures
        r == image_channel_data_type_named(word@),
{
    match word.parse::<rspirv::spirv::ImageChannelDataType>() {
        Ok(x) => Some(x as u32),
        Err(()) => None,
    }
}

/// The number of the `FPRoundingMode` that `name` names, if it names one.
pub uninterp spec fn fp_rounding_mode_named(name: Seq<char>) -> Option<u32>;

/// `FromStr` of `rspirv::spirv::FPRoundingMode`, with the value that was read given
/// as its number. The contract names the result.
#[verifier::external_body]
fn parse_fp_rounding_mode(word: &str) -> (r: Option<u32>)
    ensures
        r == fp_rounding_mode_named(word@),
{
    match word.parse::<rspirv::spirv::FPRoundingMode>() {
        Ok(x) => Some(x as u32),
        Err(()) => None,
    }
}

/// The number of the `LinkageType` that `name` names, if it names one.
pub open spec fn linkage_type_named(name: Seq<char>) -> Option<u32> {
    if name == "Export"@ {
        Some(0u32)
    } else if name == "Import"@ {
        Some(1u32)
    } else if name == "LinkOnceODR"@ {
        Some(2u32)
    } else {
        None
    }
}

/// `FromStr` of `rspirv::spirv::LinkageType`, with the value that was read given
/// as its number. The contract writes the names out.
#[verifier::external_body]
fn parse_linkage_type(word: &str) -> (r: Option<u32>)
    ensures
        r == linkage_type_named(word@),
{
    match word.parse::<rspirv::spirv::LinkageType>() {
        Ok(x) => Some(x as u32),
        Err(()) => None,
    }
}

/// The number of the `AccessQualifier` that `name` names, if it names one.
pub open spec fn access_qualifier_named(name: Seq<char>) -> Option<u32> {
    if name == "ReadOnly"@ {
        Some(0u32)
    } else if name == "WriteOnly"@ {
        Some(1u32)
    } else if name == "ReadWrite"@ {
        Some(2u32)
    } else {
        None
    }
}

/// `FromStr` of `rspirv::spirv::AccessQualifier`, with the value that was read given
/// as its number. The contract writes the names out.
#[verifier::external_body]
fn parse_access_qualifier(word: &str) -> (r: Option<u32>)
    ensures
        r == access_qualifier_named(word@),
{
    match word.parse::<rspirv::spirv::AccessQualifier>() {
        Ok(x) => Some(x as u32),
        Err(()) => None,
    }
}

/// The number of the `FunctionParameterAttribute` that `name` names, if it names one.
pub uninterp spec fn function_parameter_attribute_named(name: Seq<char>) -> Option<u32>;

/// `FromStr` of `rspirv::spirv::FunctionParameterAttribute`, with the value that was read given
/// as its number. The contract names the result.
#[verifier::external_body]
fn parse_function_parameter_attribute(word: &str) -> (r: Option<u32>)
    ensures
        r == function_parameter_attribute_named(word@),
{
    match word.parse::<rspirv::spirv::FunctionParameterAttribute>() {
        Ok(x) => Some(x as u32),
        Err(()) => None,
    }
}

/// The number of the `Decoration` that `name` names, if it names one.
pub uninterp spec fn decoration_named(name: Seq<char>) -> Option<u32>;

/// `FromStr` of `rspirv::spirv::Decoration`, with the value that was read given
/// as its number. The contract names the result.
#[verifier::external_body]
fn parse_decoration(word: &str) -> (r: Option<u32>)
    ensures
        r == decoration_named(word@),
{
    match word.parse::<rspirv::spirv::Decoration>() {
        Ok(x) => Some(x as u32),
        Err(()) => None,
    }
}

/// The number of the `BuiltIn` that `name` names, if it names one.
pub uninterp spec fn built_in_named(name: Seq<char>) -> Option<u32>;

/// `FromStr` of `rspirv::spirv::BuiltIn`, with the value that was read given
/// as its number. The contract names the result.
#[verifier::external_body]
fn parse_built_in(word: &str) -> (r: Option<u32>)
    ensures
        r == built_in_named(word@),
{
    match word.parse::<rspirv::spirv::BuiltIn>() {
        Ok(x) => Some(x as u32),
        Err(()) => None,
    }
}

/// The number of the `Scope` that `name` names, if it names one.
pub uninterp spec fn scope_named(name: Seq<char>) -> Option<u32>;

/// `FromStr` of `rspirv::spirv::Scope`, with the value that was read given
/// as its number. The contract names the result.
#[verifier::external_body]
fn parse_scope(word: &str) -> (r: Option<u32>)
    ensures
        r == scope_named(word@),
{
    match word.parse::<rspirv::spirv::Scope>() {
        Ok(x) => Some(x as u32),
        Err(()) => None,
    }
}

/// The number of the `GroupOperation` that `name` names, if it names one.
pub uninterp spec fn group_operation_named(name: Seq<char>) -> Option<u32>;

/// `FromStr` of `rspirv::spirv::GroupOperation`, with the value that was read given
/// as its number. The contract names the result.
#[verifier::external_body]
fn parse_group_operation(word: &str) -> (r: Option<u32>)
    ensures
        r == group_operation_named(word@),
{
    match word.parse::<rspirv::spirv::GroupOperation>() {
        Ok(x) => Some(x as u32),
        Err(()) => None,
    }
}

/// The number of the `KernelEnqueueFlags` that `name` names, if it names one.
pub open spec fn kernel_enqueue_flags_named(name: Seq<char>) -> Option<u32> {
    if name == "NoWait"@ {
        Some(0u32)
    } else if name == "WaitKernel"@ {
        Some(1u32)
    } else if name == "WaitWorkGroup"@ {
        Some(2u32)
    } else {
        None
    }
}

/// `FromStr` of `rspirv::spirv::KernelEnqueueFlags`, with the value that was read given
/// as its number. The contract writes the names out.
#[verifier::external_body]
fn parse_kernel_enqueue_flags(word: &str) -> (r: Option<u32>)
    ensures
        r == kernel_enqueue_flags_named(word@),
{
    match word.parse::<rspirv::spirv::KernelEnqueueFlags>() {
        Ok(x) => Some(x as u32),
        Err(()) => None,
    }
}

/// The number of the `Capability` that `name` names, if it names one.
pub uninterp spec fn capability_named(name: Seq<char>) -> Option<u32>;

/// `FromStr` of `rspirv::spirv::Capability`, with the value that was read given
/// as its number. The contract names the result.
#[verifier::external_body]
fn parse_capability(word: &str) -> (r: Option<u32>)
    ensures
        r == capability_named(word@),
{
    match word.parse::<rspirv::spirv::Capability>() {
        Ok(x) => Some(x as u32),
        Err(()) => None,
    }
}

/// The number of the `RayQueryIntersection` that `name` names, if it names one.
pub open spec fn ray_query_intersection_named(name: Seq<char>) -> Option<u32> {
    if name == "RayQueryCandidateIntersectionKHR"@ {
        Some(0u32)
    } else if name == "RayQueryCommittedIntersectionKHR"@ {
        Some(1u32)
    } else {
        None
    }
}

/// `FromStr` of `rspirv::spirv::RayQueryIntersection`, with the value that was read given
/// as its number. The contract writes the names out.
#[verifier::external_body]
fn parse_ray_query_intersection(word: &str) -> (r: Option<u32>)
    ensures
        r == ray_query_intersection_named(word@),
{
    match word.parse::<rspirv::spirv::RayQueryIntersection>() {
        Ok(x) => Some(x as u32),
        Err(()) => None,
    }
}

/// The number of the `RayQueryCommittedIntersectionType` that `name` names, if it names one.
pub uninterp spec fn ray_query_committed_intersection_type_named(name: Seq<char>) -> Option<u32>;

/// `FromStr` of `rspirv::spirv::RayQueryCommittedIntersectionType`, with the value that was read given
/// as its number. The contract names the result.
#[verifier::external_body]
fn parse_ray_query_committed_intersection_type(word: &str) -> (r: Option<u32>)
    ensures
        r == ray_query_committed_intersection_type_named(word@),
{
    match word.parse::<rspirv::spirv::RayQueryCommittedIntersectionType>() {
        Ok(x) => Some(x as u32),
        Err(()) => None,
    }
}

/// The number of the `RayQueryCandidateIntersectionType` that `name` names, if it names one.
pub uninterp spec fn ray_query_candidate_intersection_type_named(name: Seq<char>) -> Option<u32>;

/// `FromStr` of `rspirv::spirv::RayQueryCandidateIntersectionType`, with the value that was read given
/// as its number. The contract names the result.
#[verifier::external_body]
fn parse_ray_query_candidate_intersection_type(word: &str) -> (r: Option<u32>)
    ensures
        r == ray_query_candidate_intersection_type_named(word@),
{
    match word.parse::<rspirv::spirv::RayQueryCandidateIntersectionType>() {
        Ok(x) => Some(x as u32),
        Err(()) => None,
    }
}

/// The number of the `FPDenormMode` that `name` names, if it names one.
pub open spec fn fp_denorm_mode_named(name: Seq<char>) -> Option<u32> {
    if name == "Preserve"@ {
        Some(0u32)
    } else if name == "FlushToZero"@ {
        Some(1u32)
    } else {
        None
    }
}

/// `FromStr` of `rspirv::spirv::FPDenormMode`, with the value that was read given
/// as its number. The contract writes the names out.
#[verifier::external_body]
fn parse_fp_denorm_mode(word: &str) -> (r: Option<u32>)
    ensures
        r == fp_denorm_mode_named(word@),
{
    match word.parse::<rspirv::spirv::FPDenormMode>() {
        Ok(x) => Some(x as u32),
        Err(()) => None,
    }
}

/// The number of the `QuantizationModes` that `name` names, if it names one.
pub uninterp spec fn quantization_modes_named(name: Seq<char>) -> Option<u32>;

/// `FromStr` of `rspirv::spirv::QuantizationModes`, with the value that was read given
/// as its number. The contract names the result.
#[verifier::external_body]
fn parse_quantization_modes(word: &str) -> (r: Option<u32>)
    ensures
        r == quantization_modes_named(word@),
{
    match word.parse::<rspirv::spirv::QuantizationModes>() {
        Ok(x) => Some(x as u32),
        Err(()) => None,
    }
}

/// The number of the `FPOperationMode` that `name` names, if it names one.
pub open spec fn fp_operation_mode_named(name: Seq<char>) -> Option<u32> {
    if name == "IEEE"@ {
        Some(0u32)
    } else if name == "ALT"@ {
        Some(1u32)
    } else {
        None
    }
}

/// `FromStr` of `rspirv::spirv::FPOperationMode`, with the value that was read given
/// as its number. The contract writes the names out.
#[verifier::external_body]
fn parse_fp_operation_mode(word: &str) -> (r: Option<u32>)
    ensures
        r == fp_operation_mode_named(word@),
{
    match word.parse::<rspirv::spirv::FPOperationMode>() {
        Ok(x) => Some(x as u32),
        Err(()) => None,
    }
}

/// The number of the `OverflowModes` that `name` names, if it names one.
pub uninterp spec fn overflow_modes_named(name: Seq<char>) -> Option<u32>;

/// `FromStr` of `rspirv::spirv::OverflowModes`, with the value that was read given
/// as its number. The contract names the result.
#[verifier::external_body]
fn parse_overflow_modes(word: &str) -> (r: Option<u32>)
    ensures
        r == overflow_modes_named(word@),
{
    match word.parse::<rspirv::spirv::OverflowModes>() {
        Ok(x) => Some(x as u32),
        Err(()) => None,
    }
}

/// The number of the `PackedVectorFormat` that `name` names, if it names one.
pub open spec fn packed_vector_format_named(name: Seq<char>) -> Option<u32> {
    if name == "PackedVectorFormat4x8Bit"@ {
        Some(0u32)
    } else if name == "PackedVectorFormat4x8BitKHR"@ {
        Some(0u32)
    } else {
        None
    }
}

/// `FromStr` of `rspirv::spirv::PackedVectorFormat`, with the value that was read given
/// as its number. The contract writes the names out.
#[verifier::external_body]
fn parse_packed_vector_format(word: &str) -> (r: Option<u32>)
    ensures
        r == packed_vector_format_named(word@),
{
    match word.parse::<rspirv::spirv::PackedVectorFormat>() {
        Ok(x) => Some(x as u32),
        Err(()) => None,
    }
}

/// The number of the `HostAccessQualifier` that `name` names, if it names one.
pub uninterp spec fn host_access_qualifier_named(name: Seq<char>) -> Option<u32>;

/// `FromStr` of `rspirv::spirv::HostAccessQualifier`, with the value that was read given
/// as its number. The contract names the result.
#[verifier::external_body]
fn parse_host_access_qualifier(word: &str) -> (r: Option<u32>)
    ensures
        r == host_access_qualifier_named(word@),
{
    match word.parse::<rspirv::spirv::HostAccessQualifier>() {
        Ok(x) => Some(x as u32),
        Err(()) => None,
    }
}

/// The number of the `CooperativeMatrixLayout` that `name` names, if it names one.
pub open spec fn cooperative_matrix_layout_named(name: Seq<char>) -> Option<u32> {
    if name == "RowMajorKHR"@ {
        Some(0u32)
    } else if name == "ColumnMajorKHR"@ {
        Some(1u32)
    } else {
        None
    }
}

/// `FromStr` of `rspirv::spirv::CooperativeMatrixLayout`, with the value that was read given
/// as its number. The contract writes the names out.
#[verifier::external_body]
fn parse_cooperative_matrix_layout(word: &str) -> (r: Option<u32>)
    ensures
        r == cooperative_matrix_layout_named(word@),
{
    match word.parse::<rspirv::spirv::CooperativeMatrixLayout>() {
        Ok(x) => Some(x as u32),
        Err(()) => None,
    }
}

/// The number of the `CooperativeMatrixUse` that `name` names, if it names one.
pub uninterp spec fn cooperative_matrix_use_named(name: Seq<char>) -> Option<u32>;

/// `FromStr` of `rspirv::spirv::CooperativeMatrixUse`, with the value that was read given
/// as its number. The contract names the result.
#[verifier::external_body]
fn parse_cooperative_matrix_use(word: &str) -> (r: Option<u32>)
    ensures
        r == cooperative_matrix_use_named(word@),
{
    match word.parse::<rspirv::spirv::CooperativeMatrixUse>() {
        Ok(x) => Some(x as u32),
        Err(()) => None,
    }
}

/// The number of the `InitializationModeQualifier` that `name` names, if it names one.
pub open spec fn initialization_mode_qualifier_named(name: Seq<char>) -> Option<u32> {
    if name == "InitOnDeviceReprogramINTEL"@ {
        Some(0u32)
    } else if name == "InitOnDeviceResetINTEL"@ {
        Some(1u32)
    } else {
        None
    }
}

/// `FromStr` of `rspirv::spirv::InitializationModeQualifier`, with the value that was read given
/// as its number. The contract writes the names out.
#[verifier::external_body]
fn parse_initialization_mode_qualifier(word: &str) -> (r: Option<u32>)
    ensures
        r == initialization_mode_qualifier_named(word@),
{
    match word.parse::<rspirv::spirv::InitializationModeQualifier>() {
        Ok(x) => Some(x as u32),
        Err(()) => None,
    }
}

/// The number of the `LoadCacheControl` that `name` names, if it names one.
pub uninterp spec fn load_cache_control_named(name: Seq<char>) -> Option<u32>;

/// `FromStr` of `rspirv::spirv::LoadCacheControl`, with the value that was read given
/// as its number. The contract names the result.
#[verifier::external_body]
fn parse_load_cache_control(word: &str) -> (r: Option<u32>)
    ensures
        r == load_cache_control_named(word@),
{
    match word.parse::<rspirv::spirv::LoadCacheControl>() {
        Ok(x) => Some(x as u32),
        Err(()) => None,
    }
}

/// The number of the `StoreCacheControl` that `name` names, if it names one.
pub uninterp spec fn store_cache_control_named(name: Seq<char>) -> Option<u32>;

/// `FromStr` of `rspirv::spirv::StoreCacheControl`, with the value that was read given
/// as its number. The contract names the result.
#[verifier::external_body]
fn parse_store_cache_control(word: &str) -> (r: Option<u32>)
    ensures
        r == store_cache_control_named(word@),
{
    match word.parse::<rspirv::spirv::StoreCacheControl>() {
        Ok(x) => Some(x as u32),
        Err(()) => None,
    }
}

/// The name of the storage class with the number `value`, if the number
/// is that of a storage class.
pub uninterp spec fn storage_class_name(value: u32) -> Option<Seq<char>>;

/// `Debug` of `rspirv::spirv::StorageClass`, for the storage class that
/// `from_u32` finds for the number, if it finds one. The contract names
/// the result.
#[verifier::external_body]
fn storage_class_debug(value: u32) -> (r: Option<String>)
    ensures
        r.deep_view() == storage_class_name(value),
{
    match rspirv::spirv::StorageClass::from_u32(value) {
        Some(class) => Some(format!("{:?}", class)),
        None => None,
    }
}

/// How the storage class with the number `value` is written in a
/// message: by its name, or in decimal where the number is that of no
/// storage class.
pub open spec fn storage_class_text(value: u32) -> Seq<char> {
    match storage_class_name(value) {
        Some(name) => name,
        None => decimal(value as nat),
    }
}

/// Writes the storage class with the number `value` for a message.
pub fn storage_class_written(value: u32) -> (r: String)
    ensures
        r@ == storage_class_text(value),
{
    match storage_class_debug(value) {
        Some(name) => name,
        None => u64_to_string(value as u64),
    }
}

/// Whether the number `n` stands for a group operation.
pub open spec fn is_group_operation(n: u32) -> bool {
    n <= 3 || 6 <= n <= 8
}

/// `rspirv::spirv::GroupOperation::from_u32`, asked whether it finds a
/// value: it does for 0 to 3 and for 6 to 8.
#[verifier::external_body]
fn group_operation_exists(n: u32) -> (r: bool)
    ensures
        r == is_group_operation(n),
{
    rspirv::spirv::GroupOperation::from_u32(n).is_some()
}

/// Whether operands of the kind are values of an enumeration.
pub open spec fn is_enumerant_kind(kind: OperandKind) -> bool {
    match kind {
        OperandKind::SourceLanguage => true,
        OperandKind::ExecutionModel => true,
        OperandKind::AddressingModel => true,
        OperandKind::MemoryModel => true,
        OperandKind::ExecutionMode => true,
        OperandKind::StorageClass => true,
        OperandKind::Dim => true,
        OperandKind::SamplerAddressingMode => true,
        OperandKind::SamplerFilterMode => true,
        OperandKind::ImageFormat => true,
        OperandKind::ImageChannelOrder => true,
        OperandKind::ImageChannelDataType => true,
        OperandKind::FPRoundingMode => true,
        OperandKind::LinkageType => true,
        OperandKind::AccessQualifier => true,
        OperandKind::FunctionParameterAttribute => true,
        OperandKind::Decoration => true,
        OperandKind::BuiltIn => true,
        OperandKind::Scope => true,
        OperandKind::GroupOperation => true,
        OperandKind::KernelEnqueueFlags => true,
        OperandKind::Capability => true,
        OperandKind::RayQueryIntersection => true,
        OperandKind::RayQueryCommittedIntersectionType => true,
        OperandKind::RayQueryCandidateIntersectionType => true,
        OperandKind::FPDenormMode => true,
        OperandKind::QuantizationModes => true,
        OperandKind::FPOperationMode => true,
        OperandKind::OverflowModes => true,
        OperandKind::PackedVectorFormat => true,
        OperandKind::HostAccessQualifier => true,
        OperandKind::CooperativeMatrixLayout => true,
        OperandKind::CooperativeMatrixUse => true,
        OperandKind::InitializationModeQualifier => true,
        OperandKind::LoadCacheControl => true,
        OperandKind::StoreCacheControl => true,
        _ => false,
    }
}

/// Tells whether operands of the kind are values of an enumeration.
pub fn enumerant_kind(kind: OperandKind) -> (r: bool)
    ensures
        r == is_enumerant_kind(kind),
{
    match kind {
        OperandKind::SourceLanguage => true,
        OperandKind::ExecutionModel => true,
        OperandKind::AddressingModel => true,
        OperandKind::MemoryModel => true,
        OperandKind::ExecutionMode => true,
        OperandKind::StorageClass => true,
        OperandKind::Dim => true,
        OperandKind::SamplerAddressingMode => true,
        OperandKind::SamplerFilterMode => true,
        OperandKind::ImageFormat => true,
        OperandKind::ImageChannelOrder => true,
        OperandKind::ImageChannelDataType => true,
        OperandKind::FPRoundingMode => true,
        OperandKind::LinkageType => true,
        OperandKind::AccessQualifier => true,
        OperandKind::FunctionParameterAttribute => true,
        OperandKind::Decoration => true,
        OperandKind::BuiltIn => true,
        OperandKind::Scope => true,
        OperandKind::GroupOperation => true,
        OperandKind::KernelEnqueueFlags => true,
        OperandKind::Capability => true,
        OperandKind::RayQueryIntersection => true,
        OperandKind::RayQueryCommittedIntersectionType => true,
        OperandKind::RayQueryCandidateIntersectionType => true,
        OperandKind::FPDenormMode => true,
        OperandKind::QuantizationModes => true,
        OperandKind::FPOperationMode => true,
        OperandKind::OverflowModes => true,
        OperandKind::PackedVectorFormat => true,
        OperandKind::HostAccessQualifier => true,
        OperandKind::CooperativeMatrixLayout => true,
        OperandKind::CooperativeMatrixUse => true,
        OperandKind::InitializationModeQualifier => true,
        OperandKind::LoadCacheControl => true,
        OperandKind::StoreCacheControl => true,
        _ => false,
    }
}

/// The number of the enumerant of kind `kind` that `name` names. A group
/// operation may also be written as its number.
pub open spec fn enumerant_value(kind: OperandKind, name: Seq<char>) -> Option<u32> {
    match kind {
        OperandKind::SourceLanguage => source_language_named(name),
        OperandKind::ExecutionModel => execution_model_named(name),
        OperandKind::AddressingModel => addressing_model_named(name),
        OperandKind::MemoryModel => memory_model_named(name),
        OperandKind::ExecutionMode => execution_mode_named(name),
        OperandKind::StorageClass => storage_class_named(name),
        OperandKind::Dim => dim_named(name),
        OperandKind::SamplerAddressingMode => sampler_addressing_mode_named(name),
        OperandKind::SamplerFilterMode => sampler_filter_mode_named(name),
        OperandKind::ImageFormat => image_format_named(name),
        OperandKind::ImageChannelOrder => image_channel_order_named(name),
        OperandKind::ImageChannelDataType => image_channel_data_type_named(name),
        OperandKind::FPRoundingMode => fp_rounding_mode_named(name),
        OperandKind::LinkageType => linkage_type_named(name),
        OperandKind::AccessQualifier => access_qualifier_named(name),
        OperandKind::FunctionParameterAttribute => function_parameter_attribute_named(name),
        OperandKind::Decoration => decoration_named(name),
        OperandKind::BuiltIn => built_in_named(name),
        OperandKind::Scope => scope_named(name),
        OperandKind::GroupOperation => match parse_int_spec(name, 0, u32::MAX as int) {
            Ok(n) if is_group_operation(n as u32) => Some(n as u32),
            _ => group_operation_named(name),
        },
        OperandKind::KernelEnqueueFlags => kernel_enqueue_flags_named(name),
        OperandKind::Capability => capability_named(name),
        OperandKind::RayQueryIntersection => ray_query_intersection_named(name),
        OperandKind::RayQueryCommittedIntersectionType => ray_query_committed_intersection_type_named(name),
        OperandKind::RayQueryCandidateIntersectionType => ray_query_candidate_intersection_type_named(name),
        OperandKind::FPDenormMode => fp_denorm_mode_named(name),
        OperandKind::QuantizationModes => quantization_modes_named(name),
        OperandKind::FPOperationMode => fp_operation_mode_named(name),
        OperandKind::OverflowModes => overflow_modes_named(name),
        OperandKind::PackedVectorFormat => packed_vector_format_named(name),
        OperandKind::HostAccessQualifier => host_access_qualifier_named(name),
        OperandKind::CooperativeMatrixLayout => cooperative_matrix_layout_named(name),
        OperandKind::CooperativeMatrixUse => cooperative_matrix_use_named(name),
        OperandKind::InitializationModeQualifier => initialization_mode_qualifier_named(name),
        OperandKind::LoadCacheControl => load_cache_control_named(name),
        OperandKind::StoreCacheControl => store_cache_control_named(name),
        _ => None,
    }
}

/// Reads an enumerant of the kind `kind` from its name.
pub fn parse_enumerant(kind: OperandKind, word: &str) -> (r: Option<u32>)
    ensures
        r == enumerant_value(kind, word@),
{
    match kind {
        OperandKind::SourceLanguage => parse_source_language(word),
        OperandKind::ExecutionModel => parse_execution_model(word),
        OperandKind::AddressingModel => parse_addressing_model(word),
        OperandKind::MemoryModel => parse_memory_model(word),
        OperandKind::ExecutionMode => parse_execution_mode(word),
        OperandKind::StorageClass => parse_storage_class(word),
        OperandKind::Dim => parse_dim(word),
        OperandKind::SamplerAddressingMode => parse_sampler_addressing_mode(word),
        OperandKind::SamplerFilterMode => parse_sampler_filter_mode(word),
        OperandKind::ImageFormat => parse_image_format(word),
        OperandKind::ImageChannelOrder => parse_image_channel_order(word),
        OperandKind::ImageChannelDataType => parse_image_channel_data_type(word),
        OperandKind::FPRoundingMode => parse_fp_rounding_mode(word),
        OperandKind::LinkageType => parse_linkage_type(word),
        OperandKind::AccessQualifier => parse_access_qualifier(word),
        OperandKind::FunctionParameterAttribute => parse_function_parameter_attribute(word),
        OperandKind::Decoration => parse_decoration(word),
        OperandKind::BuiltIn => parse_built_in(word),
        OperandKind::Scope => parse_scope(word),
        OperandKind::GroupOperation => {
            match parse_int(word, 0, 0xffff_ffff) {
                Ok(n) => {
                    if group_operation_exists(n as u32) {
                        return Some(n as u32);
                    }
                },
                Err(_) => {},
            }
            parse_group_operation(word)
        },
        OperandKind::KernelEnqueueFlags => parse_kernel_enqueue_flags(word),
        OperandKind::Capability => parse_capability(word),
        OperandKind::RayQueryIntersection => parse_ray_query_intersection(word),
        OperandKind::RayQueryCommittedIntersectionType => parse_ray_query_committed_intersection_type(word),
        OperandKind::RayQueryCandidateIntersectionType => parse_ray_query_candidate_intersection_type(word),
        OperandKind::FPDenormMode => parse_fp_denorm_mode(word),
        OperandKind::QuantizationModes => parse_quantization_modes(word),
        OperandKind::FPOperationMode => parse_fp_operation_mode(word),
        OperandKind::OverflowModes => parse_overflow_modes(word),
        OperandKind::PackedVectorFormat => parse_packed_vector_format(word),
        OperandKind::HostAccessQualifier => parse_host_access_qualifier(word),
        OperandKind::CooperativeMatrixLayout => parse_cooperative_matrix_layout(word),
        OperandKind::CooperativeMatrixUse => parse_cooperative_matrix_use(word),
        OperandKind::InitializationModeQualifier => parse_initialization_mode_qualifier(word),
        OperandKind::LoadCacheControl => parse_load_cache_control(word),
        OperandKind::StoreCacheControl => parse_store_cache_control(word),
        _ => None,
    }
}

/// Whether operands of the kind are masks of flags.
pub open spec fn is_bitflag_kind(kind: OperandKind) -> bool {
    match kind {
        OperandKind::ImageOperands => true,
        OperandKind::FPFastMathMode => true,
        OperandKind::SelectionControl => true,
        OperandKind::LoopControl => true,
        OperandKind::FunctionControl => true,
        OperandKind::MemorySemantics => true,
        OperandKind::MemoryAccess => true,
        OperandKind::KernelProfilingInfo => true,
        OperandKind::RayFlags => true,
        OperandKind::FragmentShadingRate => true,
        OperandKind::CooperativeMatrixOperands => true,
        _ => false,
    }
}

/// Tells whether operands of the kind are masks of flags.
pub fn bitflag_kind(kind: OperandKind) -> (r: bool)
    ensures
        r == is_bitflag_kind(kind),
{
    match kind {
        OperandKind::ImageOperands => true,
        OperandKind::FPFastMathMode => true,
        OperandKind::SelectionControl => true,
        OperandKind::LoopControl => true,
        OperandKind::FunctionControl => true,
        OperandKind::MemorySemantics => true,
        OperandKind::MemoryAccess => true,
        OperandKind::KernelProfilingInfo => true,
        OperandKind::RayFlags => true,
        OperandKind::FragmentShadingRate => true,
        OperandKind::CooperativeMatrixOperands => true,
        _ => false,
    }
}

/// The names of the flags of the kind `kind`, each with its bits.
pub open spec fn bitflag_table_spec(kind: OperandKind) -> Seq<(Seq<char>, u32)> {
    match kind {
        OperandKind::ImageOperands => seq![
            ("None"@, 0u32),
            ("Bias"@, 1u32),
            ("Lod"@, 2u32),
            ("Grad"@, 4u32),
            ("ConstOffset"@, 8u32),
            ("Offset"@, 16u32),
            ("ConstOffsets"@, 32u32),
            ("Sample"@, 64u32),
            ("MinLod"@, 128u32),
            ("MakeTexelAvailable"@, 256u32),
            ("MakeTexelAvailableKHR"@, 256u32),
            ("MakeTexelVisible"@, 512u32),
            ("MakeTexelVisibleKHR"@, 512u32),
            ("NonPrivateTexel"@, 1024u32),
            ("NonPrivateTexelKHR"@, 1024u32),
            ("VolatileTexel"@, 2048u32),
            ("VolatileTexelKHR"@, 2048u32),
            ("SignExtend"@, 4096u32),
            ("ZeroExtend"@, 8192u32),
        ],
        OperandKind::FPFastMathMode => seq![
            ("None"@, 0u32),
            ("NotNan"@, 1u32),
            ("NotInf"@, 2u32),
            ("Nsz"@, 4u32),
            ("AllowRecip"@, 8u32),
            ("Fast"@, 16u32),
        ],
        OperandKind::SelectionControl => seq![
            ("None"@, 0u32),
            ("Flatten"@, 1u32),
            ("DontFlatten"@, 2u32),
        ],
        OperandKind::LoopControl => seq![
            ("None"@, 0u32),
            ("Unroll"@, 1u32),
            ("DontUnroll"@, 2u32),
            ("DependencyInfinite"@, 4u32),
            ("DependencyLength"@, 8u32),
            ("MinIterations"@, 16u32),
            ("MaxIterations"@, 32u32),
            ("IterationMultiple"@, 64u32),
            ("PeelCount"@, 128u32),
            ("PartialCount"@, 256u32),
        ],
        OperandKind::FunctionControl => seq![
            ("None"@, 0u32),
            ("Inline"@, 1u32),
            ("DontInline"@, 2u32),
            ("Pure"@, 4u32),
            ("Const"@, 8u32),
        ],
        OperandKind::MemorySemantics => seq![
            ("Relaxed"@, 0u32),
            ("None"@, 0u32),
            ("Acquire"@, 2u32),
            ("Release"@, 4u32),
            ("AcquireRelease"@, 8u32),
            ("SequentiallyConsistent"@, 16u32),
            ("UniformMemory"@, 64u32),
            ("SubgroupMemory"@, 128u32),
            ("WorkgroupMemory"@, 256u32),
            ("CrossWorkgroupMemory"@, 512u32),
            ("AtomicCounterMemory"@, 1024u32),
            ("ImageMemory"@, 2048u32),
            ("OutputMemory"@, 4096u32),
            ("OutputMemoryKHR"@, 4096u32),
            ("MakeAvailable"@, 8192u32),
            ("MakeAvailableKHR"@, 8192u32),
            ("MakeVisible"@, 16384u32),
            ("MakeVisibleKHR"@, 16384u32),
            ("Volatile"@, 32768u32),
        ],
        OperandKind::MemoryAccess => seq![
            ("None"@, 0u32),
            ("Volatile"@, 1u32),
            ("Aligned"@, 2u32),
            ("Nontemporal"@, 4u32),
            ("MakePointerAvailable"@, 8u32),
            ("MakePointerAvailableKHR"@, 8u32),
            ("MakePointerVisible"@, 16u32),
            ("MakePointerVisibleKHR"@, 16u32),
            ("NonPrivatePointer"@, 32u32),
            ("NonPrivatePointerKHR"@, 32u32),
        ],
        OperandKind::KernelProfilingInfo => seq![
            ("None"@, 0u32),
            ("CmdExecTime"@, 1u32),
        ],
        OperandKind::RayFlags => seq![
            ("NoneKHR"@, 0u32),
            ("OpaqueKHR"@, 1u32),
            ("NoOpaqueKHR"@, 2u32),
            ("TerminateOnFirstHitKHR"@, 4u32),
            ("SkipClosestHitShaderKHR"@, 8u32),
            ("CullBackFacingTrianglesKHR"@, 16u32),
            ("CullFrontFacingTrianglesKHR"@, 32u32),
            ("CullOpaqueKHR"@, 64u32),
            ("CullNoOpaqueKHR"@, 128u32),
            ("SkipTrianglesKHR"@, 256u32),
            ("SkipAabBsKHR"@, 512u32),
        ],
        OperandKind::FragmentShadingRate => seq![
            ("VERTICAL2_PIXELS"@, 1u32),
            ("VERTICAL4_PIXELS"@, 2u32),
            ("HORIZONTAL2_PIXELS"@, 4u32),
            ("HORIZONTAL4_PIXELS"@, 8u32),
        ],
        OperandKind::CooperativeMatrixOperands => seq![
            ("NONE_KHR"@, 0u32),
            ("MATRIX_A_SIGNED_COMPONENTS_KHR"@, 1u32),
            ("MATRIX_B_SIGNED_COMPONENTS_KHR"@, 2u32),
            ("MATRIX_C_SIGNED_COMPONENTS_KHR"@, 4u32),
            ("MATRIX_RESULT_SIGNED_COMPONENTS_KHR"@, 8u32),
            ("SATURATING_ACCUMULATION_KHR"@, 16u32),
        ],
        _ => Seq::empty(),
    }
}

/// The names of the flags of the kind `kind`, each with its bits; empty
/// for a kind that is no mask of flags.
pub fn bitflag_table(kind: OperandKind) -> (r: Vec<(&'static str, u32)>)
    ensures
        r.deep_view() == bitflag_table_spec(kind),
{
    let r: Vec<(&'static str, u32)> = match kind {
        OperandKind::ImageOperands => vec![
            ("None", 0u32),
            ("Bias", 1u32),
            ("Lod", 2u32),
            ("Grad", 4u32),
            ("ConstOffset", 8u32),
            ("Offset", 16u32),
            ("ConstOffsets", 32u32),
            ("Sample", 64u32),
            ("MinLod", 128u32),
            ("MakeTexelAvailable", 256u32),
            ("MakeTexelAvailableKHR", 256u32),
            ("MakeTexelVisible", 512u32),
            ("MakeTexelVisibleKHR", 512u32),
            ("NonPrivateTexel", 1024u32),
            ("NonPrivateTexelKHR", 1024u32),
            ("VolatileTexel", 2048u32),
            ("VolatileTexelKHR", 2048u32),
            ("SignExtend", 4096u32),
            ("ZeroExtend", 8192u32),
        ],
        OperandKind::FPFastMathMode => vec![
            ("None", 0u32),
            ("NotNan", 1u32),
            ("NotInf", 2u32),
            ("Nsz", 4u32),
            ("AllowRecip", 8u32),
            ("Fast", 16u32),
        ],
        OperandKind::SelectionControl => vec![
            ("None", 0u32),
            ("Flatten", 1u32),
            ("DontFlatten", 2u32),
        ],
        OperandKind::LoopControl => vec![
            ("None", 0u32),
            ("Unroll", 1u32),
            ("DontUnroll", 2u32),
            ("DependencyInfinite", 4u32),
            ("DependencyLength", 8u32),
            ("MinIterations", 16u32),
            ("MaxIterations", 32u32),
            ("IterationMultiple", 64u32),
            ("PeelCount", 128u32),
            ("PartialCount", 256u32),
        ],
        OperandKind::FunctionControl => vec![
            ("None", 0u32),
            ("Inline", 1u32),
            ("DontInline", 2u32),
            ("Pure", 4u32),
            ("Const", 8u32),
        ],
        OperandKind::MemorySemantics => vec![
            ("Relaxed", 0u32),
            ("None", 0u32),
            ("Acquire", 2u32),
            ("Release", 4u32),
            ("AcquireRelease", 8u32),
            ("SequentiallyConsistent", 16u32),
            ("UniformMemory", 64u32),
            ("SubgroupMemory", 128u32),
            ("WorkgroupMemory", 256u32),
            ("CrossWorkgroupMemory", 512u32),
            ("AtomicCounterMemory", 1024u32),
            ("ImageMemory", 2048u32),
            ("OutputMemory", 4096u32),
            ("OutputMemoryKHR", 4096u32),
            ("MakeAvailable", 8192u32),
            ("MakeAvailableKHR", 8192u32),
            ("MakeVisible", 16384u32),
            ("MakeVisibleKHR", 16384u32),
            ("Volatile", 32768u32),
        ],
        OperandKind::MemoryAccess => vec![
            ("None", 0u32),
            ("Volatile", 1u32),
            ("Aligned", 2u32),
            ("Nontemporal", 4u32),
            ("MakePointerAvailable", 8u32),
            ("MakePointerAvailableKHR", 8u32),
            ("MakePointerVisible", 16u32),
            ("MakePointerVisibleKHR", 16u32),
            ("NonPrivatePointer", 32u32),
            ("NonPrivatePointerKHR", 32u32),
        ],
        OperandKind::KernelProfilingInfo => vec![
            ("None", 0u32),
            ("CmdExecTime", 1u32),
        ],
        OperandKind::RayFlags => vec![
            ("NoneKHR", 0u32),
            ("OpaqueKHR", 1u32),
            ("NoOpaqueKHR", 2u32),
            ("TerminateOnFirstHitKHR", 4u32),
            ("SkipClosestHitShaderKHR", 8u32),
            ("CullBackFacingTrianglesKHR", 16u32),
            ("CullFrontFacingTrianglesKHR", 32u32),
            ("CullOpaqueKHR", 64u32),
            ("CullNoOpaqueKHR", 128u32),
            ("SkipTrianglesKHR", 256u32),
            ("SkipAabBsKHR", 512u32),
        ],
        OperandKind::FragmentShadingRate => vec![
            ("VERTICAL2_PIXELS", 1u32),
            ("VERTICAL4_PIXELS", 2u32),
            ("HORIZONTAL2_PIXELS", 4u32),
            ("HORIZONTAL4_PIXELS", 8u32),
        ],
        OperandKind::CooperativeMatrixOperands => vec![
            ("NONE_KHR", 0u32),
            ("MATRIX_A_SIGNED_COMPONENTS_KHR", 1u32),
            ("MATRIX_B_SIGNED_COMPONENTS_KHR", 2u32),
            ("MATRIX_C_SIGNED_COMPONENTS_KHR", 4u32),
            ("MATRIX_RESULT_SIGNED_COMPONENTS_KHR", 8u32),
            ("SATURATING_ACCUMULATION_KHR", 16u32),
        ],
        _ => Vec::new(),
    };
    assert(r.deep_view() =~= bitflag_table_spec(kind));
    r
}

/// The bits of the first flag of `values` that is called `item`.
pub open spec fn flag_value(values: Seq<(Seq<char>, u32)>, item: Seq<char>) -> Option<u32>
    decreases values.len(),
{
    if values.len() == 0 {
        None
    } else if values[0].0 == item {
        Some(values[0].1)
    } else {
        flag_value(values.drop_first(), item)
    }
}

/// The bits of all of `items` together, or `None` if one of them is no
/// flag of `values`.
pub open spec fn flags_of(values: Seq<(Seq<char>, u32)>, items: Seq<Seq<char>>) -> Option<u32>
    decreases items.len(),
{
    if items.len() == 0 {
        Some(0u32)
    } else {
        match (flags_of(values, items.drop_last()), flag_value(values, items.last())) {
            (Some(a), Some(v)) => Some(a | v),
            _ => None,
        }
    }
}

/// The mask that `word` writes: the names of flags with `|` between them.
pub open spec fn bitflags_value(values: Seq<(Seq<char>, u32)>, word: Seq<char>) -> Option<u32> {
    flags_of(values, split_on(word, '|'))
}

/// The bits of the first flag of `values` that is called `item`.
pub fn find_flag(values: &Vec<(&'static str, u32)>, item: &str) -> (r: Option<u32>)
    ensures
        r == flag_value(values.deep_view(), item@),
{
    let ghost all = values.deep_view();
    let mut i: usize = 0;
    assert(all.subrange(0, all.len() as int) =~= all);
    while i < values.len()
        invariant
            i <= values.len(),
            all == values.deep_view(),
            flag_value(all, item@) == flag_value(all.subrange(i as int, all.len() as int), item@),
        decreases values.len() - i,
    {
        let ghost rest = all.subrange(i as int, all.len() as int);
        assert(rest[0] == (values@[i as int].0@, values@[i as int].1));
        if str_eq(values[i].0, item) {
            return Some(values[i].1);
        }
        assert(rest.drop_first() =~= all.subrange(i + 1, all.len() as int));
        i += 1;
    }
    None
}

/// Reads a mask of flags: `word` is split at every `|`, and each item
/// must be the name of a flag of `values`. The result has the bits of all
/// the flags named; one unknown name makes it `None`.
pub fn parse_bitflags_operand(values: &Vec<(&'static str, u32)>, word: &str) -> (r: Option<u32>)
    ensures
        r == bitflags_value(values.deep_view(), word@),
{
    let items = split(word, '|');
    let ghost all = items.deep_view();
    let mut result: u32 = 0;
    let mut i: usize = 0;
    assert(all.subrange(0, 0) =~= Seq::<Seq<char>>::empty());
    while i < items.len()
        invariant
            i <= items.len(),
            all == items.deep_view(),
            all == split_on(word@, '|'),
            flags_of(values.deep_view(), all.subrange(0, i as int)) == Some(result),
        decreases items.len() - i,
    {
        let ghost upto = all.subrange(0, i + 1);
        assert(upto.drop_last() =~= all.subrange(0, i as int));
        assert(upto.last() == items@[i as int]@);
        match find_flag(values, items[i].as_str()) {
            Some(value) => {
                result = result | value;
            },
            None => {
                proof {
                    assert(all[i as int] == items@[i as int]@);
                    lemma_flags_unknown(values.deep_view(), all, i as int);
                }
                return None;
            },
        }
        i += 1;
    }
    assert(all.subrange(0, items.len() as int) =~= all);
    Some(result)
}

/// One item that is no flag makes the whole mask unreadable.
pub proof fn lemma_flags_unknown(values: Seq<(Seq<char>, u32)>, items: Seq<Seq<char>>, i: int)
    requires
        0 <= i < items.len(),
        flag_value(values, items[i]).is_none(),
    ensures
        flags_of(values, items).is_none(),
    decreases items.len(),
{
    if i < items.len() - 1 {
        lemma_flags_unknown(values, items.drop_last(), i);
    }
}

/// The operands that an operand of the kind `kind` with the value `value`
/// brings after it, by the names of their kinds and quantifiers.
pub uninterp spec fn additional_operands(kind: OperandKind, value: u32) -> Seq<
    (Seq<char>, Seq<char>),
>;

/// `rspirv::dr::Operand::additional_operands`, asked of a mask of `ImageOperands` flags.
/// The contract names the result: the kinds and quantifiers as their `Debug`
/// impls print them.
#[verifier::external_body]
fn image_operands_additional(value: u32) -> (r: Vec<RawOperand>)
    ensures
        r.deep_view() == additional_operands(OperandKind::ImageOperands, value),
{
    let operand = rspirv::dr::Operand::ImageOperands(rspirv::spirv::ImageOperands::from_bits_retain(value));
    operand.additional_operands().iter().map(
        |o| (format!("{:?}", o.kind), format!("{:?}", o.quantifier)),
    ).collect()
}

/// `rspirv::dr::Operand::additional_operands`, asked of a mask of `LoopControl` flags.
/// The contract names the result: the kinds and quantifiers as their `Debug`
/// impls print them.
#[verifier::external_body]
fn loop_control_additional(value: u32) -> (r: Vec<RawOperand>)
    ensures
        r.deep_view() == additional_operands(OperandKind::LoopControl, value),
{
    let operand = rspirv::dr::Operand::LoopControl(rspirv::spirv::LoopControl::from_bits_retain(value));
    operand.additional_operands().iter().map(
        |o| (format!("{:?}", o.kind), format!("{:?}", o.quantifier)),
    ).collect()
}

/// `rspirv::dr::Operand::additional_operands`, asked of a mask of `MemoryAccess` flags.
/// The contract names the result: the kinds and quantifiers as their `Debug`
/// impls print them.
#[verifier::external_body]
fn memory_access_additional(value: u32) -> (r: Vec<RawOperand>)
    ensures
        r.deep_view() == additional_operands(OperandKind::MemoryAccess, value),
{
    let operand = rspirv::dr::Operand::MemoryAccess(rspirv::spirv::MemoryAccess::from_bits_retain(value));
    operand.additional_operands().iter().map(
        |o| (format!("{:?}", o.kind), format!("{:?}", o.quantifier)),
    ).collect()
}

/// `rspirv::dr::Operand::additional_operands`, asked of a value of `ExecutionMode`.
/// The contract names the result: the kinds and quantifiers as their `Debug`
/// impls print them.
#[verifier::external_body]
fn execution_mode_additional(value: u32) -> (r: Vec<RawOperand>)
    ensures
        r.deep_view() == additional_operands(OperandKind::ExecutionMode, value),
{
    match rspirv::spirv::ExecutionMode::from_u32(value) {
        Some(v) => rspirv::dr::Operand::ExecutionMode(v).additional_operands().iter().map(
            |o| (format!("{:?}", o.kind), format!("{:?}", o.quantifier)),
        ).collect(),
        None => Vec::new(),
    }
}

/// `rspirv::dr::Operand::additional_operands`, asked of a value of `Decoration`.
/// The contract names the result: the kinds and quantifiers as their `Debug`
/// impls print them.
#[verifier::external_body]
fn decoration_additional(value: u32) -> (r: Vec<RawOperand>)
    ensures
        r.deep_view() == additional_operands(OperandKind::Decoration, value),
{
    match rspirv::spirv::Decoration::from_u32(value) {
        Some(v) => rspirv::dr::Operand::Decoration(v).additional_operands().iter().map(
            |o| (format!("{:?}", o.kind), format!("{:?}", o.quantifier)),
        ).collect(),
        None => Vec::new(),
    }
}

/// Whether an operand of the kind can bring further operands after it.
pub open spec fn has_additional(kind: OperandKind) -> bool {
    kind == OperandKind::ImageOperands || kind == OperandKind::LoopControl || kind
        == OperandKind::MemoryAccess || kind == OperandKind::ExecutionMode || kind
        == OperandKind::Decoration
}

/// The operands that an operand of the kind `kind` with the value `value`
/// brings after it; none where a name among them is unknown.
pub open spec fn additional_spec(kind: OperandKind, value: u32) -> Seq<LogicalOperand> {
    if has_additional(kind) && decodable(additional_operands(kind, value)) {
        decode_operands(additional_operands(kind, value))
    } else {
        Seq::empty()
    }
}

/// The operands that an operand of the kind `kind` with the value `value`
/// brings after it.
pub fn additional_operands_of(kind: OperandKind, value: u32) -> (r: Vec<LogicalOperand>)
    ensures
        r@ == additional_spec(kind, value),
{
    let raw = match kind {
        OperandKind::ImageOperands => image_operands_additional(value),
        OperandKind::LoopControl => loop_control_additional(value),
        OperandKind::MemoryAccess => memory_access_additional(value),
        OperandKind::ExecutionMode => execution_mode_additional(value),
        OperandKind::Decoration => decoration_additional(value),
        _ => {
            return Vec::new();
        },
    };
    match decode_raw_operands(&raw) {
        Some(v) => v,
        None => Vec::new(),
    }
}

} // verus!
