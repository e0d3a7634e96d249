//! Each kind of enumerant is read by name through the grammar source.

use rustc_codegen_spirv::enumerants::parse_enumerant;
use rustc_codegen_spirv::grammar::OperandKind;

#[test]
fn source_language_is_read_by_name() {
    assert_eq!(parse_enumerant(OperandKind::SourceLanguage, "ESSL"), Some(1));
    assert_eq!(parse_enumerant(OperandKind::SourceLanguage, "NoSuchSourceLanguage"), None);
}

#[test]
fn execution_model_is_read_by_name() {
    assert_eq!(parse_enumerant(OperandKind::ExecutionModel, "TessellationControl"), Some(1));
    assert_eq!(parse_enumerant(OperandKind::ExecutionModel, "NoSuchExecutionModel"), None);
}

#[test]
fn addressing_model_is_read_by_name() {
    assert_eq!(parse_enumerant(OperandKind::AddressingModel, "Physical32"), Some(1));
    assert_eq!(parse_enumerant(OperandKind::AddressingModel, "NoSuchAddressingModel"), None);
}

#[test]
fn memory_model_is_read_by_name() {
    assert_eq!(parse_enumerant(OperandKind::MemoryModel, "GLSL450"), Some(1));
    assert_eq!(parse_enumerant(OperandKind::MemoryModel, "NoSuchMemoryModel"), None);
}

#[test]
fn execution_mode_is_read_by_name() {
    assert_eq!(parse_enumerant(OperandKind::ExecutionMode, "SpacingEqual"), Some(1));
    assert_eq!(parse_enumerant(OperandKind::ExecutionMode, "NoSuchExecutionMode"), None);
}

#[test]
fn storage_class_is_read_by_name() {
    assert_eq!(parse_enumerant(OperandKind::StorageClass, "Input"), Some(1));
    assert_eq!(parse_enumerant(OperandKind::StorageClass, "NoSuchStorageClass"), None);
}

#[test]
fn dim_is_read_by_name() {
    assert_eq!(parse_enumerant(OperandKind::Dim, "Dim2D"), Some(1));
    assert_eq!(parse_enumerant(OperandKind::Dim, "NoSuchDim"), None);
}

#[test]
fn sampler_addressing_mode_is_read_by_name() {
    assert_eq!(parse_enumerant(OperandKind::SamplerAddressingMode, "ClampToEdge"), Some(1));
    assert_eq!(parse_enumerant(OperandKind::SamplerAddressingMode, "NoSuchSamplerAddressingMode"), None);
}

#[test]
fn sampler_filter_mode_is_read_by_name() {
    assert_eq!(parse_enumerant(OperandKind::SamplerFilterMode, "Linear"), Some(1));
    assert_eq!(parse_enumerant(OperandKind::SamplerFilterMode, "NoSuchSamplerFilterMode"), None);
}

#[test]
fn image_format_is_read_by_name() {
    assert_eq!(parse_enumerant(OperandKind::ImageFormat, "Rgba32f"), Some(1));
    assert_eq!(parse_enumerant(OperandKind::ImageFormat, "NoSuchImageFormat"), None);
}

#[test]
fn image_channel_order_is_read_by_name() {
    assert_eq!(parse_enumerant(OperandKind::ImageChannelOrder, "A"), Some(1));
    assert_eq!(parse_enumerant(OperandKind::ImageChannelOrder, "NoSuchImageChannelOrder"), None);
}

#[test]
fn image_channel_data_type_is_read_by_name() {
    assert_eq!(parse_enumerant(OperandKind::ImageChannelDataType, "SnormInt16"), Some(1));
    assert_eq!(parse_enumerant(OperandKind::ImageChannelDataType, "NoSuchImageChannelDataType"), None);
}

#[test]
fn fp_rounding_mode_is_read_by_name() {
    assert_eq!(parse_enumerant(OperandKind::FPRoundingMode, "RTZ"), Some(1));
    assert_eq!(parse_enumerant(OperandKind::FPRoundingMode, "NoSuchFPRoundingMode"), None);
}

#[test]
fn linkage_type_is_read_by_name() {
    assert_eq!(parse_enumerant(OperandKind::LinkageType, "Import"), Some(1));
    assert_eq!(parse_enumerant(OperandKind::LinkageType, "NoSuchLinkageType"), None);
}

#[test]
fn access_qualifier_is_read_by_name() {
    assert_eq!(parse_enumerant(OperandKind::AccessQualifier, "WriteOnly"), Some(1));
    assert_eq!(parse_enumerant(OperandKind::AccessQualifier, "NoSuchAccessQualifier"), None);
}

#[test]
fn function_parameter_attribute_is_read_by_name() {
    assert_eq!(parse_enumerant(OperandKind::FunctionParameterAttribute, "Sext"), Some(1));
    assert_eq!(parse_enumerant(OperandKind::FunctionParameterAttribute, "NoSuchFunctionParameterAttribute"), None);
}

#[test]
fn decoration_is_read_by_name() {
    assert_eq!(parse_enumerant(OperandKind::Decoration, "SpecId"), Some(1));
    assert_eq!(parse_enumerant(OperandKind::Decoration, "NoSuchDecoration"), None);
}

#[test]
fn built_in_is_read_by_name() {
    assert_eq!(parse_enumerant(OperandKind::BuiltIn, "PointSize"), Some(1));
    assert_eq!(parse_enumerant(OperandKind::BuiltIn, "NoSuchBuiltIn"), None);
}

#[test]
fn scope_is_read_by_name() {
    assert_eq!(parse_enumerant(OperandKind::Scope, "Device"), Some(1));
    assert_eq!(parse_enumerant(OperandKind::Scope, "NoSuchScope"), None);
}

#[test]
fn group_operation_is_read_by_name() {
    assert_eq!(parse_enumerant(OperandKind::GroupOperation, "InclusiveScan"), Some(1));
    assert_eq!(parse_enumerant(OperandKind::GroupOperation, "NoSuchGroupOperation"), None);
}

#[test]
fn kernel_enqueue_flags_is_read_by_name() {
    assert_eq!(parse_enumerant(OperandKind::KernelEnqueueFlags, "WaitKernel"), Some(1));
    assert_eq!(parse_enumerant(OperandKind::KernelEnqueueFlags, "NoSuchKernelEnqueueFlags"), None);
}

#[test]
fn capability_is_read_by_name() {
    assert_eq!(parse_enumerant(OperandKind::Capability, "Shader"), Some(1));
    assert_eq!(parse_enumerant(OperandKind::Capability, "NoSuchCapability"), None);
}

#[test]
fn ray_query_intersection_is_read_by_name() {
    assert_eq!(parse_enumerant(OperandKind::RayQueryIntersection, "RayQueryCommittedIntersectionKHR"), Some(1));
    assert_eq!(parse_enumerant(OperandKind::RayQueryIntersection, "NoSuchRayQueryIntersection"), None);
}

#[test]
fn ray_query_committed_intersection_type_is_read_by_name() {
    assert_eq!(parse_enumerant(OperandKind::RayQueryCommittedIntersectionType, "RayQueryCommittedIntersectionTriangleKHR"), Some(1));
    assert_eq!(parse_enumerant(OperandKind::RayQueryCommittedIntersectionType, "NoSuchRayQueryCommittedIntersectionType"), None);
}

#[test]
fn ray_query_candidate_intersection_type_is_read_by_name() {
    assert_eq!(parse_enumerant(OperandKind::RayQueryCandidateIntersectionType, "RayQueryCandidateIntersectionAABBKHR"), Some(1));
    assert_eq!(parse_enumerant(OperandKind::RayQueryCandidateIntersectionType, "NoSuchRayQueryCandidateIntersectionType"), None);
}

#[test]
fn fp_denorm_mode_is_read_by_name() {
    assert_eq!(parse_enumerant(OperandKind::FPDenormMode, "FlushToZero"), Some(1));
    assert_eq!(parse_enumerant(OperandKind::FPDenormMode, "NoSuchFPDenormMode"), None);
}

#[test]
fn quantization_modes_is_read_by_name() {
    assert_eq!(parse_enumerant(OperandKind::QuantizationModes, "TRN_ZERO"), Some(1));
    assert_eq!(parse_enumerant(OperandKind::QuantizationModes, "NoSuchQuantizationModes"), None);
}

#[test]
fn fp_operation_mode_is_read_by_name() {
    assert_eq!(parse_enumerant(OperandKind::FPOperationMode, "ALT"), Some(1));
    assert_eq!(parse_enumerant(OperandKind::FPOperationMode, "NoSuchFPOperationMode"), None);
}

#[test]
fn overflow_modes_is_read_by_name() {
    assert_eq!(parse_enumerant(OperandKind::OverflowModes, "SAT"), Some(1));
    assert_eq!(parse_enumerant(OperandKind::OverflowModes, "NoSuchOverflowModes"), None);
}

#[test]
fn packed_vector_format_is_read_by_name() {
    assert_eq!(parse_enumerant(OperandKind::PackedVectorFormat, "PackedVectorFormat4x8Bit"), Some(0));
    assert_eq!(parse_enumerant(OperandKind::PackedVectorFormat, "NoSuchPackedVectorFormat"), None);
}

#[test]
fn host_access_qualifier_is_read_by_name() {
    assert_eq!(parse_enumerant(OperandKind::HostAccessQualifier, "ReadINTEL"), Some(1));
    assert_eq!(parse_enumerant(OperandKind::HostAccessQualifier, "NoSuchHostAccessQualifier"), None);
}

#[test]
fn cooperative_matrix_layout_is_read_by_name() {
    assert_eq!(parse_enumerant(OperandKind::CooperativeMatrixLayout, "ColumnMajorKHR"), Some(1));
    assert_eq!(parse_enumerant(OperandKind::CooperativeMatrixLayout, "NoSuchCooperativeMatrixLayout"), None);
}

#[test]
fn cooperative_matrix_use_is_read_by_name() {
    assert_eq!(parse_enumerant(OperandKind::CooperativeMatrixUse, "MatrixBKHR"), Some(1));
    assert_eq!(parse_enumerant(OperandKind::CooperativeMatrixUse, "NoSuchCooperativeMatrixUse"), None);
}

#[test]
fn initialization_mode_qualifier_is_read_by_name() {
    assert_eq!(parse_enumerant(OperandKind::InitializationModeQualifier, "InitOnDeviceResetINTEL"), Some(1));
    assert_eq!(parse_enumerant(OperandKind::InitializationModeQualifier, "NoSuchInitializationModeQualifier"), None);
}

#[test]
fn load_cache_control_is_read_by_name() {
    assert_eq!(parse_enumerant(OperandKind::LoadCacheControl, "CachedINTEL"), Some(1));
    assert_eq!(parse_enumerant(OperandKind::LoadCacheControl, "NoSuchLoadCacheControl"), None);
}

#[test]
fn store_cache_control_is_read_by_name() {
    assert_eq!(parse_enumerant(OperandKind::StoreCacheControl, "WriteThroughINTEL"), Some(1));
    assert_eq!(parse_enumerant(OperandKind::StoreCacheControl, "NoSuchStoreCacheControl"), None);
}

