//! Compilers: the builder layer that stages typed option values before a
//! compilation is invoked.
//!
//! The native option-setting protocol is untyped: every option is named by a
//! numeric code whose high bits tag the target family it belongs to (common,
//! GLSL, HLSL or MSL), and its value travels through one of two setters, one
//! for unsigned integers and one for booleans. A builder here accumulates
//! `OptionSetting`s in order; the driving layer that owns the native handles
//! installs them one by one and then invokes the compilation.

use vstd::prelude::*;

use crate::error::Error;
use crate::parsed_ir::ParsedIr;
use crate::parsed_ir::spvc_capture_mode;

pub mod glsl;
pub mod hlsl;
pub mod msl;

pub use glsl::GlslCompiler;
pub use hlsl::HlslCompiler;
pub use msl::MslCompiler;

verus! {

/// Tag bit marking an option code as a common option, valid for every
/// backend.
pub const SPVC_COMPILER_OPTION_COMMON_BIT: u32 = 0x0100_0000;

/// Tag bit marking an option code as a GLSL option.
pub const SPVC_COMPILER_OPTION_GLSL_BIT: u32 = 0x0200_0000;

/// Tag bit marking an option code as an HLSL option.
pub const SPVC_COMPILER_OPTION_HLSL_BIT: u32 = 0x0400_0000;

/// Tag bit marking an option code as an MSL option.
pub const SPVC_COMPILER_OPTION_MSL_BIT: u32 = 0x0800_0000;

/// The backends a compiler can generate source text for.
#[allow(non_camel_case_types)]
#[derive(Clone, Copy, Debug, PartialEq, Eq, Structural)]
pub enum spvc_backend {
    SPVC_BACKEND_NONE,
    SPVC_BACKEND_GLSL,
    SPVC_BACKEND_HLSL,
    SPVC_BACKEND_MSL,
    SPVC_BACKEND_CPP,
    SPVC_BACKEND_JSON,
}

impl spvc_backend {
    /// The numeric code that names the backend to the native compiler
    /// creation, as the native C surface publishes it.
    pub open spec fn spec_value(self) -> u32 {
        match self {
            spvc_backend::SPVC_BACKEND_NONE => 0,
            spvc_backend::SPVC_BACKEND_GLSL => 1,
            spvc_backend::SPVC_BACKEND_HLSL => 2,
            spvc_backend::SPVC_BACKEND_MSL => 3,
            spvc_backend::SPVC_BACKEND_CPP => 4,
            spvc_backend::SPVC_BACKEND_JSON => 5,
        }
    }

    /// The numeric code of the backend.
    #[verifier::when_used_as_spec(spec_value)]
    pub fn value(self) -> (r: u32)
        ensures
            r == self.spec_value(),
    {
        match self {
            spvc_backend::SPVC_BACKEND_NONE => 0,
            spvc_backend::SPVC_BACKEND_GLSL => 1,
            spvc_backend::SPVC_BACKEND_HLSL => 2,
            spvc_backend::SPVC_BACKEND_MSL => 3,
            spvc_backend::SPVC_BACKEND_CPP => 4,
            spvc_backend::SPVC_BACKEND_JSON => 5,
        }
    }
}

/// The options of the native option-setting protocol that this interface
/// stages.
///
/// Each option is identified to the native layer by the numeric code the
/// native C surface publishes for it: an ordinal in the low bits, and the tag
/// bit of the target family it belongs to in the high bits. The native
/// enumeration holds further options that no setter here reaches; their codes
/// share the same tagging scheme.
#[allow(non_camel_case_types)]
#[derive(Clone, Copy, Debug, PartialEq, Eq, Structural)]
pub enum spvc_compiler_option {
    SPVC_COMPILER_OPTION_FORCE_TEMPORARY,
    SPVC_COMPILER_OPTION_FLATTEN_MULTIDIMENSIONAL_ARRAYS,
    SPVC_COMPILER_OPTION_FIXUP_DEPTH_CONVENTION,
    SPVC_COMPILER_OPTION_FLIP_VERTEX_Y,
    SPVC_COMPILER_OPTION_EMIT_LINE_DIRECTIVES,
    SPVC_COMPILER_OPTION_ENABLE_STORAGE_IMAGE_QUALIFIER_DEDUCTION,
    SPVC_COMPILER_OPTION_FORCE_ZERO_INITIALIZED_VARIABLES,
    SPVC_COMPILER_OPTION_GLSL_VERSION,
    SPVC_COMPILER_OPTION_GLSL_ES,
    SPVC_COMPILER_OPTION_GLSL_ES_DEFAULT_FLOAT_PRECISION_HIGHP,
    SPVC_COMPILER_OPTION_GLSL_ES_DEFAULT_INT_PRECISION_HIGHP,
    SPVC_COMPILER_OPTION_GLSL_VULKAN_SEMANTICS,
    SPVC_COMPILER_OPTION_GLSL_SUPPORT_NONZERO_BASE_INSTANCE,
    SPVC_COMPILER_OPTION_GLSL_ENABLE_420PACK_EXTENSION,
    SPVC_COMPILER_OPTION_GLSL_EMIT_PUSH_CONSTANT_AS_UNIFORM_BUFFER,
    SPVC_COMPILER_OPTION_GLSL_EMIT_UNIFORM_BUFFER_AS_PLAIN_UNIFORMS,
    SPVC_COMPILER_OPTION_GLSL_FORCE_FLATTENED_IO_BLOCKS,
    SPVC_COMPILER_OPTION_GLSL_OVR_MULTIVIEW_VIEW_COUNT,
    SPVC_COMPILER_OPTION_GLSL_ENABLE_ROW_MAJOR_LOAD_WORKAROUND,
    SPVC_COMPILER_OPTION_HLSL_SHADER_MODEL,
    SPVC_COMPILER_OPTION_HLSL_POINT_SIZE_COMPAT,
    SPVC_COMPILER_OPTION_HLSL_POINT_COORD_COMPAT,
    SPVC_COMPILER_OPTION_HLSL_SUPPORT_NONZERO_BASE_VERTEX_BASE_INSTANCE,
    SPVC_COMPILER_OPTION_HLSL_FORCE_STORAGE_BUFFER_AS_UAV,
    SPVC_COMPILER_OPTION_HLSL_NONWRITABLE_UAV_TEXTURE_AS_SRV,
    SPVC_COMPILER_OPTION_HLSL_ENABLE_16BIT_TYPES,
    SPVC_COMPILER_OPTION_HLSL_FLATTEN_MATRIX_VERTEX_INPUT_SEMANTICS,
    SPVC_COMPILER_OPTION_MSL_VERSION,
    SPVC_COMPILER_OPTION_MSL_TEXEL_BUFFER_TEXTURE_WIDTH,
    SPVC_COMPILER_OPTION_MSL_AUX_BUFFER_INDEX,
    SPVC_COMPILER_OPTION_MSL_INDIRECT_PARAMS_BUFFER_INDEX,
    SPVC_COMPILER_OPTION_MSL_SHADER_OUTPUT_BUFFER_INDEX,
    SPVC_COMPILER_OPTION_MSL_SHADER_PATCH_OUTPUT_BUFFER_INDEX,
    SPVC_COMPILER_OPTION_MSL_SHADER_TESS_FACTOR_OUTPUT_BUFFER_INDEX,
    SPVC_COMPILER_OPTION_MSL_SHADER_INPUT_WORKGROUP_INDEX,
    SPVC_COMPILER_OPTION_MSL_ENABLE_POINT_SIZE_BUILTIN,
    SPVC_COMPILER_OPTION_MSL_DISABLE_RASTERIZATION,
    SPVC_COMPILER_OPTION_MSL_CAPTURE_OUTPUT_TO_BUFFER,
    SPVC_COMPILER_OPTION_MSL_SWIZZLE_TEXTURE_SAMPLES,
    SPVC_COMPILER_OPTION_MSL_PAD_FRAGMENT_OUTPUT_COMPONENTS,
    SPVC_COMPILER_OPTION_MSL_TESS_DOMAIN_ORIGIN_LOWER_LEFT,
    SPVC_COMPILER_OPTION_MSL_PLATFORM,
    SPVC_COMPILER_OPTION_MSL_ARGUMENT_BUFFERS,
    SPVC_COMPILER_OPTION_MSL_TEXTURE_BUFFER_NATIVE,
}

impl spvc_compiler_option {
    /// The ordinal in the low bits of the option's code, as the native C
    /// surface publishes it. Ordinals are assigned append-only across the
    /// native library's releases, which is why the ordinals of one family do
    /// not form one contiguous block.
    pub open spec fn ordinal_spec(self) -> u32 {
        match self {
            spvc_compiler_option::SPVC_COMPILER_OPTION_FORCE_TEMPORARY => 1,
            spvc_compiler_option::SPVC_COMPILER_OPTION_FLATTEN_MULTIDIMENSIONAL_ARRAYS => 2,
            spvc_compiler_option::SPVC_COMPILER_OPTION_FIXUP_DEPTH_CONVENTION => 3,
            spvc_compiler_option::SPVC_COMPILER_OPTION_FLIP_VERTEX_Y => 4,
            spvc_compiler_option::SPVC_COMPILER_OPTION_EMIT_LINE_DIRECTIVES => 36,
            spvc_compiler_option::SPVC_COMPILER_OPTION_ENABLE_STORAGE_IMAGE_QUALIFIER_DEDUCTION => 51,
            spvc_compiler_option::SPVC_COMPILER_OPTION_FORCE_ZERO_INITIALIZED_VARIABLES => 53,
            spvc_compiler_option::SPVC_COMPILER_OPTION_GLSL_VERSION => 8,
            spvc_compiler_option::SPVC_COMPILER_OPTION_GLSL_ES => 9,
            spvc_compiler_option::SPVC_COMPILER_OPTION_GLSL_ES_DEFAULT_FLOAT_PRECISION_HIGHP => 11,
            spvc_compiler_option::SPVC_COMPILER_OPTION_GLSL_ES_DEFAULT_INT_PRECISION_HIGHP => 12,
            spvc_compiler_option::SPVC_COMPILER_OPTION_GLSL_VULKAN_SEMANTICS => 10,
            spvc_compiler_option::SPVC_COMPILER_OPTION_GLSL_SUPPORT_NONZERO_BASE_INSTANCE => 5,
            spvc_compiler_option::SPVC_COMPILER_OPTION_GLSL_ENABLE_420PACK_EXTENSION => 7,
            spvc_compiler_option::SPVC_COMPILER_OPTION_GLSL_EMIT_PUSH_CONSTANT_AS_UNIFORM_BUFFER => 33,
            spvc_compiler_option::SPVC_COMPILER_OPTION_GLSL_EMIT_UNIFORM_BUFFER_AS_PLAIN_UNIFORMS => 58,
            spvc_compiler_option::SPVC_COMPILER_OPTION_GLSL_FORCE_FLATTENED_IO_BLOCKS => 66,
            spvc_compiler_option::SPVC_COMPILER_OPTION_GLSL_OVR_MULTIVIEW_VIEW_COUNT => 77,
            spvc_compiler_option::SPVC_COMPILER_OPTION_GLSL_ENABLE_ROW_MAJOR_LOAD_WORKAROUND => 83,
            spvc_compiler_option::SPVC_COMPILER_OPTION_HLSL_SHADER_MODEL => 13,
            spvc_compiler_option::SPVC_COMPILER_OPTION_HLSL_POINT_SIZE_COMPAT => 14,
            spvc_compiler_option::SPVC_COMPILER_OPTION_HLSL_POINT_COORD_COMPAT => 15,
            spvc_compiler_option::SPVC_COMPILER_OPTION_HLSL_SUPPORT_NONZERO_BASE_VERTEX_BASE_INSTANCE => 16,
            spvc_compiler_option::SPVC_COMPILER_OPTION_HLSL_FORCE_STORAGE_BUFFER_AS_UAV => 52,
            spvc_compiler_option::SPVC_COMPILER_OPTION_HLSL_NONWRITABLE_UAV_TEXTURE_AS_SRV => 54,
            spvc_compiler_option::SPVC_COMPILER_OPTION_HLSL_ENABLE_16BIT_TYPES => 60,
            spvc_compiler_option::SPVC_COMPILER_OPTION_HLSL_FLATTEN_MATRIX_VERTEX_INPUT_SEMANTICS => 71,
            spvc_compiler_option::SPVC_COMPILER_OPTION_MSL_VERSION => 17,
            spvc_compiler_option::SPVC_COMPILER_OPTION_MSL_TEXEL_BUFFER_TEXTURE_WIDTH => 18,
            spvc_compiler_option::SPVC_COMPILER_OPTION_MSL_AUX_BUFFER_INDEX => 19,
            spvc_compiler_option::SPVC_COMPILER_OPTION_MSL_INDIRECT_PARAMS_BUFFER_INDEX => 20,
            spvc_compiler_option::SPVC_COMPILER_OPTION_MSL_SHADER_OUTPUT_BUFFER_INDEX => 21,
            spvc_compiler_option::SPVC_COMPILER_OPTION_MSL_SHADER_PATCH_OUTPUT_BUFFER_INDEX => 22,
            spvc_compiler_option::SPVC_COMPILER_OPTION_MSL_SHADER_TESS_FACTOR_OUTPUT_BUFFER_INDEX => 23,
            spvc_compiler_option::SPVC_COMPILER_OPTION_MSL_SHADER_INPUT_WORKGROUP_INDEX => 24,
            spvc_compiler_option::SPVC_COMPILER_OPTION_MSL_ENABLE_POINT_SIZE_BUILTIN => 25,
            spvc_compiler_option::SPVC_COMPILER_OPTION_MSL_DISABLE_RASTERIZATION => 26,
            spvc_compiler_option::SPVC_COMPILER_OPTION_MSL_CAPTURE_OUTPUT_TO_BUFFER => 27,
            spvc_compiler_option::SPVC_COMPILER_OPTION_MSL_SWIZZLE_TEXTURE_SAMPLES => 28,
            spvc_compiler_option::SPVC_COMPILER_OPTION_MSL_PAD_FRAGMENT_OUTPUT_COMPONENTS => 29,
            spvc_compiler_option::SPVC_COMPILER_OPTION_MSL_TESS_DOMAIN_ORIGIN_LOWER_LEFT => 30,
            spvc_compiler_option::SPVC_COMPILER_OPTION_MSL_PLATFORM => 31,
            spvc_compiler_option::SPVC_COMPILER_OPTION_MSL_ARGUMENT_BUFFERS => 32,
            spvc_compiler_option::SPVC_COMPILER_OPTION_MSL_TEXTURE_BUFFER_NATIVE => 34,
        }
    }

    /// The tag bit of the target family the option belongs to.
    pub open spec fn tag_bit_spec(self) -> u32 {
        match self {
            spvc_compiler_option::SPVC_COMPILER_OPTION_FORCE_TEMPORARY => SPVC_COMPILER_OPTION_COMMON_BIT,
            spvc_compiler_option::SPVC_COMPILER_OPTION_FLATTEN_MULTIDIMENSIONAL_ARRAYS => SPVC_COMPILER_OPTION_COMMON_BIT,
            spvc_compiler_option::SPVC_COMPILER_OPTION_FIXUP_DEPTH_CONVENTION => SPVC_COMPILER_OPTION_COMMON_BIT,
            spvc_compiler_option::SPVC_COMPILER_OPTION_FLIP_VERTEX_Y => SPVC_COMPILER_OPTION_COMMON_BIT,
            spvc_compiler_option::SPVC_COMPILER_OPTION_EMIT_LINE_DIRECTIVES => SPVC_COMPILER_OPTION_COMMON_BIT,
            spvc_compiler_option::SPVC_COMPILER_OPTION_ENABLE_STORAGE_IMAGE_QUALIFIER_DEDUCTION => SPVC_COMPILER_OPTION_COMMON_BIT,
            spvc_compiler_option::SPVC_COMPILER_OPTION_FORCE_ZERO_INITIALIZED_VARIABLES => SPVC_COMPILER_OPTION_COMMON_BIT,
            spvc_compiler_option::SPVC_COMPILER_OPTION_GLSL_VERSION => SPVC_COMPILER_OPTION_GLSL_BIT,
            spvc_compiler_option::SPVC_COMPILER_OPTION_GLSL_ES => SPVC_COMPILER_OPTION_GLSL_BIT,
            spvc_compiler_option::SPVC_COMPILER_OPTION_GLSL_ES_DEFAULT_FLOAT_PRECISION_HIGHP => SPVC_COMPILER_OPTION_GLSL_BIT,
            spvc_compiler_option::SPVC_COMPILER_OPTION_GLSL_ES_DEFAULT_INT_PRECISION_HIGHP => SPVC_COMPILER_OPTION_GLSL_BIT,
            spvc_compiler_option::SPVC_COMPILER_OPTION_GLSL_VULKAN_SEMANTICS => SPVC_COMPILER_OPTION_GLSL_BIT,
            spvc_compiler_option::SPVC_COMPILER_OPTION_GLSL_SUPPORT_NONZERO_BASE_INSTANCE => SPVC_COMPILER_OPTION_GLSL_BIT,
            spvc_compiler_option::SPVC_COMPILER_OPTION_GLSL_ENABLE_420PACK_EXTENSION => SPVC_COMPILER_OPTION_GLSL_BIT,
            spvc_compiler_option::SPVC_COMPILER_OPTION_GLSL_EMIT_PUSH_CONSTANT_AS_UNIFORM_BUFFER => SPVC_COMPILER_OPTION_GLSL_BIT,
            spvc_compiler_option::SPVC_COMPILER_OPTION_GLSL_EMIT_UNIFORM_BUFFER_AS_PLAIN_UNIFORMS => SPVC_COMPILER_OPTION_GLSL_BIT,
            spvc_compiler_option::SPVC_COMPILER_OPTION_GLSL_FORCE_FLATTENED_IO_BLOCKS => SPVC_COMPILER_OPTION_GLSL_BIT,
            spvc_compiler_option::SPVC_COMPILER_OPTION_GLSL_OVR_MULTIVIEW_VIEW_COUNT => SPVC_COMPILER_OPTION_GLSL_BIT,
            spvc_compiler_option::SPVC_COMPILER_OPTION_GLSL_ENABLE_ROW_MAJOR_LOAD_WORKAROUND => SPVC_COMPILER_OPTION_GLSL_BIT,
            spvc_compiler_option::SPVC_COMPILER_OPTION_HLSL_SHADER_MODEL => SPVC_COMPILER_OPTION_HLSL_BIT,
            spvc_compiler_option::SPVC_COMPILER_OPTION_HLSL_POINT_SIZE_COMPAT => SPVC_COMPILER_OPTION_HLSL_BIT,
            spvc_compiler_option::SPVC_COMPILER_OPTION_HLSL_POINT_COORD_COMPAT => SPVC_COMPILER_OPTION_HLSL_BIT,
            spvc_compiler_option::SPVC_COMPILER_OPTION_HLSL_SUPPORT_NONZERO_BASE_VERTEX_BASE_INSTANCE => SPVC_COMPILER_OPTION_HLSL_BIT,
            spvc_compiler_option::SPVC_COMPILER_OPTION_HLSL_FORCE_STORAGE_BUFFER_AS_UAV => SPVC_COMPILER_OPTION_HLSL_BIT,
            spvc_compiler_option::SPVC_COMPILER_OPTION_HLSL_NONWRITABLE_UAV_TEXTURE_AS_SRV => SPVC_COMPILER_OPTION_HLSL_BIT,
            spvc_compiler_option::SPVC_COMPILER_OPTION_HLSL_ENABLE_16BIT_TYPES => SPVC_COMPILER_OPTION_HLSL_BIT,
            spvc_compiler_option::SPVC_COMPILER_OPTION_HLSL_FLATTEN_MATRIX_VERTEX_INPUT_SEMANTICS => SPVC_COMPILER_OPTION_HLSL_BIT,
            spvc_compiler_option::SPVC_COMPILER_OPTION_MSL_VERSION => SPVC_COMPILER_OPTION_MSL_BIT,
            spvc_compiler_option::SPVC_COMPILER_OPTION_MSL_TEXEL_BUFFER_TEXTURE_WIDTH => SPVC_COMPILER_OPTION_MSL_BIT,
            spvc_compiler_option::SPVC_COMPILER_OPTION_MSL_AUX_BUFFER_INDEX => SPVC_COMPILER_OPTION_MSL_BIT,
            spvc_compiler_option::SPVC_COMPILER_OPTION_MSL_INDIRECT_PARAMS_BUFFER_INDEX => SPVC_COMPILER_OPTION_MSL_BIT,
            spvc_compiler_option::SPVC_COMPILER_OPTION_MSL_SHADER_OUTPUT_BUFFER_INDEX => SPVC_COMPILER_OPTION_MSL_BIT,
            spvc_compiler_option::SPVC_COMPILER_OPTION_MSL_SHADER_PATCH_OUTPUT_BUFFER_INDEX => SPVC_COMPILER_OPTION_MSL_BIT,
            spvc_compiler_option::SPVC_COMPILER_OPTION_MSL_SHADER_TESS_FACTOR_OUTPUT_BUFFER_INDEX => SPVC_COMPILER_OPTION_MSL_BIT,
            spvc_compiler_option::SPVC_COMPILER_OPTION_MSL_SHADER_INPUT_WORKGROUP_INDEX => SPVC_COMPILER_OPTION_MSL_BIT,
            spvc_compiler_option::SPVC_COMPILER_OPTION_MSL_ENABLE_POINT_SIZE_BUILTIN => SPVC_COMPILER_OPTION_MSL_BIT,
            spvc_compiler_option::SPVC_COMPILER_OPTION_MSL_DISABLE_RASTERIZATION => SPVC_COMPILER_OPTION_MSL_BIT,
            spvc_compiler_option::SPVC_COMPILER_OPTION_MSL_CAPTURE_OUTPUT_TO_BUFFER => SPVC_COMPILER_OPTION_MSL_BIT,
            spvc_compiler_option::SPVC_COMPILER_OPTION_MSL_SWIZZLE_TEXTURE_SAMPLES => SPVC_COMPILER_OPTION_MSL_BIT,
            spvc_compiler_option::SPVC_COMPILER_OPTION_MSL_PAD_FRAGMENT_OUTPUT_COMPONENTS => SPVC_COMPILER_OPTION_MSL_BIT,
            spvc_compiler_option::SPVC_COMPILER_OPTION_MSL_TESS_DOMAIN_ORIGIN_LOWER_LEFT => SPVC_COMPILER_OPTION_MSL_BIT,
            spvc_compiler_option::SPVC_COMPILER_OPTION_MSL_PLATFORM => SPVC_COMPILER_OPTION_MSL_BIT,
            spvc_compiler_option::SPVC_COMPILER_OPTION_MSL_ARGUMENT_BUFFERS => SPVC_COMPILER_OPTION_MSL_BIT,
            spvc_compiler_option::SPVC_COMPILER_OPTION_MSL_TEXTURE_BUFFER_NATIVE => SPVC_COMPILER_OPTION_MSL_BIT,
        }
    }

    /// The numeric code that names this option to the native option-setting
    /// protocol: its published ordinal with its target family's tag bit set.
    pub open spec fn spec_value(self) -> u32 {
        (self.tag_bit_spec() + self.ordinal_spec()) as u32
    }

    /// The numeric code of the option.
    #[verifier::when_used_as_spec(spec_value)]
    pub fn value(self) -> (r: u32)
        ensures
            r == self.spec_value(),
    {
        match self {
            spvc_compiler_option::SPVC_COMPILER_OPTION_FORCE_TEMPORARY => SPVC_COMPILER_OPTION_COMMON_BIT + 1,
            spvc_compiler_option::SPVC_COMPILER_OPTION_FLATTEN_MULTIDIMENSIONAL_ARRAYS => SPVC_COMPILER_OPTION_COMMON_BIT + 2,
            spvc_compiler_option::SPVC_COMPILER_OPTION_FIXUP_DEPTH_CONVENTION => SPVC_COMPILER_OPTION_COMMON_BIT + 3,
            spvc_compiler_option::SPVC_COMPILER_OPTION_FLIP_VERTEX_Y => SPVC_COMPILER_OPTION_COMMON_BIT + 4,
            spvc_compiler_option::SPVC_COMPILER_OPTION_EMIT_LINE_DIRECTIVES => SPVC_COMPILER_OPTION_COMMON_BIT + 36,
            spvc_compiler_option::SPVC_COMPILER_OPTION_ENABLE_STORAGE_IMAGE_QUALIFIER_DEDUCTION => SPVC_COMPILER_OPTION_COMMON_BIT + 51,
            spvc_compiler_option::SPVC_COMPILER_OPTION_FORCE_ZERO_INITIALIZED_VARIABLES => SPVC_COMPILER_OPTION_COMMON_BIT + 53,
            spvc_compiler_option::SPVC_COMPILER_OPTION_GLSL_VERSION => SPVC_COMPILER_OPTION_GLSL_BIT + 8,
            spvc_compiler_option::SPVC_COMPILER_OPTION_GLSL_ES => SPVC_COMPILER_OPTION_GLSL_BIT + 9,
            spvc_compiler_option::SPVC_COMPILER_OPTION_GLSL_ES_DEFAULT_FLOAT_PRECISION_HIGHP => SPVC_COMPILER_OPTION_GLSL_BIT + 11,
            spvc_compiler_option::SPVC_COMPILER_OPTION_GLSL_ES_DEFAULT_INT_PRECISION_HIGHP => SPVC_COMPILER_OPTION_GLSL_BIT + 12,
            spvc_compiler_option::SPVC_COMPILER_OPTION_GLSL_VULKAN_SEMANTICS => SPVC_COMPILER_OPTION_GLSL_BIT + 10,
            spvc_compiler_option::SPVC_COMPILER_OPTION_GLSL_SUPPORT_NONZERO_BASE_INSTANCE => SPVC_COMPILER_OPTION_GLSL_BIT + 5,
            spvc_compiler_option::SPVC_COMPILER_OPTION_GLSL_ENABLE_420PACK_EXTENSION => SPVC_COMPILER_OPTION_GLSL_BIT + 7,
            spvc_compiler_option::SPVC_COMPILER_OPTION_GLSL_EMIT_PUSH_CONSTANT_AS_UNIFORM_BUFFER => SPVC_COMPILER_OPTION_GLSL_BIT + 33,
            spvc_compiler_option::SPVC_COMPILER_OPTION_GLSL_EMIT_UNIFORM_BUFFER_AS_PLAIN_UNIFORMS => SPVC_COMPILER_OPTION_GLSL_BIT + 58,
            spvc_compiler_option::SPVC_COMPILER_OPTION_GLSL_FORCE_FLATTENED_IO_BLOCKS => SPVC_COMPILER_OPTION_GLSL_BIT + 66,
            spvc_compiler_option::SPVC_COMPILER_OPTION_GLSL_OVR_MULTIVIEW_VIEW_COUNT => SPVC_COMPILER_OPTION_GLSL_BIT + 77,
            spvc_compiler_option::SPVC_COMPILER_OPTION_GLSL_ENABLE_ROW_MAJOR_LOAD_WORKAROUND => SPVC_COMPILER_OPTION_GLSL_BIT + 83,
            spvc_compiler_option::SPVC_COMPILER_OPTION_HLSL_SHADER_MODEL => SPVC_COMPILER_OPTION_HLSL_BIT + 13,
            spvc_compiler_option::SPVC_COMPILER_OPTION_HLSL_POINT_SIZE_COMPAT => SPVC_COMPILER_OPTION_HLSL_BIT + 14,
            spvc_compiler_option::SPVC_COMPILER_OPTION_HLSL_POINT_COORD_COMPAT => SPVC_COMPILER_OPTION_HLSL_BIT + 15,
            spvc_compiler_option::SPVC_COMPILER_OPTION_HLSL_SUPPORT_NONZERO_BASE_VERTEX_BASE_INSTANCE => SPVC_COMPILER_OPTION_HLSL_BIT + 16,
            spvc_compiler_option::SPVC_COMPILER_OPTION_HLSL_FORCE_STORAGE_BUFFER_AS_UAV => SPVC_COMPILER_OPTION_HLSL_BIT + 52,
            spvc_compiler_option::SPVC_COMPILER_OPTION_HLSL_NONWRITABLE_UAV_TEXTURE_AS_SRV => SPVC_COMPILER_OPTION_HLSL_BIT + 54,
            spvc_compiler_option::SPVC_COMPILER_OPTION_HLSL_ENABLE_16BIT_TYPES => SPVC_COMPILER_OPTION_HLSL_BIT + 60,
            spvc_compiler_option::SPVC_COMPILER_OPTION_HLSL_FLATTEN_MATRIX_VERTEX_INPUT_SEMANTICS => SPVC_COMPILER_OPTION_HLSL_BIT + 71,
            spvc_compiler_option::SPVC_COMPILER_OPTION_MSL_VERSION => SPVC_COMPILER_OPTION_MSL_BIT + 17,
            spvc_compiler_option::SPVC_COMPILER_OPTION_MSL_TEXEL_BUFFER_TEXTURE_WIDTH => SPVC_COMPILER_OPTION_MSL_BIT + 18,
            spvc_compiler_option::SPVC_COMPILER_OPTION_MSL_AUX_BUFFER_INDEX => SPVC_COMPILER_OPTION_MSL_BIT + 19,
            spvc_compiler_option::SPVC_COMPILER_OPTION_MSL_INDIRECT_PARAMS_BUFFER_INDEX => SPVC_COMPILER_OPTION_MSL_BIT + 20,
            spvc_compiler_option::SPVC_COMPILER_OPTION_MSL_SHADER_OUTPUT_BUFFER_INDEX => SPVC_COMPILER_OPTION_MSL_BIT + 21,
            spvc_compiler_option::SPVC_COMPILER_OPTION_MSL_SHADER_PATCH_OUTPUT_BUFFER_INDEX => SPVC_COMPILER_OPTION_MSL_BIT + 22,
            spvc_compiler_option::SPVC_COMPILER_OPTION_MSL_SHADER_TESS_FACTOR_OUTPUT_BUFFER_INDEX => SPVC_COMPILER_OPTION_MSL_BIT + 23,
            spvc_compiler_option::SPVC_COMPILER_OPTION_MSL_SHADER_INPUT_WORKGROUP_INDEX => SPVC_COMPILER_OPTION_MSL_BIT + 24,
            spvc_compiler_option::SPVC_COMPILER_OPTION_MSL_ENABLE_POINT_SIZE_BUILTIN => SPVC_COMPILER_OPTION_MSL_BIT + 25,
            spvc_compiler_option::SPVC_COMPILER_OPTION_MSL_DISABLE_RASTERIZATION => SPVC_COMPILER_OPTION_MSL_BIT + 26,
            spvc_compiler_option::SPVC_COMPILER_OPTION_MSL_CAPTURE_OUTPUT_TO_BUFFER => SPVC_COMPILER_OPTION_MSL_BIT + 27,
            spvc_compiler_option::SPVC_COMPILER_OPTION_MSL_SWIZZLE_TEXTURE_SAMPLES => SPVC_COMPILER_OPTION_MSL_BIT + 28,
            spvc_compiler_option::SPVC_COMPILER_OPTION_MSL_PAD_FRAGMENT_OUTPUT_COMPONENTS => SPVC_COMPILER_OPTION_MSL_BIT + 29,
            spvc_compiler_option::SPVC_COMPILER_OPTION_MSL_TESS_DOMAIN_ORIGIN_LOWER_LEFT => SPVC_COMPILER_OPTION_MSL_BIT + 30,
            spvc_compiler_option::SPVC_COMPILER_OPTION_MSL_PLATFORM => SPVC_COMPILER_OPTION_MSL_BIT + 31,
            spvc_compiler_option::SPVC_COMPILER_OPTION_MSL_ARGUMENT_BUFFERS => SPVC_COMPILER_OPTION_MSL_BIT + 32,
            spvc_compiler_option::SPVC_COMPILER_OPTION_MSL_TEXTURE_BUFFER_NATIVE => SPVC_COMPILER_OPTION_MSL_BIT + 34,
        }
    }

    /// Whether the option is a common option, read as the native tagging
    /// documents it: the common tag bit of its code is nonzero.
    pub open spec fn is_common_spec(self) -> bool {
        self.tag_bit_spec() == SPVC_COMPILER_OPTION_COMMON_BIT
    }

    /// Whether the option is a GLSL option.
    pub open spec fn is_glsl_spec(self) -> bool {
        self.tag_bit_spec() == SPVC_COMPILER_OPTION_GLSL_BIT
    }

    /// Whether the option is an HLSL option.
    pub open spec fn is_hlsl_spec(self) -> bool {
        self.tag_bit_spec() == SPVC_COMPILER_OPTION_HLSL_BIT
    }

    /// Whether the option is an MSL option.
    pub open spec fn is_msl_spec(self) -> bool {
        self.tag_bit_spec() == SPVC_COMPILER_OPTION_MSL_BIT
    }

    /// Tests the common tag bit of the option's code against zero.
    pub fn is_common(self) -> (r: bool)
        ensures
            r == self.is_common_spec(),
            r == ((self.spec_value() & SPVC_COMPILER_OPTION_COMMON_BIT) != 0),
    {
        proof {
            lemma_option_tag_bits(self);
        }
        (self.value() & SPVC_COMPILER_OPTION_COMMON_BIT) != 0
    }

    /// Tests the GLSL tag bit of the option's code against zero.
    pub fn is_glsl(self) -> (r: bool)
        ensures
            r == self.is_glsl_spec(),
            r == ((self.spec_value() & SPVC_COMPILER_OPTION_GLSL_BIT) != 0),
    {
        proof {
            lemma_option_tag_bits(self);
        }
        (self.value() & SPVC_COMPILER_OPTION_GLSL_BIT) != 0
    }

    /// Tests the HLSL tag bit of the option's code against zero.
    pub fn is_hlsl(self) -> (r: bool)
        ensures
            r == self.is_hlsl_spec(),
            r == ((self.spec_value() & SPVC_COMPILER_OPTION_HLSL_BIT) != 0),
    {
        proof {
            lemma_option_tag_bits(self);
        }
        (self.value() & SPVC_COMPILER_OPTION_HLSL_BIT) != 0
    }

    /// Tests the MSL tag bit of the option's code against zero.
    pub fn is_msl(self) -> (r: bool)
        ensures
            r == self.is_msl_spec(),
            r == ((self.spec_value() & SPVC_COMPILER_OPTION_MSL_BIT) != 0),
    {
        proof {
            lemma_option_tag_bits(self);
        }
        (self.value() & SPVC_COMPILER_OPTION_MSL_BIT) != 0
    }

    /// Whether the option may be set on a compiler for the given backend:
    /// common options always, and a target-tagged option only on its own
    /// backend.
    pub open spec fn targets_backend_spec(self, backend: spvc_backend) -> bool {
        ||| self.is_common_spec()
        ||| (backend is SPVC_BACKEND_GLSL && self.is_glsl_spec())
        ||| (backend is SPVC_BACKEND_HLSL && self.is_hlsl_spec())
        ||| (backend is SPVC_BACKEND_MSL && self.is_msl_spec())
    }
}

/// A code built from a small ordinal and one of the four tag bits has
/// exactly that tag bit set among the four.
proof fn lemma_tagged_code_bits(k: u32)
    requires
        1 <= k < 0x100_0000,
    ensures
        ((0x0100_0000 + k) as u32 & 0x0100_0000u32) != 0,
        ((0x0100_0000 + k) as u32 & 0x0200_0000u32) == 0,
        ((0x0100_0000 + k) as u32 & 0x0400_0000u32) == 0,
        ((0x0100_0000 + k) as u32 & 0x0800_0000u32) == 0,
        ((0x0200_0000 + k) as u32 & 0x0100_0000u32) == 0,
        ((0x0200_0000 + k) as u32 & 0x0200_0000u32) != 0,
        ((0x0200_0000 + k) as u32 & 0x0400_0000u32) == 0,
        ((0x0200_0000 + k) as u32 & 0x0800_0000u32) == 0,
        ((0x0400_0000 + k) as u32 & 0x0100_0000u32) == 0,
        ((0x0400_0000 + k) as u32 & 0x0200_0000u32) == 0,
        ((0x0400_0000 + k) as u32 & 0x0400_0000u32) != 0,
        ((0x0400_0000 + k) as u32 & 0x0800_0000u32) == 0,
        ((0x0800_0000 + k) as u32 & 0x0100_0000u32) == 0,
        ((0x0800_0000 + k) as u32 & 0x0200_0000u32) == 0,
        ((0x0800_0000 + k) as u32 & 0x0400_0000u32) == 0,
        ((0x0800_0000 + k) as u32 & 0x0800_0000u32) != 0,
{
    assert(((0x0100_0000 + k) as u32 & 0x0100_0000u32) != 0 && ((0x0100_0000 + k) as u32
        & 0x0200_0000u32) == 0 && ((0x0100_0000 + k) as u32 & 0x0400_0000u32) == 0 && ((
    0x0100_0000 + k) as u32 & 0x0800_0000u32) == 0 && ((0x0200_0000 + k) as u32 & 0x0100_0000u32)
        == 0 && ((0x0200_0000 + k) as u32 & 0x0200_0000u32) != 0 && ((0x0200_0000 + k) as u32
        & 0x0400_0000u32) == 0 && ((0x0200_0000 + k) as u32 & 0x0800_0000u32) == 0 && ((0x0400_0000
        + k) as u32 & 0x0100_0000u32) == 0 && ((0x0400_0000 + k) as u32 & 0x0200_0000u32) == 0 && ((
    0x0400_0000 + k) as u32 & 0x0400_0000u32) != 0 && ((0x0400_0000 + k) as u32 & 0x0800_0000u32)
        == 0 && ((0x0800_0000 + k) as u32 & 0x0100_0000u32) == 0 && ((0x0800_0000 + k) as u32
        & 0x0200_0000u32) == 0 && ((0x0800_0000 + k) as u32 & 0x0400_0000u32) == 0 && ((0x0800_0000
        + k) as u32 & 0x0800_0000u32) != 0) by (bit_vector)
        requires
            1 <= k < 0x100_0000,
    ;
}

/// The nonzero test of each tag bit on an option's code agrees with the tag
/// the option was declared with.
proof fn lemma_option_tag_bits(o: spvc_compiler_option)
    ensures
        ((o.spec_value() & SPVC_COMPILER_OPTION_COMMON_BIT) != 0) == o.is_common_spec(),
        ((o.spec_value() & SPVC_COMPILER_OPTION_GLSL_BIT) != 0) == o.is_glsl_spec(),
        ((o.spec_value() & SPVC_COMPILER_OPTION_HLSL_BIT) != 0) == o.is_hlsl_spec(),
        ((o.spec_value() & SPVC_COMPILER_OPTION_MSL_BIT) != 0) == o.is_msl_spec(),
{
    assert(1 <= o.ordinal_spec() < 0x100_0000);
    lemma_tagged_code_bits(o.ordinal_spec());
}

/// A typed option value staged for the native option-setting protocol, which
/// has one setter for unsigned integers and one for booleans.
#[derive(Clone, Copy, Debug, PartialEq, Eq, Structural)]
pub enum OptionValue {
    Uint(u32),
    Bool(bool),
}

/// One staged option setting: the option and the typed value it will be
/// installed with.
#[derive(Clone, Copy, Debug, PartialEq, Eq, Structural)]
pub struct OptionSetting {
    pub option: spvc_compiler_option,
    pub value: OptionValue,
}

/// A compiler to some target: a builder that stages typed option values, in
/// order, for installation onto the native options handle.
///
/// Every setter consumes the builder and hands it back inside a `Result`, so
/// a fluent chain short-circuits on the first failure.
pub trait Compiler: Sized {
    /// The backend this compiler generates source text for.
    spec fn backend_spec(&self) -> spvc_backend;

    /// The option settings staged so far, in installation order.
    spec fn staged_spec(&self) -> Seq<OptionSetting>;

    /// Which options this compiler accepts: staging an option of the wrong
    /// target family is a programming error, ruled out here rather than
    /// reported at run time.
    spec fn option_allowed(&self, option: spvc_compiler_option) -> bool;

    /// Stages an unsigned integer value for `option`.
    fn set_uint(self, option: spvc_compiler_option, value: u32) -> (r: Result<Self, Error>)
        requires
            self.option_allowed(option),
        ensures
            r matches Ok(c) && c.staged_spec() == self.staged_spec().push((OptionSetting { option, value: OptionValue::Uint(value) }))
                && c.backend_spec() == self.backend_spec() && (forall|o: spvc_compiler_option|
                #[trigger] c.option_allowed(o) == self.option_allowed(o)),
    ;

    /// Stages a boolean value for `option`.
    fn set_bool(self, option: spvc_compiler_option, value: bool) -> (r: Result<Self, Error>)
        requires
            self.option_allowed(option),
        ensures
            r matches Ok(c) && c.staged_spec() == self.staged_spec().push((OptionSetting { option, value: OptionValue::Bool(value) }))
                && c.backend_spec() == self.backend_spec() && (forall|o: spvc_compiler_option|
                #[trigger] c.option_allowed(o) == self.option_allowed(o)),
    ;

    /// Stages the common flag that holds intermediate results in forced temporary variables.
    fn force_temporary(self, force_temporary: bool) -> (r: Result<Self, Error>)
        requires
            self.option_allowed(spvc_compiler_option::SPVC_COMPILER_OPTION_FORCE_TEMPORARY),
        ensures
            r matches Ok(c) && c.staged_spec() == self.staged_spec().push((OptionSetting {
                option: spvc_compiler_option::SPVC_COMPILER_OPTION_FORCE_TEMPORARY,
                value: OptionValue::Bool(force_temporary),
            }))
                && c.backend_spec() == self.backend_spec() && (forall|o: spvc_compiler_option|
                #[trigger] c.option_allowed(o) == self.option_allowed(o)),
    {
        self.set_bool(spvc_compiler_option::SPVC_COMPILER_OPTION_FORCE_TEMPORARY, force_temporary)
    }

    /// Stages the common flag that flattens multidimensional arrays.
    fn flatten_multidimensional_arrays(self, flatten_multidimensional_arrays: bool) -> (r: Result<Self, Error>)
        requires
            self.option_allowed(spvc_compiler_option::SPVC_COMPILER_OPTION_FLATTEN_MULTIDIMENSIONAL_ARRAYS),
        ensures
            r matches Ok(c) && c.staged_spec() == self.staged_spec().push((OptionSetting {
                option: spvc_compiler_option::SPVC_COMPILER_OPTION_FLATTEN_MULTIDIMENSIONAL_ARRAYS,
                value: OptionValue::Bool(flatten_multidimensional_arrays),
            }))
                && c.backend_spec() == self.backend_spec() && (forall|o: spvc_compiler_option|
                #[trigger] c.option_allowed(o) == self.option_allowed(o)),
    {
        self.set_bool(spvc_compiler_option::SPVC_COMPILER_OPTION_FLATTEN_MULTIDIMENSIONAL_ARRAYS, flatten_multidimensional_arrays)
    }

    /// Stages the common flag that fixes up the depth convention of the target.
    fn fixup_depth_convention(self, fixup_depth_convention: bool) -> (r: Result<Self, Error>)
        requires
            self.option_allowed(spvc_compiler_option::SPVC_COMPILER_OPTION_FIXUP_DEPTH_CONVENTION),
        ensures
            r matches Ok(c) && c.staged_spec() == self.staged_spec().push((OptionSetting {
                option: spvc_compiler_option::SPVC_COMPILER_OPTION_FIXUP_DEPTH_CONVENTION,
                value: OptionValue::Bool(fixup_depth_convention),
            }))
                && c.backend_spec() == self.backend_spec() && (forall|o: spvc_compiler_option|
                #[trigger] c.option_allowed(o) == self.option_allowed(o)),
    {
        self.set_bool(spvc_compiler_option::SPVC_COMPILER_OPTION_FIXUP_DEPTH_CONVENTION, fixup_depth_convention)
    }

    /// Stages the common flag that flips the vertical axis of vertex positions.
    fn flip_vertex_y(self, flip_vertex_y: bool) -> (r: Result<Self, Error>)
        requires
            self.option_allowed(spvc_compiler_option::SPVC_COMPILER_OPTION_FLIP_VERTEX_Y),
        ensures
            r matches Ok(c) && c.staged_spec() == self.staged_spec().push((OptionSetting {
                option: spvc_compiler_option::SPVC_COMPILER_OPTION_FLIP_VERTEX_Y,
                value: OptionValue::Bool(flip_vertex_y),
            }))
                && c.backend_spec() == self.backend_spec() && (forall|o: spvc_compiler_option|
                #[trigger] c.option_allowed(o) == self.option_allowed(o)),
    {
        self.set_bool(spvc_compiler_option::SPVC_COMPILER_OPTION_FLIP_VERTEX_Y, flip_vertex_y)
    }

    /// Stages the common flag that emits line directives into the generated text.
    fn emit_line_directives(self, emit_line_directives: bool) -> (r: Result<Self, Error>)
        requires
            self.option_allowed(spvc_compiler_option::SPVC_COMPILER_OPTION_EMIT_LINE_DIRECTIVES),
        ensures
            r matches Ok(c) && c.staged_spec() == self.staged_spec().push((OptionSetting {
                option: spvc_compiler_option::SPVC_COMPILER_OPTION_EMIT_LINE_DIRECTIVES,
                value: OptionValue::Bool(emit_line_directives),
            }))
                && c.backend_spec() == self.backend_spec() && (forall|o: spvc_compiler_option|
                #[trigger] c.option_allowed(o) == self.option_allowed(o)),
    {
        self.set_bool(spvc_compiler_option::SPVC_COMPILER_OPTION_EMIT_LINE_DIRECTIVES, emit_line_directives)
    }

    /// Stages the common flag that deduces storage image qualifiers.
    fn enable_storage_image_qualifier_deduction(self, enable_storage_image_qualifier_deduction: bool) -> (r: Result<Self, Error>)
        requires
            self.option_allowed(spvc_compiler_option::SPVC_COMPILER_OPTION_ENABLE_STORAGE_IMAGE_QUALIFIER_DEDUCTION),
        ensures
            r matches Ok(c) && c.staged_spec() == self.staged_spec().push((OptionSetting {
                option: spvc_compiler_option::SPVC_COMPILER_OPTION_ENABLE_STORAGE_IMAGE_QUALIFIER_DEDUCTION,
                value: OptionValue::Bool(enable_storage_image_qualifier_deduction),
            }))
                && c.backend_spec() == self.backend_spec() && (forall|o: spvc_compiler_option|
                #[trigger] c.option_allowed(o) == self.option_allowed(o)),
    {
        self.set_bool(spvc_compiler_option::SPVC_COMPILER_OPTION_ENABLE_STORAGE_IMAGE_QUALIFIER_DEDUCTION, enable_storage_image_qualifier_deduction)
    }

    /// Stages the common flag that zero-initializes variables without an initializer.
    fn force_zero_initialized_variables(self, force_zero_initialized_variables: bool) -> (r: Result<Self, Error>)
        requires
            self.option_allowed(spvc_compiler_option::SPVC_COMPILER_OPTION_FORCE_ZERO_INITIALIZED_VARIABLES),
        ensures
            r matches Ok(c) && c.staged_spec() == self.staged_spec().push((OptionSetting {
                option: spvc_compiler_option::SPVC_COMPILER_OPTION_FORCE_ZERO_INITIALIZED_VARIABLES,
                value: OptionValue::Bool(force_zero_initialized_variables),
            }))
                && c.backend_spec() == self.backend_spec() && (forall|o: spvc_compiler_option|
                #[trigger] c.option_allowed(o) == self.option_allowed(o)),
    {
        self.set_bool(spvc_compiler_option::SPVC_COMPILER_OPTION_FORCE_ZERO_INITIALIZED_VARIABLES, force_zero_initialized_variables)
    }

}

/// A compiler to a manually specified target: any option of any family may be
/// staged on it.
pub struct GenericCompiler {
    backend: spvc_backend,
    staged: Vec<OptionSetting>,
}

impl GenericCompiler {
    /// Creates a new generic compiler for the given backend, with nothing
    /// staged yet.
    pub fn new(backend: spvc_backend) -> (r: GenericCompiler)
        ensures
            r.backend_spec() == backend,
            r.staged_spec() == Seq::<OptionSetting>::empty(),
    {
        GenericCompiler { backend, staged: Vec::new() }
    }

    /// The backend this compiler generates source text for.
    pub fn backend(&self) -> (r: spvc_backend)
        ensures
            r == self.backend_spec(),
    {
        self.backend
    }

    /// The staged option settings, in the order the driving layer must
    /// install them before invoking the compilation.
    pub fn settings(&self) -> (r: &Vec<OptionSetting>)
        ensures
            r@ == self.staged_spec(),
    {
        &self.staged
    }

    /// Creates a compiler builder for `backend` from a parsed representation,
    /// resolving the capture mode to communicate to the native compiler
    /// creation from the representation's ownership variant. The
    /// representation is consumed, so a borrowed view, whose ownership the
    /// native layer takes over, cannot reach a second compiler creation.
    pub fn with_ir<'a, 'b>(backend: spvc_backend, ir: ParsedIr<'a, 'b>) -> (r: (
        GenericCompiler,
        spvc_capture_mode,
    ))
        ensures
            r.0.backend_spec() == backend,
            r.0.staged_spec() == Seq::<OptionSetting>::empty(),
            r.1 == ir.mode_spec(),
    {
        let mode = ir.mode();
        (GenericCompiler::new(backend), mode)
    }
}

impl Compiler for GenericCompiler {
    closed spec fn backend_spec(&self) -> spvc_backend {
        self.backend
    }

    closed spec fn staged_spec(&self) -> Seq<OptionSetting> {
        self.staged@
    }

    open spec fn option_allowed(&self, option: spvc_compiler_option) -> bool {
        true
    }

    fn set_uint(self, option: spvc_compiler_option, value: u32) -> (r: Result<Self, Error>) {
        let mut c = self;
        c.staged.push(OptionSetting { option, value: OptionValue::Uint(value) });
        Ok(c)
    }

    fn set_bool(self, option: spvc_compiler_option, value: bool) -> (r: Result<Self, Error>) {
        let mut c = self;
        c.staged.push(OptionSetting { option, value: OptionValue::Bool(value) });
        Ok(c)
    }
}

/// What `String::from_utf8_lossy` returns for a byte sequence: its UTF-8
/// decoding, with each invalid sequence replaced by the replacement
/// character.
pub uninterp spec fn lossy_utf8_of(bytes: Seq<u8>) -> Seq<char>;

/// Relies on `String::from_utf8_lossy`: the decoding is a function of the
/// bytes alone, and an empty buffer decodes to the empty string.
#[verifier::external_body]
fn lossy_utf8(bytes: &[u8]) -> (r: String)
    ensures
        r@ == lossy_utf8_of(bytes@),
        bytes@.len() == 0 ==> r@.len() == 0,
{
    String::from_utf8_lossy(bytes).into_owned()
}

/// The source text of a finished compilation, recovered from the raw bytes of
/// the engine-owned buffer: their UTF-8 decoding, with invalid sequences
/// replaced by the replacement character.
pub fn compile_output(raw: &[u8]) -> (r: String)
    ensures
        r@ == lossy_utf8_of(raw@),
        raw@.len() == 0 ==> r@.len() == 0,
{
    lossy_utf8(raw)
}

} // verus!
