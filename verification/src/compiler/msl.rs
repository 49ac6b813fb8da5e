//! The MSL compiler: a backend-specialized builder that exposes only the
//! option setters valid for the MSL target, so that a mismatched option is
//! impossible rather than checked at run time.

use vstd::prelude::*;

use crate::compiler::Compiler;
use crate::compiler::GenericCompiler;
use crate::compiler::OptionSetting;
use crate::compiler::OptionValue;
use crate::compiler::spvc_backend;
use crate::compiler::spvc_compiler_option;
use crate::error::Error;

verus! {

/// The platforms an MSL compilation can target.
#[allow(non_camel_case_types)]
#[derive(Clone, Copy, Debug, PartialEq, Eq, Structural)]
pub enum spvc_msl_platform {
    SPVC_MSL_PLATFORM_IOS,
    SPVC_MSL_PLATFORM_MACOS,
}

impl spvc_msl_platform {
    /// The numeric code that names the platform to the native option-setting
    /// protocol.
    pub open spec fn spec_value(self) -> u32 {
        match self {
            spvc_msl_platform::SPVC_MSL_PLATFORM_IOS => 0,
            spvc_msl_platform::SPVC_MSL_PLATFORM_MACOS => 1,
        }
    }

    /// The numeric code of the platform.
    #[verifier::when_used_as_spec(spec_value)]
    pub fn value(self) -> (r: u32)
        ensures
            r == self.spec_value(),
    {
        match self {
            spvc_msl_platform::SPVC_MSL_PLATFORM_IOS => 0,
            spvc_msl_platform::SPVC_MSL_PLATFORM_MACOS => 1,
        }
    }
}

/// Two distinct version requests stage distinct packed codes, as long as the
/// minor part stays below one hundred — the width the packing reserves for it
/// — so a version set on the compiler is observable in what reaches the
/// native layer.
pub proof fn lemma_msl_version_packing_injective(
    major1: u32,
    minor1: u32,
    major2: u32,
    minor2: u32,
)
    requires
        minor1 < 100,
        minor2 < 100,
        10000 * major1 + 100 * minor1 == 10000 * major2 + 100 * minor2,
    ensures
        major1 == major2,
        minor1 == minor2,
{
}

/// Metal Shading Language compiler.
pub struct MslCompiler {
    inner: GenericCompiler,
}

impl MslCompiler {
    /// The generic compiler this backend compiler wraps.
    pub closed spec fn generic_spec(&self) -> GenericCompiler {
        self.inner
    }

    /// Creates a new Metal Shading Language compiler with nothing staged yet.
    pub fn new() -> (r: MslCompiler)
        ensures
            r.backend_spec() is SPVC_BACKEND_MSL,
            r.staged_spec() == Seq::<OptionSetting>::empty(),
    {
        MslCompiler { inner: GenericCompiler::new(spvc_backend::SPVC_BACKEND_MSL) }
    }

    /// Unwraps into the generic compiler, keeping the backend and everything
    /// staged so far.
    pub fn into_generic(self) -> (r: GenericCompiler)
        ensures
            r == self.generic_spec(),
            r.backend_spec() == self.backend_spec(),
            r.staged_spec() == self.staged_spec(),
    {
        self.inner
    }

    /// Stages the MSL language version, given as a major and minor pair: the
    /// native option packs the pair into a single integer as ten thousand
    /// times the major part plus one hundred times the minor part.
    pub fn version(self, major: u32, minor: u32) -> (r: Result<MslCompiler, Error>)
        requires
            10000 * major + 100 * minor <= u32::MAX,
        ensures
            r matches Ok(c) && c.staged_spec() == self.staged_spec().push(
                (OptionSetting {
                    option: spvc_compiler_option::SPVC_COMPILER_OPTION_MSL_VERSION,
                    value: OptionValue::Uint((10000 * major + 100 * minor) as u32),
                }),
            ) && c.backend_spec() == self.backend_spec(),
    {
        let version: u32 = 10000 * major + 100 * minor;
        let inner = self.inner.set_uint(
            spvc_compiler_option::SPVC_COMPILER_OPTION_MSL_VERSION,
            version,
        )?;
        Ok(MslCompiler { inner })
    }

    /// Stages the platform the compilation targets.
    pub fn platform(self, platform: spvc_msl_platform) -> (r: Result<MslCompiler, Error>)
        ensures
            r matches Ok(c) && c.staged_spec() == self.staged_spec().push(
                (OptionSetting {
                    option: spvc_compiler_option::SPVC_COMPILER_OPTION_MSL_PLATFORM,
                    value: OptionValue::Uint(platform.spec_value()),
                }),
            ) && c.backend_spec() == self.backend_spec(),
    {
        let inner = self.inner.set_uint(
            spvc_compiler_option::SPVC_COMPILER_OPTION_MSL_PLATFORM,
            platform.value(),
        )?;
        Ok(MslCompiler { inner })
    }

    /// Stages the texture width of texel buffers.
    pub fn texel_buffer_texture_width(self, texel_buffer_texture_width: u32) -> (r: Result<MslCompiler, Error>)
        ensures
            r matches Ok(c) && c.staged_spec() == self.staged_spec().push(
                (OptionSetting {
                    option: spvc_compiler_option::SPVC_COMPILER_OPTION_MSL_TEXEL_BUFFER_TEXTURE_WIDTH,
                    value: OptionValue::Uint(texel_buffer_texture_width),
                }),
            ) && c.backend_spec() == self.backend_spec(),
    {
        let inner = self.inner.set_uint(
            spvc_compiler_option::SPVC_COMPILER_OPTION_MSL_TEXEL_BUFFER_TEXTURE_WIDTH,
            texel_buffer_texture_width,
        )?;
        Ok(MslCompiler { inner })
    }

    /// Stages the buffer index of the auxiliary buffer.
    pub fn aux_buffer_index(self, aux_buffer_index: u32) -> (r: Result<MslCompiler, Error>)
        ensures
            r matches Ok(c) && c.staged_spec() == self.staged_spec().push(
                (OptionSetting {
                    option: spvc_compiler_option::SPVC_COMPILER_OPTION_MSL_AUX_BUFFER_INDEX,
                    value: OptionValue::Uint(aux_buffer_index),
                }),
            ) && c.backend_spec() == self.backend_spec(),
    {
        let inner = self.inner.set_uint(
            spvc_compiler_option::SPVC_COMPILER_OPTION_MSL_AUX_BUFFER_INDEX,
            aux_buffer_index,
        )?;
        Ok(MslCompiler { inner })
    }

    /// Stages the buffer index of indirect parameters.
    pub fn indirect_params_buffer_index(self, indirect_params_buffer_index: u32) -> (r: Result<MslCompiler, Error>)
        ensures
            r matches Ok(c) && c.staged_spec() == self.staged_spec().push(
                (OptionSetting {
                    option: spvc_compiler_option::SPVC_COMPILER_OPTION_MSL_INDIRECT_PARAMS_BUFFER_INDEX,
                    value: OptionValue::Uint(indirect_params_buffer_index),
                }),
            ) && c.backend_spec() == self.backend_spec(),
    {
        let inner = self.inner.set_uint(
            spvc_compiler_option::SPVC_COMPILER_OPTION_MSL_INDIRECT_PARAMS_BUFFER_INDEX,
            indirect_params_buffer_index,
        )?;
        Ok(MslCompiler { inner })
    }

    /// Stages the buffer index of the shader output buffer.
    pub fn shader_output_buffer_index(self, shader_output_buffer_index: u32) -> (r: Result<MslCompiler, Error>)
        ensures
            r matches Ok(c) && c.staged_spec() == self.staged_spec().push(
                (OptionSetting {
                    option: spvc_compiler_option::SPVC_COMPILER_OPTION_MSL_SHADER_OUTPUT_BUFFER_INDEX,
                    value: OptionValue::Uint(shader_output_buffer_index),
                }),
            ) && c.backend_spec() == self.backend_spec(),
    {
        let inner = self.inner.set_uint(
            spvc_compiler_option::SPVC_COMPILER_OPTION_MSL_SHADER_OUTPUT_BUFFER_INDEX,
            shader_output_buffer_index,
        )?;
        Ok(MslCompiler { inner })
    }

    /// Stages the buffer index of the shader patch output buffer.
    pub fn shader_patch_output_buffer_index(self, shader_patch_output_buffer_index: u32) -> (r: Result<MslCompiler, Error>)
        ensures
            r matches Ok(c) && c.staged_spec() == self.staged_spec().push(
                (OptionSetting {
                    option: spvc_compiler_option::SPVC_COMPILER_OPTION_MSL_SHADER_PATCH_OUTPUT_BUFFER_INDEX,
                    value: OptionValue::Uint(shader_patch_output_buffer_index),
                }),
            ) && c.backend_spec() == self.backend_spec(),
    {
        let inner = self.inner.set_uint(
            spvc_compiler_option::SPVC_COMPILER_OPTION_MSL_SHADER_PATCH_OUTPUT_BUFFER_INDEX,
            shader_patch_output_buffer_index,
        )?;
        Ok(MslCompiler { inner })
    }

    /// Stages the buffer index of the tessellation factor output buffer.
    pub fn shader_tess_factor_output_buffer_index(self, shader_tess_factor_output_buffer_index: u32) -> (r: Result<MslCompiler, Error>)
        ensures
            r matches Ok(c) && c.staged_spec() == self.staged_spec().push(
                (OptionSetting {
                    option: spvc_compiler_option::SPVC_COMPILER_OPTION_MSL_SHADER_TESS_FACTOR_OUTPUT_BUFFER_INDEX,
                    value: OptionValue::Uint(shader_tess_factor_output_buffer_index),
                }),
            ) && c.backend_spec() == self.backend_spec(),
    {
        let inner = self.inner.set_uint(
            spvc_compiler_option::SPVC_COMPILER_OPTION_MSL_SHADER_TESS_FACTOR_OUTPUT_BUFFER_INDEX,
            shader_tess_factor_output_buffer_index,
        )?;
        Ok(MslCompiler { inner })
    }

    /// Stages the workgroup index of the shader input.
    pub fn shader_input_workgroup_index(self, shader_input_workgroup_index: u32) -> (r: Result<MslCompiler, Error>)
        ensures
            r matches Ok(c) && c.staged_spec() == self.staged_spec().push(
                (OptionSetting {
                    option: spvc_compiler_option::SPVC_COMPILER_OPTION_MSL_SHADER_INPUT_WORKGROUP_INDEX,
                    value: OptionValue::Uint(shader_input_workgroup_index),
                }),
            ) && c.backend_spec() == self.backend_spec(),
    {
        let inner = self.inner.set_uint(
            spvc_compiler_option::SPVC_COMPILER_OPTION_MSL_SHADER_INPUT_WORKGROUP_INDEX,
            shader_input_workgroup_index,
        )?;
        Ok(MslCompiler { inner })
    }

    /// Stages the flag that enables the built-in point size.
    pub fn enable_point_size_builtin(self, enable_point_size_builtin: bool) -> (r: Result<MslCompiler, Error>)
        ensures
            r matches Ok(c) && c.staged_spec() == self.staged_spec().push(
                (OptionSetting {
                    option: spvc_compiler_option::SPVC_COMPILER_OPTION_MSL_ENABLE_POINT_SIZE_BUILTIN,
                    value: OptionValue::Bool(enable_point_size_builtin),
                }),
            ) && c.backend_spec() == self.backend_spec(),
    {
        let inner = self.inner.set_bool(
            spvc_compiler_option::SPVC_COMPILER_OPTION_MSL_ENABLE_POINT_SIZE_BUILTIN,
            enable_point_size_builtin,
        )?;
        Ok(MslCompiler { inner })
    }

    /// Stages the flag that disables rasterization.
    pub fn disable_rasterization(self, disable_rasterization: bool) -> (r: Result<MslCompiler, Error>)
        ensures
            r matches Ok(c) && c.staged_spec() == self.staged_spec().push(
                (OptionSetting {
                    option: spvc_compiler_option::SPVC_COMPILER_OPTION_MSL_DISABLE_RASTERIZATION,
                    value: OptionValue::Bool(disable_rasterization),
                }),
            ) && c.backend_spec() == self.backend_spec(),
    {
        let inner = self.inner.set_bool(
            spvc_compiler_option::SPVC_COMPILER_OPTION_MSL_DISABLE_RASTERIZATION,
            disable_rasterization,
        )?;
        Ok(MslCompiler { inner })
    }

    /// Stages the flag that captures the output to a buffer.
    pub fn capture_output_to_buffer(self, capture_output_to_buffer: bool) -> (r: Result<MslCompiler, Error>)
        ensures
            r matches Ok(c) && c.staged_spec() == self.staged_spec().push(
                (OptionSetting {
                    option: spvc_compiler_option::SPVC_COMPILER_OPTION_MSL_CAPTURE_OUTPUT_TO_BUFFER,
                    value: OptionValue::Bool(capture_output_to_buffer),
                }),
            ) && c.backend_spec() == self.backend_spec(),
    {
        let inner = self.inner.set_bool(
            spvc_compiler_option::SPVC_COMPILER_OPTION_MSL_CAPTURE_OUTPUT_TO_BUFFER,
            capture_output_to_buffer,
        )?;
        Ok(MslCompiler { inner })
    }

    /// Stages the flag that swizzles texture samples.
    pub fn swizzle_texture_samples(self, swizzle_texture_samples: bool) -> (r: Result<MslCompiler, Error>)
        ensures
            r matches Ok(c) && c.staged_spec() == self.staged_spec().push(
                (OptionSetting {
                    option: spvc_compiler_option::SPVC_COMPILER_OPTION_MSL_SWIZZLE_TEXTURE_SAMPLES,
                    value: OptionValue::Bool(swizzle_texture_samples),
                }),
            ) && c.backend_spec() == self.backend_spec(),
    {
        let inner = self.inner.set_bool(
            spvc_compiler_option::SPVC_COMPILER_OPTION_MSL_SWIZZLE_TEXTURE_SAMPLES,
            swizzle_texture_samples,
        )?;
        Ok(MslCompiler { inner })
    }

    /// Stages the flag that pads fragment output components.
    pub fn pad_fragment_output_components(self, pad_fragment_output_components: bool) -> (r: Result<MslCompiler, Error>)
        ensures
            r matches Ok(c) && c.staged_spec() == self.staged_spec().push(
                (OptionSetting {
                    option: spvc_compiler_option::SPVC_COMPILER_OPTION_MSL_PAD_FRAGMENT_OUTPUT_COMPONENTS,
                    value: OptionValue::Bool(pad_fragment_output_components),
                }),
            ) && c.backend_spec() == self.backend_spec(),
    {
        let inner = self.inner.set_bool(
            spvc_compiler_option::SPVC_COMPILER_OPTION_MSL_PAD_FRAGMENT_OUTPUT_COMPONENTS,
            pad_fragment_output_components,
        )?;
        Ok(MslCompiler { inner })
    }

    /// Stages the flag that puts the tessellation domain origin in the lower left.
    pub fn tess_domain_origin_lower_left(self, tess_domain_origin_lower_left: bool) -> (r: Result<MslCompiler, Error>)
        ensures
            r matches Ok(c) && c.staged_spec() == self.staged_spec().push(
                (OptionSetting {
                    option: spvc_compiler_option::SPVC_COMPILER_OPTION_MSL_TESS_DOMAIN_ORIGIN_LOWER_LEFT,
                    value: OptionValue::Bool(tess_domain_origin_lower_left),
                }),
            ) && c.backend_spec() == self.backend_spec(),
    {
        let inner = self.inner.set_bool(
            spvc_compiler_option::SPVC_COMPILER_OPTION_MSL_TESS_DOMAIN_ORIGIN_LOWER_LEFT,
            tess_domain_origin_lower_left,
        )?;
        Ok(MslCompiler { inner })
    }

    /// Stages the flag that uses argument buffers.
    pub fn argument_buffers(self, argument_buffers: bool) -> (r: Result<MslCompiler, Error>)
        ensures
            r matches Ok(c) && c.staged_spec() == self.staged_spec().push(
                (OptionSetting {
                    option: spvc_compiler_option::SPVC_COMPILER_OPTION_MSL_ARGUMENT_BUFFERS,
                    value: OptionValue::Bool(argument_buffers),
                }),
            ) && c.backend_spec() == self.backend_spec(),
    {
        let inner = self.inner.set_bool(
            spvc_compiler_option::SPVC_COMPILER_OPTION_MSL_ARGUMENT_BUFFERS,
            argument_buffers,
        )?;
        Ok(MslCompiler { inner })
    }

    /// Stages the flag that uses native texture buffers.
    pub fn texture_buffer_native(self, texture_buffer_native: bool) -> (r: Result<MslCompiler, Error>)
        ensures
            r matches Ok(c) && c.staged_spec() == self.staged_spec().push(
                (OptionSetting {
                    option: spvc_compiler_option::SPVC_COMPILER_OPTION_MSL_TEXTURE_BUFFER_NATIVE,
                    value: OptionValue::Bool(texture_buffer_native),
                }),
            ) && c.backend_spec() == self.backend_spec(),
    {
        let inner = self.inner.set_bool(
            spvc_compiler_option::SPVC_COMPILER_OPTION_MSL_TEXTURE_BUFFER_NATIVE,
            texture_buffer_native,
        )?;
        Ok(MslCompiler { inner })
    }
}

impl From<MslCompiler> for GenericCompiler {
    /// Unwraps into the generic compiler.
    fn from(value: MslCompiler) -> (r: GenericCompiler) {
        value.inner
    }
}

impl vstd::std_specs::convert::FromSpecImpl<MslCompiler> for GenericCompiler {
    open spec fn obeys_from_spec() -> bool {
        true
    }

    open spec fn from_spec(value: MslCompiler) -> GenericCompiler {
        value.generic_spec()
    }
}

impl Compiler for MslCompiler {
    closed spec fn backend_spec(&self) -> spvc_backend {
        self.inner.backend_spec()
    }

    closed spec fn staged_spec(&self) -> Seq<OptionSetting> {
        self.inner.staged_spec()
    }

    /// The MSL compiler accepts the common options and the MSL options.
    open spec fn option_allowed(&self, option: spvc_compiler_option) -> bool {
        option.is_common_spec() || option.is_msl_spec()
    }

    fn set_uint(self, option: spvc_compiler_option, value: u32) -> (r: Result<Self, Error>) {
        let inner = self.inner.set_uint(option, value)?;
        Ok(MslCompiler { inner })
    }

    fn set_bool(self, option: spvc_compiler_option, value: bool) -> (r: Result<Self, Error>) {
        let inner = self.inner.set_bool(option, value)?;
        Ok(MslCompiler { inner })
    }
}

} // verus!
