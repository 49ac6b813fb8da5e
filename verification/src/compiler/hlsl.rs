//! The HLSL compiler: a backend-specialized builder that exposes only the
//! option setters valid for the HLSL target, so that a mismatched option is
//! impossible rather than checked at run time.

use vstd::prelude::*;

use crate::compiler::Compiler;
use crate::compiler::GenericCompiler;
use crate::compiler::OptionSetting;
use crate::compiler::OptionValue;
use crate::compiler::spvc_backend;
use crate::compiler::spvc_compiler_option;
use crate::error::Error;

verus! {

/// Two distinct shader model requests stage distinct packed codes, as long as
/// the minor part stays below ten — the width the packing reserves for it —
/// so a shader model set on the compiler is observable in what reaches the
/// native layer.
pub proof fn lemma_shader_model_packing_injective(
    major1: u32,
    minor1: u32,
    major2: u32,
    minor2: u32,
)
    requires
        minor1 < 10,
        minor2 < 10,
        10 * major1 + minor1 == 10 * major2 + minor2,
    ensures
        major1 == major2,
        minor1 == minor2,
{
}

/// High Level Shading Language compiler.
pub struct HlslCompiler {
    inner: GenericCompiler,
}

impl HlslCompiler {
    /// The generic compiler this backend compiler wraps.
    pub closed spec fn generic_spec(&self) -> GenericCompiler {
        self.inner
    }

    /// Creates a new High Level Shading Language compiler with nothing staged yet.
    pub fn new() -> (r: HlslCompiler)
        ensures
            r.backend_spec() is SPVC_BACKEND_HLSL,
            r.staged_spec() == Seq::<OptionSetting>::empty(),
    {
        HlslCompiler { inner: GenericCompiler::new(spvc_backend::SPVC_BACKEND_HLSL) }
    }

    /// Unwraps into the generic compiler, keeping the backend and everything
    /// staged so far.
    pub fn into_generic(self) -> (r: GenericCompiler)
        ensures
            r == self.generic_spec(),
            r.backend_spec() == self.backend_spec(),
            r.staged_spec() == self.staged_spec(),
    {
        self.inner
    }

    /// Stages the HLSL shader model, given as a major and minor pair: the
    /// native option packs the pair into a single integer as ten times the
    /// major part plus the minor part.
    pub fn shader_model(self, major: u32, minor: u32) -> (r: Result<HlslCompiler, Error>)
        requires
            10 * major + minor <= u32::MAX,
        ensures
            r matches Ok(c) && c.staged_spec() == self.staged_spec().push(
                (OptionSetting {
                    option: spvc_compiler_option::SPVC_COMPILER_OPTION_HLSL_SHADER_MODEL,
                    value: OptionValue::Uint((10 * major + minor) as u32),
                }),
            ) && c.backend_spec() == self.backend_spec(),
    {
        let version: u32 = 10 * major + minor;
        let inner = self.inner.set_uint(
            spvc_compiler_option::SPVC_COMPILER_OPTION_HLSL_SHADER_MODEL,
            version,
        )?;
        Ok(HlslCompiler { inner })
    }

    /// Stages the flag that keeps point size compatibility.
    pub fn point_size_compat(self, point_size_compat: bool) -> (r: Result<HlslCompiler, Error>)
        ensures
            r matches Ok(c) && c.staged_spec() == self.staged_spec().push(
                (OptionSetting {
                    option: spvc_compiler_option::SPVC_COMPILER_OPTION_HLSL_POINT_SIZE_COMPAT,
                    value: OptionValue::Bool(point_size_compat),
                }),
            ) && c.backend_spec() == self.backend_spec(),
    {
        let inner = self.inner.set_bool(
            spvc_compiler_option::SPVC_COMPILER_OPTION_HLSL_POINT_SIZE_COMPAT,
            point_size_compat,
        )?;
        Ok(HlslCompiler { inner })
    }

    /// Stages the flag that keeps point coordinate compatibility.
    pub fn point_coord_compat(self, point_coord_compat: bool) -> (r: Result<HlslCompiler, Error>)
        ensures
            r matches Ok(c) && c.staged_spec() == self.staged_spec().push(
                (OptionSetting {
                    option: spvc_compiler_option::SPVC_COMPILER_OPTION_HLSL_POINT_COORD_COMPAT,
                    value: OptionValue::Bool(point_coord_compat),
                }),
            ) && c.backend_spec() == self.backend_spec(),
    {
        let inner = self.inner.set_bool(
            spvc_compiler_option::SPVC_COMPILER_OPTION_HLSL_POINT_COORD_COMPAT,
            point_coord_compat,
        )?;
        Ok(HlslCompiler { inner })
    }

    /// Stages the flag that supports a nonzero base vertex and base instance.
    pub fn support_nonzero_base_vertex_base_instance(self, support_nonzero_base_vertex_base_instance: bool) -> (r: Result<HlslCompiler, Error>)
        ensures
            r matches Ok(c) && c.staged_spec() == self.staged_spec().push(
                (OptionSetting {
                    option: spvc_compiler_option::SPVC_COMPILER_OPTION_HLSL_SUPPORT_NONZERO_BASE_VERTEX_BASE_INSTANCE,
                    value: OptionValue::Bool(support_nonzero_base_vertex_base_instance),
                }),
            ) && c.backend_spec() == self.backend_spec(),
    {
        let inner = self.inner.set_bool(
            spvc_compiler_option::SPVC_COMPILER_OPTION_HLSL_SUPPORT_NONZERO_BASE_VERTEX_BASE_INSTANCE,
            support_nonzero_base_vertex_base_instance,
        )?;
        Ok(HlslCompiler { inner })
    }

    /// Stages the flag that forces storage buffers to be unordered access views.
    pub fn force_storage_buffer_as_uav(self, force_storage_buffer_as_uav: bool) -> (r: Result<HlslCompiler, Error>)
        ensures
            r matches Ok(c) && c.staged_spec() == self.staged_spec().push(
                (OptionSetting {
                    option: spvc_compiler_option::SPVC_COMPILER_OPTION_HLSL_FORCE_STORAGE_BUFFER_AS_UAV,
                    value: OptionValue::Bool(force_storage_buffer_as_uav),
                }),
            ) && c.backend_spec() == self.backend_spec(),
    {
        let inner = self.inner.set_bool(
            spvc_compiler_option::SPVC_COMPILER_OPTION_HLSL_FORCE_STORAGE_BUFFER_AS_UAV,
            force_storage_buffer_as_uav,
        )?;
        Ok(HlslCompiler { inner })
    }

    /// Stages the flag that reads a nonwritable unordered access view texture as a shader resource view.
    pub fn nonwritable_uav_texture_as_srv(self, nonwritable_uav_texture_as_srv: bool) -> (r: Result<HlslCompiler, Error>)
        ensures
            r matches Ok(c) && c.staged_spec() == self.staged_spec().push(
                (OptionSetting {
                    option: spvc_compiler_option::SPVC_COMPILER_OPTION_HLSL_NONWRITABLE_UAV_TEXTURE_AS_SRV,
                    value: OptionValue::Bool(nonwritable_uav_texture_as_srv),
                }),
            ) && c.backend_spec() == self.backend_spec(),
    {
        let inner = self.inner.set_bool(
            spvc_compiler_option::SPVC_COMPILER_OPTION_HLSL_NONWRITABLE_UAV_TEXTURE_AS_SRV,
            nonwritable_uav_texture_as_srv,
        )?;
        Ok(HlslCompiler { inner })
    }

    /// Stages the flag that enables sixteen-bit types.
    pub fn enable_16bit_types(self, enable_16bit_types: bool) -> (r: Result<HlslCompiler, Error>)
        ensures
            r matches Ok(c) && c.staged_spec() == self.staged_spec().push(
                (OptionSetting {
                    option: spvc_compiler_option::SPVC_COMPILER_OPTION_HLSL_ENABLE_16BIT_TYPES,
                    value: OptionValue::Bool(enable_16bit_types),
                }),
            ) && c.backend_spec() == self.backend_spec(),
    {
        let inner = self.inner.set_bool(
            spvc_compiler_option::SPVC_COMPILER_OPTION_HLSL_ENABLE_16BIT_TYPES,
            enable_16bit_types,
        )?;
        Ok(HlslCompiler { inner })
    }

    /// Stages the flag that flattens matrix vertex input semantics.
    pub fn flatten_matrix_vertex_input_semantics(self, flatten_matrix_vertex_input_semantics: bool) -> (r: Result<HlslCompiler, Error>)
        ensures
            r matches Ok(c) && c.staged_spec() == self.staged_spec().push(
                (OptionSetting {
                    option: spvc_compiler_option::SPVC_COMPILER_OPTION_HLSL_FLATTEN_MATRIX_VERTEX_INPUT_SEMANTICS,
                    value: OptionValue::Bool(flatten_matrix_vertex_input_semantics),
                }),
            ) && c.backend_spec() == self.backend_spec(),
    {
        let inner = self.inner.set_bool(
            spvc_compiler_option::SPVC_COMPILER_OPTION_HLSL_FLATTEN_MATRIX_VERTEX_INPUT_SEMANTICS,
            flatten_matrix_vertex_input_semantics,
        )?;
        Ok(HlslCompiler { inner })
    }
}

impl From<HlslCompiler> for GenericCompiler {
    /// Unwraps into the generic compiler.
    fn from(value: HlslCompiler) -> (r: GenericCompiler) {
        value.inner
    }
}

impl vstd::std_specs::convert::FromSpecImpl<HlslCompiler> for GenericCompiler {
    open spec fn obeys_from_spec() -> bool {
        true
    }

    open spec fn from_spec(value: HlslCompiler) -> GenericCompiler {
        value.generic_spec()
    }
}

impl Compiler for HlslCompiler {
    closed spec fn backend_spec(&self) -> spvc_backend {
        self.inner.backend_spec()
    }

    closed spec fn staged_spec(&self) -> Seq<OptionSetting> {
        self.inner.staged_spec()
    }

    /// The HLSL compiler accepts the common options and the HLSL options.
    open spec fn option_allowed(&self, option: spvc_compiler_option) -> bool {
        option.is_common_spec() || option.is_hlsl_spec()
    }

    fn set_uint(self, option: spvc_compiler_option, value: u32) -> (r: Result<Self, Error>) {
        let inner = self.inner.set_uint(option, value)?;
        Ok(HlslCompiler { inner })
    }

    fn set_bool(self, option: spvc_compiler_option, value: bool) -> (r: Result<Self, Error>) {
        let inner = self.inner.set_bool(option, value)?;
        Ok(HlslCompiler { inner })
    }
}

} // verus!
