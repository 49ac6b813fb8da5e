//! The GLSL compiler: a backend-specialized builder that exposes only the
//! option setters valid for the GLSL target, so that a mismatched option is
//! impossible rather than checked at run time.

use vstd::prelude::*;

use crate::compiler::Compiler;
use crate::compiler::GenericCompiler;
use crate::compiler::OptionSetting;
use crate::compiler::OptionValue;
use crate::compiler::spvc_backend;
use crate::compiler::spvc_compiler_option;
use crate::error::Error;

verus! {

/// The sub-options staged along with enabling the ES dialect: the default
/// precision, where one is given, of floating point and integer values.
#[derive(Debug, Clone, Copy, PartialEq, Eq, Structural)]
#[non_exhaustive]
pub struct EsOptions {
    pub default_float_precision_highp: Option<u32>,
    pub default_int_precision_highp: Option<u32>,
}

impl Default for EsOptions {
    /// ES options that stage no precision sub-option.
    fn default() -> (r: EsOptions)
        ensures
            r.default_float_precision_highp is None,
            r.default_int_precision_highp is None,
    {
        EsOptions { default_float_precision_highp: None, default_int_precision_highp: None }
    }
}

/// The settings that a request for the ES dialect stages: the ES flag itself,
/// followed by each precision sub-option that is given; a request to leave
/// the dialect stages the ES flag as false and nothing else.
pub open spec fn es_settings_spec(es_options: Option<EsOptions>) -> Seq<OptionSetting> {
    match es_options {
        None => seq![
            (OptionSetting {
                option: spvc_compiler_option::SPVC_COMPILER_OPTION_GLSL_ES,
                value: OptionValue::Bool(false),
            }),
        ],
        Some(o) => seq![
            (OptionSetting {
                option: spvc_compiler_option::SPVC_COMPILER_OPTION_GLSL_ES,
                value: OptionValue::Bool(true),
            }),
        ] + (match o.default_float_precision_highp {
            Some(p) => seq![
                (OptionSetting {
                    option:
                        spvc_compiler_option::SPVC_COMPILER_OPTION_GLSL_ES_DEFAULT_FLOAT_PRECISION_HIGHP,
                    value: OptionValue::Uint(p),
                }),
            ],
            None => Seq::empty(),
        }) + (match o.default_int_precision_highp {
            Some(p) => seq![
                (OptionSetting {
                    option:
                        spvc_compiler_option::SPVC_COMPILER_OPTION_GLSL_ES_DEFAULT_INT_PRECISION_HIGHP,
                    value: OptionValue::Uint(p),
                }),
            ],
            None => Seq::empty(),
        }),
    }
}

/// Two distinct version requests stage distinct packed codes, as long as the
/// minor part stays below ten — the width the packing reserves for it — so a
/// version set on the compiler is observable in what reaches the native
/// layer.
pub proof fn lemma_glsl_version_packing_injective(
    major1: u32,
    minor1: u32,
    major2: u32,
    minor2: u32,
)
    requires
        minor1 < 10,
        minor2 < 10,
        100 * major1 + 10 * minor1 == 100 * major2 + 10 * minor2,
    ensures
        major1 == major2,
        minor1 == minor2,
{
}

/// Requesting the ES dialect and leaving it stage observably different
/// settings, whatever the sub-options: the first staged setting differs.
pub proof fn lemma_es_request_observable(es_options: Option<EsOptions>)
    requires
        es_options is Some,
    ensures
        es_settings_spec(es_options) != es_settings_spec(None),
{
    assert(es_settings_spec(es_options)[0].value == OptionValue::Bool(true));
    assert(es_settings_spec(None)[0].value == OptionValue::Bool(false));
}

/// OpenGL Shading Language compiler.
pub struct GlslCompiler {
    inner: GenericCompiler,
}

impl GlslCompiler {
    /// The generic compiler this backend compiler wraps.
    pub closed spec fn generic_spec(&self) -> GenericCompiler {
        self.inner
    }

    /// Creates a new GLSL compiler with nothing staged yet.
    pub fn new() -> (r: GlslCompiler)
        ensures
            r.backend_spec() is SPVC_BACKEND_GLSL,
            r.staged_spec() == Seq::<OptionSetting>::empty(),
    {
        GlslCompiler { inner: GenericCompiler::new(spvc_backend::SPVC_BACKEND_GLSL) }
    }

    /// Unwraps into the generic compiler, keeping the backend and everything
    /// staged so far.
    pub fn into_generic(self) -> (r: GenericCompiler)
        ensures
            r == self.generic_spec(),
            r.backend_spec() == self.backend_spec(),
            r.staged_spec() == self.staged_spec(),
    {
        self.inner
    }

    /// Stages the GLSL language version, given as a major and minor pair:
    /// the native option packs the pair into a single integer as one hundred
    /// times the major part plus ten times the minor part.
    pub fn version(self, major: u32, minor: u32) -> (r: Result<GlslCompiler, Error>)
        requires
            100 * major + 10 * minor <= u32::MAX,
        ensures
            r matches Ok(c) && c.staged_spec() == self.staged_spec().push(
                (OptionSetting {
                    option: spvc_compiler_option::SPVC_COMPILER_OPTION_GLSL_VERSION,
                    value: OptionValue::Uint((100 * major + 10 * minor) as u32),
                }),
            ) && c.backend_spec() == self.backend_spec(),
    {
        let version: u32 = 100 * major + 10 * minor;
        let inner = self.inner.set_uint(
            spvc_compiler_option::SPVC_COMPILER_OPTION_GLSL_VERSION,
            version,
        )?;
        Ok(GlslCompiler { inner })
    }

    /// Stages the ES dialect: enabled with the given sub-options, or
    /// disabled when none are given.
    pub fn es(self, es_options: Option<EsOptions>) -> (r: Result<GlslCompiler, Error>)
        ensures
            r matches Ok(c) && c.staged_spec() == self.staged_spec() + es_settings_spec(es_options)
                && c.backend_spec() == self.backend_spec(),
    {
        match es_options {
            Some(o) => {
                let mut inner = self.inner.set_bool(
                    spvc_compiler_option::SPVC_COMPILER_OPTION_GLSL_ES,
                    true,
                )?;
                if let Some(p) = o.default_float_precision_highp {
                    inner = inner.set_uint(
                        spvc_compiler_option::SPVC_COMPILER_OPTION_GLSL_ES_DEFAULT_FLOAT_PRECISION_HIGHP,
                        p,
                    )?;
                }
                if let Some(p) = o.default_int_precision_highp {
                    inner = inner.set_uint(
                        spvc_compiler_option::SPVC_COMPILER_OPTION_GLSL_ES_DEFAULT_INT_PRECISION_HIGHP,
                        p,
                    )?;
                }
                let c = GlslCompiler { inner };
                assert(c.staged_spec() =~= self.staged_spec() + es_settings_spec(es_options));
                Ok(c)
            },
            None => {
                let inner = self.inner.set_bool(
                    spvc_compiler_option::SPVC_COMPILER_OPTION_GLSL_ES,
                    false,
                )?;
                let c = GlslCompiler { inner };
                assert(c.staged_spec() =~= self.staged_spec() + es_settings_spec(es_options));
                Ok(c)
            },
        }
    }

    /// Stages the flag that keeps Vulkan semantics in the generated text.
    pub fn vulkan_semantics(self, vulkan_semantics: bool) -> (r: Result<GlslCompiler, Error>)
        ensures
            r matches Ok(c) && c.staged_spec() == self.staged_spec().push(
                (OptionSetting {
                    option: spvc_compiler_option::SPVC_COMPILER_OPTION_GLSL_VULKAN_SEMANTICS,
                    value: OptionValue::Bool(vulkan_semantics),
                }),
            ) && c.backend_spec() == self.backend_spec(),
    {
        let inner = self.inner.set_bool(
            spvc_compiler_option::SPVC_COMPILER_OPTION_GLSL_VULKAN_SEMANTICS,
            vulkan_semantics,
        )?;
        Ok(GlslCompiler { inner })
    }

    /// Stages the flag that supports a nonzero base instance.
    pub fn support_nonzero_base_instance(self, support_nonzero_base_instance: bool) -> (r: Result<
        GlslCompiler,
        Error,
    >)
        ensures
            r matches Ok(c) && c.staged_spec() == self.staged_spec().push(
                (OptionSetting {
                    option:
                        spvc_compiler_option::SPVC_COMPILER_OPTION_GLSL_SUPPORT_NONZERO_BASE_INSTANCE,
                    value: OptionValue::Bool(support_nonzero_base_instance),
                }),
            ) && c.backend_spec() == self.backend_spec(),
    {
        let inner = self.inner.set_bool(
            spvc_compiler_option::SPVC_COMPILER_OPTION_GLSL_SUPPORT_NONZERO_BASE_INSTANCE,
            support_nonzero_base_instance,
        )?;
        Ok(GlslCompiler { inner })
    }

    /// Stages the flag that enables the 420pack extension.
    pub fn enable_420_pack_extension(self, enable_420_pack_extension: bool) -> (r: Result<
        GlslCompiler,
        Error,
    >)
        ensures
            r matches Ok(c) && c.staged_spec() == self.staged_spec().push(
                (OptionSetting {
                    option:
                        spvc_compiler_option::SPVC_COMPILER_OPTION_GLSL_ENABLE_420PACK_EXTENSION,
                    value: OptionValue::Bool(enable_420_pack_extension),
                }),
            ) && c.backend_spec() == self.backend_spec(),
    {
        let inner = self.inner.set_bool(
            spvc_compiler_option::SPVC_COMPILER_OPTION_GLSL_ENABLE_420PACK_EXTENSION,
            enable_420_pack_extension,
        )?;
        Ok(GlslCompiler { inner })
    }

    /// Stages the flag that emits a push constant as a uniform buffer.
    pub fn emit_push_constant_as_uniform_buffer(
        self,
        emit_push_constant_as_uniform_buffer: bool,
    ) -> (r: Result<GlslCompiler, Error>)
        ensures
            r matches Ok(c) && c.staged_spec() == self.staged_spec().push(
                (OptionSetting {
                    option:
                        spvc_compiler_option::SPVC_COMPILER_OPTION_GLSL_EMIT_PUSH_CONSTANT_AS_UNIFORM_BUFFER,
                    value: OptionValue::Bool(emit_push_constant_as_uniform_buffer),
                }),
            ) && c.backend_spec() == self.backend_spec(),
    {
        let inner = self.inner.set_bool(
            spvc_compiler_option::SPVC_COMPILER_OPTION_GLSL_EMIT_PUSH_CONSTANT_AS_UNIFORM_BUFFER,
            emit_push_constant_as_uniform_buffer,
        )?;
        Ok(GlslCompiler { inner })
    }

    /// Stages the flag that emits a uniform buffer as plain uniforms.
    pub fn emit_uniform_buffer_as_plain_uniforms(
        self,
        emit_uniform_buffer_as_plain_uniforms: bool,
    ) -> (r: Result<GlslCompiler, Error>)
        ensures
            r matches Ok(c) && c.staged_spec() == self.staged_spec().push(
                (OptionSetting {
                    option:
                        spvc_compiler_option::SPVC_COMPILER_OPTION_GLSL_EMIT_UNIFORM_BUFFER_AS_PLAIN_UNIFORMS,
                    value: OptionValue::Bool(emit_uniform_buffer_as_plain_uniforms),
                }),
            ) && c.backend_spec() == self.backend_spec(),
    {
        let inner = self.inner.set_bool(
            spvc_compiler_option::SPVC_COMPILER_OPTION_GLSL_EMIT_UNIFORM_BUFFER_AS_PLAIN_UNIFORMS,
            emit_uniform_buffer_as_plain_uniforms,
        )?;
        Ok(GlslCompiler { inner })
    }

    /// Stages the flag that flattens input and output blocks.
    pub fn force_flattened_io_blocks(self, force_flattened_io_blocks: bool) -> (r: Result<
        GlslCompiler,
        Error,
    >)
        ensures
            r matches Ok(c) && c.staged_spec() == self.staged_spec().push(
                (OptionSetting {
                    option:
                        spvc_compiler_option::SPVC_COMPILER_OPTION_GLSL_FORCE_FLATTENED_IO_BLOCKS,
                    value: OptionValue::Bool(force_flattened_io_blocks),
                }),
            ) && c.backend_spec() == self.backend_spec(),
    {
        let inner = self.inner.set_bool(
            spvc_compiler_option::SPVC_COMPILER_OPTION_GLSL_FORCE_FLATTENED_IO_BLOCKS,
            force_flattened_io_blocks,
        )?;
        Ok(GlslCompiler { inner })
    }

    /// Stages the number of multiview views.
    pub fn ovr_multiview_view_count(self, ovr_multiview_view_count: u32) -> (r: Result<
        GlslCompiler,
        Error,
    >)
        ensures
            r matches Ok(c) && c.staged_spec() == self.staged_spec().push(
                (OptionSetting {
                    option:
                        spvc_compiler_option::SPVC_COMPILER_OPTION_GLSL_OVR_MULTIVIEW_VIEW_COUNT,
                    value: OptionValue::Uint(ovr_multiview_view_count),
                }),
            ) && c.backend_spec() == self.backend_spec(),
    {
        let inner = self.inner.set_uint(
            spvc_compiler_option::SPVC_COMPILER_OPTION_GLSL_OVR_MULTIVIEW_VIEW_COUNT,
            ovr_multiview_view_count,
        )?;
        Ok(GlslCompiler { inner })
    }

    /// Stages the flag that works around row-major matrix loads.
    pub fn enable_row_major_load_workaround(self, enable_row_major_load_workaround: bool) -> (r:
        Result<GlslCompiler, Error>)
        ensures
            r matches Ok(c) && c.staged_spec() == self.staged_spec().push(
                (OptionSetting {
                    option:
                        spvc_compiler_option::SPVC_COMPILER_OPTION_GLSL_ENABLE_ROW_MAJOR_LOAD_WORKAROUND,
                    value: OptionValue::Bool(enable_row_major_load_workaround),
                }),
            ) && c.backend_spec() == self.backend_spec(),
    {
        let inner = self.inner.set_bool(
            spvc_compiler_option::SPVC_COMPILER_OPTION_GLSL_ENABLE_ROW_MAJOR_LOAD_WORKAROUND,
            enable_row_major_load_workaround,
        )?;
        Ok(GlslCompiler { inner })
    }
}

impl From<GlslCompiler> for GenericCompiler {
    /// Unwraps into the generic compiler.
    fn from(value: GlslCompiler) -> (r: GenericCompiler) {
        value.inner
    }
}

impl vstd::std_specs::convert::FromSpecImpl<GlslCompiler> for GenericCompiler {
    open spec fn obeys_from_spec() -> bool {
        true
    }

    open spec fn from_spec(value: GlslCompiler) -> GenericCompiler {
        value.generic_spec()
    }
}

impl Compiler for GlslCompiler {
    closed spec fn backend_spec(&self) -> spvc_backend {
        self.inner.backend_spec()
    }

    closed spec fn staged_spec(&self) -> Seq<OptionSetting> {
        self.inner.staged_spec()
    }

    /// The GLSL compiler accepts the common options and the GLSL options.
    open spec fn option_allowed(&self, option: spvc_compiler_option) -> bool {
        option.is_common_spec() || option.is_glsl_spec()
    }

    fn set_uint(self, option: spvc_compiler_option, value: u32) -> (r: Result<Self, Error>) {
        let inner = self.inner.set_uint(option, value)?;
        Ok(GlslCompiler { inner })
    }

    fn set_bool(self, option: spvc_compiler_option, value: bool) -> (r: Result<Self, Error>) {
        let inner = self.inner.set_bool(option, value)?;
        Ok(GlslCompiler { inner })
    }
}

} // verus!
