use spirvcross::compiler::glsl::{EsOptions, GlslCompiler};
use spirvcross::compiler::hlsl::HlslCompiler;
use spirvcross::compiler::msl::{spvc_msl_platform, MslCompiler};
use spirvcross::compiler::{
    Compiler, GenericCompiler, OptionSetting, OptionValue, spvc_backend, spvc_compiler_option,
};
use spirvcross::{spvc_capture_mode, spvc_result, Context, OwnedParsedIr, ParsedIr};

fn setting(option: spvc_compiler_option, value: OptionValue) -> OptionSetting {
    OptionSetting { option, value }
}

#[test]
fn glsl_version_packs_major_and_minor() {
    let c = GlslCompiler::new().version(4, 5).unwrap();
    assert_eq!(
        c.into_generic().settings().as_slice(),
        &[setting(
            spvc_compiler_option::SPVC_COMPILER_OPTION_GLSL_VERSION,
            OptionValue::Uint(450)
        )]
    );
}

#[test]
fn glsl_es_with_suboptions_stages_each_given_precision() {
    let mut es = EsOptions::default();
    es.default_float_precision_highp = Some(1);
    let c = GlslCompiler::new().es(Some(es)).unwrap();
    assert_eq!(
        c.into_generic().settings().as_slice(),
        &[
            setting(
                spvc_compiler_option::SPVC_COMPILER_OPTION_GLSL_ES,
                OptionValue::Bool(true)
            ),
            setting(
                spvc_compiler_option::SPVC_COMPILER_OPTION_GLSL_ES_DEFAULT_FLOAT_PRECISION_HIGHP,
                OptionValue::Uint(1)
            ),
        ]
    );
}

#[test]
fn glsl_es_requests_stage_observably_different_settings() {
    let enabled = GlslCompiler::new().es(Some(EsOptions::default())).unwrap();
    let disabled = GlslCompiler::new().es(None).unwrap();
    let enabled = enabled.into_generic();
    let disabled = disabled.into_generic();
    assert_ne!(enabled.settings(), disabled.settings());
    assert_eq!(
        disabled.settings().as_slice(),
        &[setting(
            spvc_compiler_option::SPVC_COMPILER_OPTION_GLSL_ES,
            OptionValue::Bool(false)
        )]
    );
}

#[test]
fn glsl_chain_stages_in_call_order() {
    let c = GlslCompiler::new()
        .version(4, 5)
        .unwrap()
        .vulkan_semantics(false)
        .unwrap()
        .force_temporary(true)
        .unwrap();
    assert_eq!(
        c.into_generic().settings().as_slice(),
        &[
            setting(
                spvc_compiler_option::SPVC_COMPILER_OPTION_GLSL_VERSION,
                OptionValue::Uint(450)
            ),
            setting(
                spvc_compiler_option::SPVC_COMPILER_OPTION_GLSL_VULKAN_SEMANTICS,
                OptionValue::Bool(false)
            ),
            setting(
                spvc_compiler_option::SPVC_COMPILER_OPTION_FORCE_TEMPORARY,
                OptionValue::Bool(true)
            ),
        ]
    );
}

#[test]
fn hlsl_shader_model_packs_major_and_minor() {
    let c = HlslCompiler::new().shader_model(5, 1).unwrap();
    assert_eq!(
        c.into_generic().settings().as_slice(),
        &[setting(
            spvc_compiler_option::SPVC_COMPILER_OPTION_HLSL_SHADER_MODEL,
            OptionValue::Uint(51)
        )]
    );
}

#[test]
fn hlsl_setter_stages_its_own_option() {
    let c = HlslCompiler::new().point_size_compat(true).unwrap();
    assert_eq!(
        c.into_generic().settings().as_slice(),
        &[setting(
            spvc_compiler_option::SPVC_COMPILER_OPTION_HLSL_POINT_SIZE_COMPAT,
            OptionValue::Bool(true)
        )]
    );
}

#[test]
fn msl_version_packs_major_and_minor() {
    let c = MslCompiler::new().version(2, 1).unwrap();
    assert_eq!(
        c.into_generic().settings().as_slice(),
        &[setting(
            spvc_compiler_option::SPVC_COMPILER_OPTION_MSL_VERSION,
            OptionValue::Uint(20100)
        )]
    );
}

#[test]
fn msl_platform_stages_the_platform_code() {
    assert_eq!(spvc_msl_platform::SPVC_MSL_PLATFORM_IOS.value(), 0);
    assert_eq!(spvc_msl_platform::SPVC_MSL_PLATFORM_MACOS.value(), 1);
    let c = MslCompiler::new()
        .platform(spvc_msl_platform::SPVC_MSL_PLATFORM_MACOS)
        .unwrap();
    assert_eq!(
        c.into_generic().settings().as_slice(),
        &[setting(
            spvc_compiler_option::SPVC_COMPILER_OPTION_MSL_PLATFORM,
            OptionValue::Uint(1)
        )]
    );
}

#[test]
fn msl_buffer_index_setter_stages_the_index() {
    let c = MslCompiler::new().aux_buffer_index(7).unwrap();
    assert_eq!(
        c.into_generic().settings().as_slice(),
        &[setting(
            spvc_compiler_option::SPVC_COMPILER_OPTION_MSL_AUX_BUFFER_INDEX,
            OptionValue::Uint(7)
        )]
    );
}

#[test]
fn generic_compiler_stages_any_option() {
    let c = GenericCompiler::new(spvc_backend::SPVC_BACKEND_NONE)
        .set_uint(spvc_compiler_option::SPVC_COMPILER_OPTION_MSL_VERSION, 20000)
        .unwrap()
        .set_bool(spvc_compiler_option::SPVC_COMPILER_OPTION_GLSL_ES, true)
        .unwrap();
    assert_eq!(c.backend(), spvc_backend::SPVC_BACKEND_NONE);
    assert_eq!(
        c.settings().as_slice(),
        &[
            setting(
                spvc_compiler_option::SPVC_COMPILER_OPTION_MSL_VERSION,
                OptionValue::Uint(20000)
            ),
            setting(
                spvc_compiler_option::SPVC_COMPILER_OPTION_GLSL_ES,
                OptionValue::Bool(true)
            ),
        ]
    );
}

#[test]
fn common_setters_reach_every_backend() {
    let g = GlslCompiler::new().flip_vertex_y(true).unwrap();
    let h = HlslCompiler::new().flip_vertex_y(true).unwrap();
    let m = MslCompiler::new().flip_vertex_y(true).unwrap();
    let expected = [setting(
        spvc_compiler_option::SPVC_COMPILER_OPTION_FLIP_VERTEX_Y,
        OptionValue::Bool(true),
    )];
    assert_eq!(g.into_generic().settings().as_slice(), &expected);
    assert_eq!(h.into_generic().settings().as_slice(), &expected);
    assert_eq!(m.into_generic().settings().as_slice(), &expected);
}

#[test]
fn backends_are_kept_by_the_builders() {
    assert_eq!(
        GlslCompiler::new().into_generic().backend(),
        spvc_backend::SPVC_BACKEND_GLSL
    );
    assert_eq!(
        HlslCompiler::new().into_generic().backend(),
        spvc_backend::SPVC_BACKEND_HLSL
    );
    assert_eq!(
        MslCompiler::new().into_generic().backend(),
        spvc_backend::SPVC_BACKEND_MSL
    );
}

#[test]
fn two_borrowed_views_feed_two_compilers() {
    let mut ctx = Context::new();
    let owned = OwnedParsedIr::new(&mut ctx, spvc_result::SPVC_SUCCESS).unwrap();

    let first = ParsedIr::from(&owned);
    let (c1, mode1) = GenericCompiler::with_ir(spvc_backend::SPVC_BACKEND_GLSL, first);
    assert_eq!(mode1, spvc_capture_mode::SPVC_CAPTURE_MODE_TAKE_OWNERSHIP);
    assert!(c1.settings().is_empty());

    let second = ParsedIr::from(&owned);
    let (c2, mode2) = GenericCompiler::with_ir(spvc_backend::SPVC_BACKEND_HLSL, second);
    assert_eq!(mode2, spvc_capture_mode::SPVC_CAPTURE_MODE_TAKE_OWNERSHIP);
    assert_eq!(c2.backend(), spvc_backend::SPVC_BACKEND_HLSL);
}

#[test]
fn owned_representation_is_captured_by_copy() {
    let mut ctx = Context::new();
    let owned = OwnedParsedIr::new(&mut ctx, spvc_result::SPVC_SUCCESS).unwrap();
    let ir = ParsedIr::from(owned);
    assert_eq!(ir.mode(), spvc_capture_mode::SPVC_CAPTURE_MODE_COPY);
    let (_, mode) = GenericCompiler::with_ir(spvc_backend::SPVC_BACKEND_MSL, ir);
    assert_eq!(mode, spvc_capture_mode::SPVC_CAPTURE_MODE_COPY);
}

#[test]
fn glsl_plan_for_version_450_without_vulkan_semantics() {
    let c = GlslCompiler::new()
        .version(4, 5)
        .unwrap()
        .es(None)
        .unwrap()
        .vulkan_semantics(false)
        .unwrap();
    assert_eq!(
        c.into_generic().settings().as_slice(),
        &[
            setting(
                spvc_compiler_option::SPVC_COMPILER_OPTION_GLSL_VERSION,
                OptionValue::Uint(450)
            ),
            setting(
                spvc_compiler_option::SPVC_COMPILER_OPTION_GLSL_ES,
                OptionValue::Bool(false)
            ),
            setting(
                spvc_compiler_option::SPVC_COMPILER_OPTION_GLSL_VULKAN_SEMANTICS,
                OptionValue::Bool(false)
            ),
        ]
    );
}
