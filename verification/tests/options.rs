use spirvcross::compiler::{
    spvc_backend, spvc_compiler_option, SPVC_COMPILER_OPTION_COMMON_BIT,
    SPVC_COMPILER_OPTION_GLSL_BIT, SPVC_COMPILER_OPTION_HLSL_BIT, SPVC_COMPILER_OPTION_MSL_BIT,
};

#[test]
fn backend_codes() {
    assert_eq!(spvc_backend::SPVC_BACKEND_NONE.value(), 0);
    assert_eq!(spvc_backend::SPVC_BACKEND_GLSL.value(), 1);
    assert_eq!(spvc_backend::SPVC_BACKEND_HLSL.value(), 2);
    assert_eq!(spvc_backend::SPVC_BACKEND_MSL.value(), 3);
    assert_eq!(spvc_backend::SPVC_BACKEND_CPP.value(), 4);
    assert_eq!(spvc_backend::SPVC_BACKEND_JSON.value(), 5);
}

#[test]
fn common_option_tags() {
    let o = spvc_compiler_option::SPVC_COMPILER_OPTION_FORCE_TEMPORARY;
    assert!(o.is_common());
    assert!(!o.is_glsl());
    assert!(!o.is_hlsl());
    assert!(!o.is_msl());
}

#[test]
fn glsl_option_tags() {
    let o = spvc_compiler_option::SPVC_COMPILER_OPTION_GLSL_VERSION;
    assert!(!o.is_common());
    assert!(o.is_glsl());
    assert!(!o.is_hlsl());
    assert!(!o.is_msl());
}

#[test]
fn hlsl_option_tags() {
    let o = spvc_compiler_option::SPVC_COMPILER_OPTION_HLSL_SHADER_MODEL;
    assert!(!o.is_common());
    assert!(!o.is_glsl());
    assert!(o.is_hlsl());
    assert!(!o.is_msl());
}

#[test]
fn msl_option_tags() {
    let o = spvc_compiler_option::SPVC_COMPILER_OPTION_MSL_VERSION;
    assert!(!o.is_common());
    assert!(!o.is_glsl());
    assert!(!o.is_hlsl());
    assert!(o.is_msl());
}

#[test]
fn option_codes_carry_their_family_bit() {
    assert_eq!(
        spvc_compiler_option::SPVC_COMPILER_OPTION_FORCE_TEMPORARY.value(),
        SPVC_COMPILER_OPTION_COMMON_BIT | 1
    );
    assert_eq!(
        spvc_compiler_option::SPVC_COMPILER_OPTION_GLSL_VERSION.value(),
        SPVC_COMPILER_OPTION_GLSL_BIT | 8
    );
    assert_eq!(
        spvc_compiler_option::SPVC_COMPILER_OPTION_GLSL_SUPPORT_NONZERO_BASE_INSTANCE.value(),
        SPVC_COMPILER_OPTION_GLSL_BIT | 5
    );
    assert_eq!(
        spvc_compiler_option::SPVC_COMPILER_OPTION_HLSL_SHADER_MODEL.value(),
        SPVC_COMPILER_OPTION_HLSL_BIT | 13
    );
    assert_eq!(
        spvc_compiler_option::SPVC_COMPILER_OPTION_MSL_VERSION.value(),
        SPVC_COMPILER_OPTION_MSL_BIT | 17
    );
    assert_eq!(
        spvc_compiler_option::SPVC_COMPILER_OPTION_EMIT_LINE_DIRECTIVES.value(),
        SPVC_COMPILER_OPTION_COMMON_BIT | 36
    );
    assert_eq!(
        spvc_compiler_option::SPVC_COMPILER_OPTION_FORCE_ZERO_INITIALIZED_VARIABLES.value(),
        SPVC_COMPILER_OPTION_COMMON_BIT | 53
    );
}

#[test]
fn nonzero_bit_test_matches_the_mask() {
    let options = [
        spvc_compiler_option::SPVC_COMPILER_OPTION_FLIP_VERTEX_Y,
        spvc_compiler_option::SPVC_COMPILER_OPTION_GLSL_ES,
        spvc_compiler_option::SPVC_COMPILER_OPTION_HLSL_ENABLE_16BIT_TYPES,
        spvc_compiler_option::SPVC_COMPILER_OPTION_MSL_ARGUMENT_BUFFERS,
    ];
    for o in options {
        assert_eq!(o.is_common(), o.value() & SPVC_COMPILER_OPTION_COMMON_BIT != 0);
        assert_eq!(o.is_glsl(), o.value() & SPVC_COMPILER_OPTION_GLSL_BIT != 0);
        assert_eq!(o.is_hlsl(), o.value() & SPVC_COMPILER_OPTION_HLSL_BIT != 0);
        assert_eq!(o.is_msl(), o.value() & SPVC_COMPILER_OPTION_MSL_BIT != 0);
    }
}
