use spirvcross::compiler::compile_output;
use spirvcross::{spvc_result, Context, Error, OwnedParsedIr};

#[test]
fn status_codes_map_to_the_closed_taxonomy() {
    assert_eq!(spvc_result::from_code(0), spvc_result::SPVC_SUCCESS);
    assert_eq!(spvc_result::from_code(-1), spvc_result::SPVC_ERROR_INVALID_SPIRV);
    assert_eq!(spvc_result::from_code(-2), spvc_result::SPVC_ERROR_UNSUPPORTED_SPIRV);
    assert_eq!(spvc_result::from_code(-3), spvc_result::SPVC_ERROR_OUT_OF_MEMORY);
    assert_eq!(spvc_result::from_code(-4), spvc_result::SPVC_ERROR_INVALID_ARGUMENT);
    assert_eq!(spvc_result::from_code(7), spvc_result::SPVC_ERROR_UNKNOWN);
    assert_eq!(spvc_result::from_code(-5), spvc_result::SPVC_ERROR_UNKNOWN);
}

#[test]
fn status_descriptions() {
    assert_eq!(spvc_result::SPVC_SUCCESS.description(), "Success");
    assert_eq!(spvc_result::SPVC_ERROR_INVALID_SPIRV.description(), "Invalid SPIR-V");
    assert_eq!(
        spvc_result::SPVC_ERROR_UNSUPPORTED_SPIRV.description(),
        "Unsupported SPIR-V"
    );
    assert_eq!(spvc_result::SPVC_ERROR_OUT_OF_MEMORY.description(), "Out of Memory");
    assert_eq!(
        spvc_result::SPVC_ERROR_INVALID_ARGUMENT.description(),
        "Invalid argument"
    );
    assert_eq!(spvc_result::SPVC_ERROR_UNKNOWN.description(), "Unknown");
}

#[test]
fn error_display_joins_description_and_message() {
    let e = Error {
        code: spvc_result::SPVC_ERROR_INVALID_SPIRV,
        err_msg: Some(String::from("bad magic number")),
    };
    assert_eq!(e.display_string(), "Invalid SPIR-V: bad magic number");
}

#[test]
fn error_display_without_message_is_the_description() {
    let e = Error { code: spvc_result::SPVC_ERROR_OUT_OF_MEMORY, err_msg: None };
    assert_eq!(e.display_string(), "Out of Memory");
}

#[test]
fn error_converts_from_and_back_to_a_status() {
    let e = Error::from(spvc_result::SPVC_ERROR_INVALID_ARGUMENT);
    assert_eq!(e.code, spvc_result::SPVC_ERROR_INVALID_ARGUMENT);
    assert!(e.err_msg.is_none());
    let code = spvc_result::from(e);
    assert_eq!(code, spvc_result::SPVC_ERROR_INVALID_ARGUMENT);
}

#[test]
fn success_never_becomes_an_error() {
    let ctx = Context::new();
    assert!(ctx.get_error(spvc_result::SPVC_SUCCESS).is_ok());
}

#[test]
fn a_failure_carries_the_recorded_diagnostic() {
    let mut ctx = Context::new();
    ctx.record_failure(String::from("expected a vertex shader"));
    let e = ctx
        .get_error(spvc_result::SPVC_ERROR_UNSUPPORTED_SPIRV)
        .unwrap_err();
    assert_eq!(e.code, spvc_result::SPVC_ERROR_UNSUPPORTED_SPIRV);
    assert_eq!(e.err_msg.as_deref(), Some("expected a vertex shader"));
}

#[test]
fn a_failure_with_an_empty_slot_carries_an_empty_diagnostic() {
    let ctx = Context::new();
    let e = ctx.get_error(spvc_result::SPVC_ERROR_OUT_OF_MEMORY).unwrap_err();
    assert_eq!(e.err_msg.as_deref(), Some(""));
}

#[test]
fn releasing_allocations_drops_the_diagnostics() {
    let mut ctx = Context::new();
    ctx.record_failure(String::from("stale diagnostic"));
    ctx.release_allocations();
    let e = ctx.get_error(spvc_result::SPVC_ERROR_INVALID_SPIRV).unwrap_err();
    assert_eq!(e.err_msg.as_deref(), Some(""));
}

#[test]
fn a_failure_after_registering_a_callback_still_reports_its_error() {
    let mut ctx = Context::new();
    ctx.set_error_callback();
    ctx.record_failure(String::from("callback saw this"));
    let e = ctx.get_error(spvc_result::SPVC_ERROR_INVALID_SPIRV).unwrap_err();
    assert_eq!(e.code, spvc_result::SPVC_ERROR_INVALID_SPIRV);
    assert_eq!(e.err_msg.as_deref(), Some("callback saw this"));
}

#[test]
fn a_failed_parse_outcome_is_a_structured_error() {
    let mut ctx = Context::new();
    ctx.record_failure(String::from("truncated stream"));
    let r = OwnedParsedIr::new(&mut ctx, spvc_result::SPVC_ERROR_INVALID_SPIRV);
    let e = r.err().unwrap();
    assert_eq!(e.code, spvc_result::SPVC_ERROR_INVALID_SPIRV);
    assert_eq!(e.err_msg.as_deref(), Some("truncated stream"));
    assert_eq!(e.display_string(), "Invalid SPIR-V: truncated stream");
}

#[test]
fn a_successful_parse_outcome_is_accepted() {
    let mut ctx = Context::new();
    let r = OwnedParsedIr::new(&mut ctx, spvc_result::SPVC_SUCCESS);
    assert!(r.is_ok());
}

#[test]
fn compile_output_decodes_utf8() {
    let s = compile_output("#version 450\nvoid main() {}\n".as_bytes());
    assert_eq!(s, "#version 450\nvoid main() {}\n");
    assert!(s.contains("#version 450"));
}

#[test]
fn compile_output_replaces_invalid_sequences() {
    let s = compile_output(&[0x61, 0xff, 0xfe, 0x62]);
    assert_eq!(s, "a\u{fffd}\u{fffd}b");
}

#[test]
fn compile_output_of_nothing_is_empty() {
    assert_eq!(compile_output(&[]), "");
}
