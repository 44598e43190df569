use callm::utils::{detect_format, no_loader_error, FormatDecision, LoaderFormat};
use callm::error::CallmError;

#[test]
fn quantized_extension_selects_the_quantized_loader() {
    assert_eq!(
        detect_format("models/tiny.gguf", true),
        FormatDecision::Use(LoaderFormat::Gguf)
    );
}

#[test]
fn shard_extension_selects_the_shard_loader() {
    assert_eq!(
        detect_format("models/model.safetensors", true),
        FormatDecision::Use(LoaderFormat::Safetensors)
    );
}

#[test]
fn directories_select_the_shard_loader() {
    assert_eq!(
        detect_format("models/anything.gguf", false),
        FormatDecision::Use(LoaderFormat::Safetensors)
    );
    assert_eq!(
        detect_format("models/plain-dir", false),
        FormatDecision::Use(LoaderFormat::Safetensors)
    );
}

#[test]
fn legacy_extension_is_recognized_but_unsupported() {
    assert_eq!(detect_format("old/model.ggml", true), FormatDecision::Unsupported);
}

#[test]
fn unrecognized_extension_asks_for_a_parent_retry() {
    assert_eq!(detect_format("m/model.bin", true), FormatDecision::RetryParent);
    assert_eq!(detect_format("m/model", true), FormatDecision::RetryParent);
    // the extension must be a real suffix: a dot elsewhere does not count
    assert_eq!(detect_format("m/x.gguf.bak", true), FormatDecision::RetryParent);
}

#[test]
fn no_loader_error_names_the_failure() {
    match no_loader_error() {
        CallmError::LoaderFail(msg) => assert_eq!(msg, "No suitable loader found"),
        other => panic!("expected a loader failure, got {:?}", other),
    }
}
