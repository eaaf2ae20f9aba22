use clai::schema::{escape_unescaped_control_chars_in_json_strings, frame_model_text};
use clai::error::AppError;

#[test]
fn escapes_controls_only_inside_strings() {
    let t = "{\"a\": \"x\ny\u{1b}z\"}\n";
    assert_eq!(
        escape_unescaped_control_chars_in_json_strings(t),
        "{\"a\": \"x\\u000ay\\u001bz\"}\n"
    );
}

#[test]
fn keeps_existing_escapes() {
    let t = r#"{"a": "q\"\u0041\n"}"#;
    assert_eq!(escape_unescaped_control_chars_in_json_strings(t), t);
}

#[test]
fn frames_embedded_object() {
    let f = frame_model_text("Here is the command:\n{\"program\": \"ls\"}\ntail");
    assert_eq!(f.trimmed, "Here is the command:\n{\"program\": \"ls\"}\ntail");
    assert!(f.escaped.is_none());
    assert_eq!(f.object.unwrap(), "{\"program\": \"ls\"}");
}

#[test]
fn frames_raw_newline_in_string() {
    let f = frame_model_text("{\"program\": \"echo\", \"reason\": \"line1\nline2\"}");
    assert_eq!(
        f.escaped.as_deref(),
        Some("{\"program\": \"echo\", \"reason\": \"line1\\u000aline2\"}")
    );
}

#[test]
fn frame_errors() {
    let f = frame_model_text("no json here");
    assert_eq!(f.object, Err(AppError::Msg("no JSON object in model output".into())));
    let f = frame_model_text("  {\"program\": \"ls\"");
    assert_eq!(
        f.object,
        Err(AppError::Msg(
            "unclosed JSON in model output (likely truncated; raise CLAI_MAX_NEW_TOKENS or shorten the command)".into()
        ))
    );
}
