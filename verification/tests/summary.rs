use angel::error::MediaError;
use angel::summary::{
    clean_generation, clean_reply, generation_is_complete, render_outcome, strip_json_fence,
    summary_text, DESCRIBE_IMAGE,
};

#[test]
fn describe_image_instruction() {
    assert_eq!(
        DESCRIBE_IMAGE,
        r#"Describe this image in JSON verbatim: {"description": string, "confidence": f32}: "#
    );
}

#[test]
fn fence_is_taken_off() {
    assert_eq!(
        strip_json_fence("```json{\"description\": \"a cat\", \"confidence\": 0.9}```"),
        "{\"description\": \"a cat\", \"confidence\": 0.9}"
    );
    assert_eq!(strip_json_fence("```json\n{}\n```"), "\n{}\n");
    assert_eq!(strip_json_fence("{}"), "{}");
    assert_eq!(strip_json_fence("```json{}"), "{}");
    assert_eq!(strip_json_fence("{}```"), "{}");
    assert_eq!(strip_json_fence("```json```"), "");
    assert_eq!(strip_json_fence("```json"), "");
    assert_eq!(strip_json_fence("```"), "");
    assert_eq!(strip_json_fence("``` json{}```"), "``` json{}");
    assert_eq!(strip_json_fence(""), "");
}

#[test]
fn summary_is_trimmed() {
    assert_eq!(summary_text("  A short film.\n"), "A short film.");
    assert_eq!(summary_text("\t\r\n A  B \u{a0}\u{2003}"), "A  B");
    assert_eq!(summary_text("   "), "");
    assert_eq!(summary_text(""), "");
    assert_eq!(summary_text("plain"), "plain");
    assert_eq!(summary_text("\u{200b}x\u{200b}"), "\u{200b}x\u{200b}");
}

#[test]
fn reply_loses_the_name_in_front() {
    assert_eq!(clean_reply("Clyde", "  Clyde: hello there \n"), "hello there");
    assert_eq!(clean_reply("Clyde", "hello there"), "hello there");
    assert_eq!(clean_reply("Clyde", "Clyde:"), "");
    assert_eq!(clean_reply("Clyde", "Clyde hello"), "Clyde hello");
    assert_eq!(clean_reply("Clyde", "clyde: hello"), "clyde: hello");
    assert_eq!(clean_reply("Clyde", "Clyde: Clyde: twice"), "Clyde: twice");
    assert_eq!(clean_reply("", ": x"), "x");
}

#[test]
fn outcome_is_the_summary_or_the_message_of_the_failure() {
    assert_eq!(render_outcome(Ok(String::from("A film."))), "A film.");
    assert_eq!(
        render_outcome(Err(MediaError::FormatUnrecognized)),
        "Unknown or unsupported format"
    );
    assert_eq!(render_outcome(Err(MediaError::OutOfMemory)), "out of memory");
}

#[test]
fn generated_text_loses_the_next_turn() {
    assert_eq!(clean_generation("  Sure thing. \n"), "Sure thing.");
    assert_eq!(clean_generation("Sure thing.\nClyde:"), "Sure thing.");
    assert_eq!(clean_generation("Sure thing. <|assistant|>\n"), "Sure thing.");
    assert_eq!(
        clean_generation("Sure thing. <|assistant|> Clyde: "),
        "Sure thing."
    );
    assert_eq!(
        clean_generation("Sure thing. Clyde: <|assistant|>"),
        "Sure thing. Clyde:"
    );
    assert_eq!(clean_generation("Clyde: hi"), "Clyde: hi");
    assert_eq!(clean_generation("Clyde:"), "");
    assert_eq!(clean_generation(""), "");
}

#[test]
fn generation_is_complete_with_the_next_turn() {
    assert!(generation_is_complete("ok <|assistant|>"));
    assert!(generation_is_complete("ok\nClyde: more"));
    assert!(generation_is_complete("Clyde:"));
    assert!(!generation_is_complete("ok"));
    assert!(!generation_is_complete("Clyde :"));
    assert!(!generation_is_complete("<|assistant"));
    assert!(!generation_is_complete(""));
}
