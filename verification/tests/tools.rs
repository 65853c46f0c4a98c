use angel::tools::{
    is_lowercase_or_hyphen, validate_tool_description, validate_tool_name, Tool, ToolError,
};

#[test]
fn allowed_characters() {
    for character in ['a', 'm', 'z', '_'] {
        assert!(is_lowercase_or_hyphen(character));
    }
    for character in ['A', 'Z', '-', '0', ' ', '`', '{', '\u{e9}'] {
        assert!(!is_lowercase_or_hyphen(character));
    }
}

#[test]
fn tool_names() {
    for name in ["abc", "draw_image", "___", "abcdefghijklmnopqrstuvw"] {
        assert!(validate_tool_name(name).is_ok());
    }
    for name in [
        "",
        "ab",
        "abcdefghijklmnopqrstuvwx",
        "Draw",
        "draw-image",
        "draw image",
        "tool1",
        "caf\u{e9}",
        "\u{e9}\u{e9}",
    ] {
        assert_eq!(
            validate_tool_name(name).unwrap_err().to_string(),
            "Tool name must be 3 to 24 lowercase or hyphen characters."
        );
    }
}

#[test]
fn tool_descriptions() {
    assert!(validate_tool_description("0123456789").is_ok());
    assert!(validate_tool_description(&"x".repeat(63)).is_ok());
    assert!(validate_tool_description(&"\u{e9}".repeat(63)).is_ok());
    assert!(validate_tool_description("Draw an image of the specified prompt.").is_ok());
    for description in ["", "123456789", &"x".repeat(64), &"\u{e9}".repeat(64)] {
        assert_eq!(
            validate_tool_description(description).unwrap_err().to_string(),
            "Tool description must be 10 to 64 characters."
        );
    }
}

#[test]
fn tool_error_says_its_message() {
    assert_eq!(ToolError::other("no such tool").to_string(), "no such tool");
}

#[test]
fn tool_source_text() {
    let tool = Tool {
        module_name: "tools",
        name: "draw_image",
        args: "(arg)",
        output: "str",
        documentation: "Draw an image of the specified prompt.",
    };
    assert_eq!(
        tool.to_string(),
        "@tool\ndef draw_image(arg) -> str:\n    \"\"\"Draw an image of the specified prompt.\"\"\"\n    return bridged_draw_image(arg)\n\n"
    );
}
