use angel::registry::ToolRegistry;

#[test]
fn tools_are_registered_in_order() {
    let mut builder = ToolRegistry::builder();
    assert!(builder
        .register("draw_image", "Draw an image of the specified prompt.")
        .is_ok());
    assert!(builder
        .register("calculator", "Calculate the provided input.")
        .is_ok());
    let registry = builder.build("tools");
    assert_eq!(registry.len(), 2);
    assert_eq!(registry.bridge_module_name(), "tools_bridge");
    assert_eq!(registry.pydantic_file_name(), "tools.py");
    assert_eq!(
        registry.bridged_names(),
        &vec!["bridged_draw_image", "bridged_calculator"]
    );
    assert_eq!(
        registry.code(),
        "from langchain_core.tools import tool\n\n\
         @tool\ndef draw_image(arg) -> str:\n    \
         \"\"\"Draw an image of the specified prompt.\"\"\"\n    \
         return bridged_draw_image(arg)\n\n\
         @tool\ndef calculator(arg) -> str:\n    \
         \"\"\"Calculate the provided input.\"\"\"\n    \
         return bridged_calculator(arg)\n\n"
    );
}

#[test]
fn empty_registry_is_the_header_alone() {
    let registry = ToolRegistry::builder().build("none");
    assert_eq!(registry.len(), 0);
    assert!(registry.bridged_names().is_empty());
    assert_eq!(registry.code(), "from langchain_core.tools import tool\n\n");
}

#[test]
fn invalid_tools_are_refused_and_change_nothing() {
    let mut builder = ToolRegistry::builder();
    assert_eq!(
        builder
            .register("Draw", "Draw an image of the specified prompt.")
            .unwrap_err()
            .to_string(),
        "Tool name must be 3 to 24 lowercase or hyphen characters."
    );
    assert_eq!(
        builder.register("draw", "short").unwrap_err().to_string(),
        "Tool description must be 10 to 64 characters."
    );
    // The name is judged before the description.
    assert_eq!(
        builder.register("d", "short").unwrap_err().to_string(),
        "Tool name must be 3 to 24 lowercase or hyphen characters."
    );
    assert_eq!(builder.build("m").len(), 0);
}

#[test]
fn name_is_registered_once() {
    let mut builder = ToolRegistry::builder();
    assert!(builder.register("draw", "Draws what is asked.").is_ok());
    assert_eq!(
        builder
            .register("draw", "Draws something else.")
            .unwrap_err()
            .to_string(),
        "Tool name `draw` already exists, use a unique name."
    );
    assert!(builder.register("draw_more", "Draws what is asked.").is_ok());
    let registry = builder.build("m");
    assert_eq!(registry.bridged_names(), &vec!["bridged_draw", "bridged_draw_more"]);
    assert!(registry.code().contains("\"\"\"Draws what is asked.\"\"\""));
    assert!(!registry.code().contains("something else"));
}
