use auto_mode::schema::{submit_plan_input_schema, submit_plan_tool, SUBMIT_PLAN_TOOL_NAME};
use serde_json::Value;

#[test]
fn submit_plan_tool_has_correct_name_and_schema() {
    let tool = submit_plan_tool();
    assert_eq!(tool.type_, "function");
    assert_eq!(tool.function.name, SUBMIT_PLAN_TOOL_NAME);
    assert!(tool.function.description.is_some());
    let params = tool.function.parameters.expect("schema present");
    let required = params["required"].as_array().expect("required array");
    let names: Vec<&str> = required.iter().filter_map(|v| v.as_str()).collect();
    assert!(names.contains(&"reasoning"));
    assert!(names.contains(&"plan"));
}

#[test]
fn submit_plan_tool_serializes_as_provider_function_shape() {
    let tool = submit_plan_tool();
    assert_eq!(tool.type_, "function");
    assert_eq!(tool.function.name, SUBMIT_PLAN_TOOL_NAME);
    let params = tool.function.parameters.expect("schema present");
    assert!(params["properties"]["plan"].is_object());
    assert!(tool.cache_control.is_none(), "cache_control must be omitted when None");
}

#[test]
fn schema_is_the_expected_document() {
    let expected: Value = serde_json::from_str(
        r#"{
            "type": "object",
            "additionalProperties": false,
            "required": ["reasoning", "plan"],
            "properties": {
                "reasoning": {
                    "type": "string",
                    "description": "Brief why-this-plan rationale (1-3 sentences)."
                },
                "plan": {
                    "type": "array",
                    "minItems": 1,
                    "items": {
                        "type": "object",
                        "additionalProperties": false,
                        "required": ["id", "model", "prompt", "see_prior"],
                        "properties": {
                            "id":     { "type": "string", "pattern": "^w[0-9]+$" },
                            "model":  { "type": "string" },
                            "prompt": { "type": "string", "minLength": 1 },
                            "see_prior": {
                                "oneOf": [
                                    { "type": "string", "enum": ["none", "all"] },
                                    { "type": "array",  "items": { "type": "string" } }
                                ]
                            }
                        }
                    }
                }
            }
        }"#,
    )
    .unwrap();
    assert_eq!(submit_plan_input_schema(), expected);
}

#[test]
fn tool_describes_itself_and_has_no_cache_marker() {
    let tool = submit_plan_tool();
    assert_eq!(SUBMIT_PLAN_TOOL_NAME, "submit_plan");
    assert_eq!(
        tool.function.description.as_deref(),
        Some(
            "Submit the worker plan for this \
             task. The plan is an ordered list of workers; each worker has \
             a model id, a natural-language prompt, and a see_prior field \
             declaring which prior worker outputs it may consume."
        )
    );
    assert!(tool.cache_control.is_none());
}
