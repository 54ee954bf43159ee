use std::collections::BTreeMap;

use serde_json::Value;
use webkit::bridge::{javascript_arguments_json, JavaScriptArgumentsValue};
use webkit::error::WebKitError;

/// What the serialiser makes of `value`, in the form the library takes.
fn classify(value: &Value) -> JavaScriptArgumentsValue {
    match value {
        Value::Object(map) => JavaScriptArgumentsValue::Object(serde_json::to_string(map).map_err(|e| e.to_string())),
        Value::Null => JavaScriptArgumentsValue::Null,
        _ => JavaScriptArgumentsValue::Other,
    }
}

#[test]
fn javascript_arguments_must_be_a_json_object() {
    let mut object = serde_json::Map::new();
    object.insert("name".to_owned(), Value::from("</script><img src=x>"));
    object.insert("n".to_owned(), Value::from(2));
    let arguments = javascript_arguments_json(classify(&Value::Object(object))).expect("object arguments serialize");
    let parsed: Value = serde_json::from_str(&arguments).expect("valid JSON");
    assert_eq!(parsed["name"], "</script><img src=x>");
    assert_eq!(parsed["n"], 2);

    let mut map = BTreeMap::new();
    map.insert("nul", "a\0b");
    let map_value = serde_json::to_value(&map).expect("map arguments serialize");
    let with_nul = javascript_arguments_json(classify(&map_value)).expect("map arguments serialize");
    assert!(with_nul.contains("\\u0000"));

    assert_eq!(
        javascript_arguments_json(classify(&Value::Null)).expect("null means no arguments"),
        "{}"
    );
    let invalid = [
        Value::Array(vec![Value::from(1), Value::from(2)]),
        Value::from("text"),
        Value::from(3),
    ];
    for value in invalid {
        assert!(matches!(
            javascript_arguments_json(classify(&value)),
            Err(WebKitError::InvalidArgument(_))
        ));
    }
}
