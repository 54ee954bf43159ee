use webkit::bridge::{
    c_string_text, check_bridge_status, decimal_string, error_from_bridge,
    javascript_arguments_json, take_bridge_object, JavaScriptArgumentsValue,
};
use webkit::error::WebKitError;
use webkit::ffi::status;

#[test]
fn c_string_text_replaces_nul_with_space() {
    assert_eq!(c_string_text("plain"), "plain");
    assert_eq!(c_string_text("a\0b\0"), "a b ");
    assert_eq!(c_string_text(""), "");
    assert_eq!(c_string_text("\0"), " ");
    assert_eq!(c_string_text("héllo\0wörld"), "héllo wörld");
    let once = c_string_text("x\0y");
    assert_eq!(c_string_text(&once), once);
}

#[test]
fn decimal_string_formats_like_display() {
    for n in [0, 7, 10, 42, -1, -2, -99, 12345, i32::MAX, i32::MIN] {
        assert_eq!(decimal_string(n), n.to_string());
    }
}

#[test]
fn bridge_status_without_message_names_the_status() {
    assert_eq!(error_from_bridge(status::OK, None), None);
    assert_eq!(
        error_from_bridge(status::UNSUPPORTED, None),
        Some(WebKitError::Unsupported("bridge returned status -2".to_owned()))
    );
    assert_eq!(
        error_from_bridge(7, None),
        Some(WebKitError::Unknown("bridge returned status 7".to_owned()))
    );
    assert_eq!(
        error_from_bridge(status::TIMED_OUT, Some("slow".to_owned())),
        Some(WebKitError::TimedOut("slow".to_owned()))
    );
    assert_eq!(
        error_from_bridge(status::OK, Some("odd".to_owned())),
        Some(WebKitError::Unknown("odd".to_owned()))
    );
}

#[test]
fn check_bridge_status_is_ok_only_without_error() {
    assert_eq!(check_bridge_status(status::OK, None), Ok(()));
    assert_eq!(
        check_bridge_status(status::INVALID_ARGUMENT, Some("bad".to_owned())),
        Err(WebKitError::InvalidArgument("bad".to_owned()))
    );
    assert_eq!(
        check_bridge_status(status::FRAMEWORK_ERROR, None),
        Err(WebKitError::FrameworkError("bridge returned status -5".to_owned()))
    );
}

#[test]
fn take_bridge_object_reports_missing_objects() {
    assert_eq!(take_bridge_object(status::OK, None, Some(5u8), "gone"), Ok(5));
    assert_eq!(
        take_bridge_object::<u8>(status::OK, None, None, "made nothing"),
        Err(WebKitError::FrameworkError("made nothing".to_owned()))
    );
    assert_eq!(
        take_bridge_object(status::UNKNOWN, None, Some(1u8), "gone"),
        Err(WebKitError::Unknown("bridge returned status -99".to_owned()))
    );
    assert_eq!(
        take_bridge_object(status::UNSUPPORTED, Some("no".to_owned()), Some(1u8), "gone"),
        Err(WebKitError::Unsupported("no".to_owned()))
    );
}

#[test]
fn javascript_arguments_must_be_an_object_or_null() {
    assert_eq!(
        javascript_arguments_json(JavaScriptArgumentsValue::Object(Ok(
            "{\"n\":2}".to_owned()
        ))),
        Ok("{\"n\":2}".to_owned())
    );
    assert_eq!(
        javascript_arguments_json(JavaScriptArgumentsValue::Null),
        Ok("{}".to_owned())
    );
    assert_eq!(
        javascript_arguments_json(JavaScriptArgumentsValue::Other),
        Err(WebKitError::InvalidArgument(
            "callAsyncJavaScript arguments must serialize to a JSON object".to_owned()
        ))
    );
    assert_eq!(
        javascript_arguments_json(JavaScriptArgumentsValue::NotSerializable("boom".to_owned())),
        Err(WebKitError::InvalidArgument(
            "callAsyncJavaScript arguments are not serializable: boom".to_owned()
        ))
    );
    assert_eq!(
        javascript_arguments_json(JavaScriptArgumentsValue::Object(Err("bad".to_owned()))),
        Err(WebKitError::InvalidArgument("bad".to_owned()))
    );
}
