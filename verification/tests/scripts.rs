use webkit::attributed_string::{HtmlLoadRequest, READ_ACCESS_URL_DOCUMENT_OPTION};
use webkit::error::WebKitError;
use webkit::ui_delegate::{OpenPanelParameters, UIDelegateEvent};
use webkit::url_scheme::{UrlSchemeRespondStep, UrlSchemeResponse};
use webkit::user_script::{InjectionTime, UserScript};

#[test]
fn user_script_defaults_and_builders() {
    let script = UserScript::new("console.log(1)");
    assert_eq!(script.source, "console.log(1)");
    assert_eq!(script.injection_time, InjectionTime::AtDocumentEnd);
    assert!(script.main_frame_only);
    assert_eq!(script.content_world, None);
    let script = script
        .with_injection_time(InjectionTime::AtDocumentStart)
        .with_main_frame_only(false)
        .with_content_world("isolated");
    assert_eq!(script.injection_time.as_raw(), 0);
    assert!(!script.main_frame_only);
    assert_eq!(script.content_world.as_deref(), Some("isolated"));
    assert_eq!(InjectionTime::AtDocumentEnd.as_raw(), 1);
}

#[test]
fn url_scheme_response_builders() {
    let response = UrlSchemeResponse::new("app://index", "text/html");
    assert_eq!(response.status_code, 200);
    assert!(response.headers.is_empty());
    let response = response
        .with_status_code(404)
        .with_text_encoding_name("utf-8")
        .with_header("X-A", "1")
        .with_header("X-A", "2");
    assert_eq!(response.status_code, 404);
    assert_eq!(response.text_encoding_name.as_deref(), Some("utf-8"));
    assert_eq!(response.headers.get("X-A").map(String::as_str), Some("2"));
    assert_eq!(response.headers.len(), 1);
    assert_eq!(response.url, "app://index");
}

#[test]
fn respond_steps_skip_empty_bodies_and_stop_on_errors() {
    let step = UrlSchemeRespondStep::start();
    assert!(matches!(step, UrlSchemeRespondStep::SendResponse));
    let step = step.next(Ok(()), false);
    assert!(matches!(step, UrlSchemeRespondStep::SendData));
    let step = step.next(Ok(()), false);
    assert!(matches!(step, UrlSchemeRespondStep::Finish));
    let step = step.next(Ok(()), false);
    assert!(matches!(step, UrlSchemeRespondStep::Done(Ok(()))));

    let skipped = UrlSchemeRespondStep::start().next(Ok(()), true);
    assert!(matches!(skipped, UrlSchemeRespondStep::Finish));

    let failed = UrlSchemeRespondStep::start()
        .next(Ok(()), false)
        .next(Err(WebKitError::TimedOut("t".to_owned())), false);
    assert!(matches!(
        failed,
        UrlSchemeRespondStep::Done(Err(WebKitError::TimedOut(ref m))) if m == "t"
    ));
}

fn ui_event(kind: &str, multiple: Option<bool>, directories: Option<bool>) -> UIDelegateEvent {
    UIDelegateEvent {
        kind: kind.to_owned(),
        message: None,
        prompt: None,
        default_text: None,
        frame_url: None,
        response: None,
        allows_multiple_selection: multiple,
        allows_directories: directories,
        host: None,
        type_code: None,
    }
}

#[test]
fn open_panel_parameters_only_for_open_panel_events() {
    assert_eq!(ui_event("alert", Some(true), Some(true)).open_panel_parameters(), None);
    assert_eq!(
        ui_event("openPanel", Some(true), None).open_panel_parameters(),
        Some(OpenPanelParameters { allows_multiple_selection: true, allows_directories: false })
    );
    assert_eq!(
        ui_event("openPanel", None, None).open_panel_parameters(),
        Some(OpenPanelParameters::default())
    );
}

#[test]
fn html_load_request_keeps_its_url() {
    assert_eq!(HtmlLoadRequest::new("https://example.test").url, "https://example.test");
    assert_eq!(READ_ACCESS_URL_DOCUMENT_OPTION, "NSReadAccessURLDocumentOption");
}
