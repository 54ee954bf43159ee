use vstd::prelude::*;

verus! {

/// Wraps `WKUserScriptInjectionTime` values.
#[derive(Debug, Clone, Copy, PartialEq, Eq, Hash, Structural)]
pub enum InjectionTime {
    /// Mirrors the `AtDocumentStart` case used by `WKUserScriptInjectionTime`.
    AtDocumentStart,
    /// Mirrors the `AtDocumentEnd` case used by `WKUserScriptInjectionTime`.
    AtDocumentEnd,
}

impl InjectionTime {
    /// Returns the corresponding value from `WKUserScriptInjectionTime`: 0 at document
    /// start, 1 at document end.
    #[must_use]
    pub fn as_raw(self) -> (raw: i32)
        ensures
            raw == (match self {
                InjectionTime::AtDocumentStart => 0i32,
                InjectionTime::AtDocumentEnd => 1i32,
            }),
    {
        match self {
            InjectionTime::AtDocumentStart => 0,
            InjectionTime::AtDocumentEnd => 1,
        }
    }
}

/// Wraps `WKUserScript`.
#[derive(Debug, Clone)]
pub struct UserScript {
    /// Mirrors the `source` value exposed by `WKUserScript`.
    pub source: String,
    /// Mirrors the `injection_time` value exposed by `WKUserScript`.
    pub injection_time: InjectionTime,
    /// Mirrors the `main_frame_only` value exposed by `WKUserScript`.
    pub main_frame_only: bool,
    /// Mirrors the `content_world` value exposed by `WKUserScript`.
    pub content_world: Option<String>,
}

impl UserScript {
    /// Creates a value for `WKUserScript`: injected at document end, in the main frame
    /// only, in the page's content world.
    #[must_use]
    pub fn new(source: &str) -> (script: Self)
        ensures
            script.source@ == source@,
            script.injection_time == InjectionTime::AtDocumentEnd,
            script.main_frame_only,
            script.content_world is None,
    {
        UserScript {
            source: String::from_str(source),
            injection_time: InjectionTime::AtDocumentEnd,
            main_frame_only: true,
            content_world: None,
        }
    }

    /// Sets the corresponding option used by `WKUserScript`: the injection time, all
    /// else kept.
    #[must_use]
    pub fn with_injection_time(self, time: InjectionTime) -> (script: Self)
        ensures
            script == (UserScript { injection_time: time, ..self }),
    {
        UserScript { injection_time: time, ..self }
    }

    /// Sets the corresponding option used by `WKUserScript`: whether only the main frame
    /// gets the script, all else kept.
    #[must_use]
    pub fn with_main_frame_only(self, value: bool) -> (script: Self)
        ensures
            script == (UserScript { main_frame_only: value, ..self }),
    {
        UserScript { main_frame_only: value, ..self }
    }

    /// Sets the corresponding option used by `WKUserScript`: the named content world,
    /// all else kept.
    #[must_use]
    pub fn with_content_world(self, name: &str) -> (script: Self)
        ensures
            script == (UserScript { content_world: script.content_world, ..self }),
            script.content_world matches Some(world) && world@ == name@,
    {
        UserScript { content_world: Some(String::from_str(name)), ..self }
    }
}

} // verus!
