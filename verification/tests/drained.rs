use serde_json::Value;
use webkit::events::DrainedEvents;

#[derive(Debug, PartialEq, Eq)]
struct Event {
    kind: String,
}

/// An event decoded from its JSON object, or `None` when it is not one.
fn decode_event(value: &Value) -> Option<Event> {
    let kind = value.as_object()?.get("kind")?.as_str()?;
    Some(Event { kind: kind.to_owned() })
}

/// A drained queue decoded from its JSON payload: a payload that is not an object, or
/// whose `dropped` is not a `u64` or whose `events` is not an array, gives nothing.
fn from_json(json: &str) -> DrainedEvents<Event> {
    let Ok(Value::Object(payload)) = serde_json::from_str::<Value>(json) else {
        return DrainedEvents::default();
    };
    let dropped = match payload.get("dropped") {
        None => 0,
        Some(value) => match value.as_u64() {
            Some(n) => n,
            None => return DrainedEvents::default(),
        },
    };
    let decoded = match payload.get("events") {
        None => Vec::new(),
        Some(Value::Array(events)) => events.iter().map(decode_event).collect(),
        Some(_) => return DrainedEvents::default(),
    };
    DrainedEvents::from_decoded(dropped, decoded)
}

#[test]
fn drained_events_report_queue_drops_and_decode_failures() {
    let drained = from_json(r#"{"dropped":3,"events":[{"kind":"a"},{"unexpected":true},{"kind":"b"}]}"#);
    assert_eq!(
        drained.events,
        vec![Event { kind: "a".to_owned() }, Event { kind: "b".to_owned() }]
    );
    assert_eq!(drained.dropped, 4);
}

#[test]
fn drained_events_tolerate_malformed_payloads() {
    assert_eq!(from_json("not json"), DrainedEvents::default());
    let empty = from_json(r#"{"dropped":0,"events":[]}"#);
    assert!(empty.events.is_empty());
    assert_eq!(empty.dropped, 0);
    let saturated = from_json(r#"{"dropped":18446744073709551615,"events":[1]}"#);
    assert_eq!(saturated.dropped, u64::MAX);
}
