use webkit::events::DrainedEvents;

#[test]
fn decode_failures_count_as_dropped() {
    let drained = DrainedEvents::from_decoded(3, vec![Some("a"), None, Some("b")]);
    assert_eq!(drained.events, vec!["a", "b"]);
    assert_eq!(drained.dropped, 4);
}

#[test]
fn dropped_count_saturates() {
    let drained = DrainedEvents::<u8>::from_decoded(u64::MAX, vec![None]);
    assert_eq!(drained.dropped, u64::MAX);
    assert!(drained.events.is_empty());
    let empty = DrainedEvents::<u8>::from_decoded(0, Vec::new());
    assert_eq!(empty, DrainedEvents::default());
}
