use gputools_replay::replay::archive::{build_value, PlistDate, PlistEvent, PlistValue};

fn s(text: &str) -> PlistEvent {
    PlistEvent::Scalar(PlistValue::String(text.to_string()))
}

fn integer(n: u64) -> PlistEvent {
    PlistEvent::Scalar(PlistValue::Integer(Some(n as i64), Some(n)))
}

#[test]
fn events_build_nested_collections_in_order() {
    let events = vec![
        PlistEvent::StartDictionary,
        s("a"),
        PlistEvent::StartArray,
        integer(1),
        integer(2),
        PlistEvent::EndCollection,
        s("b"),
        PlistEvent::Scalar(PlistValue::Date(PlistDate { before_epoch: true, secs: 9, nanos: 1 })),
        PlistEvent::EndCollection,
    ];
    let PlistValue::Dictionary(d) = build_value(&events).unwrap() else {
        panic!("a dictionary")
    };
    assert_eq!(d.entries.len(), 2);
    assert_eq!(d.entries[0].key, "a");
    let PlistValue::Array(a) = &d.entries[0].value else {
        panic!("an array")
    };
    assert_eq!(a.len(), 2);
    assert!(matches!(a[1], PlistValue::Integer(Some(2), Some(2))));
    assert!(matches!(
        d.entries[1].value,
        PlistValue::Date(PlistDate { before_epoch: true, secs: 9, nanos: 1 })
    ));
}

#[test]
fn a_repeated_key_keeps_its_place_and_takes_the_last_value() {
    let events = vec![
        PlistEvent::StartDictionary,
        s("k"),
        integer(1),
        s("m"),
        integer(2),
        s("k"),
        integer(3),
        PlistEvent::EndCollection,
    ];
    let PlistValue::Dictionary(d) = build_value(&events).unwrap() else {
        panic!("a dictionary")
    };
    assert_eq!(d.entries.len(), 2);
    assert_eq!(d.entries[0].key, "k");
    assert!(matches!(d.entries[0].value, PlistValue::Integer(Some(3), _)));
    assert_eq!(d.entries[1].key, "m");
}

#[test]
fn malformed_event_streams_are_refused_with_their_reason() {
    let err = |events: Vec<PlistEvent>| build_value(&events).err().unwrap();
    assert_eq!(err(vec![]), "property list ends inside a value");
    assert_eq!(err(vec![integer(1), integer(2)]), "events follow the property list's value");
    assert_eq!(err(vec![PlistEvent::StartArray, integer(1)]), "property list ends inside an array");
    assert_eq!(
        err(vec![PlistEvent::StartDictionary, integer(1), integer(2), PlistEvent::EndCollection]),
        "a dictionary key is not a string"
    );
    assert_eq!(
        err(vec![PlistEvent::StartDictionary, s("k")]),
        "property list ends inside a value"
    );
    assert_eq!(err(vec![PlistEvent::EndCollection]), "a collection ends where a value belongs");
}

#[test]
fn nesting_stops_at_the_depth_limit() {
    let nested = |n: usize| {
        let mut ev = Vec::new();
        for _ in 0..n {
            ev.push(PlistEvent::StartArray);
        }
        for _ in 0..n {
            ev.push(PlistEvent::EndCollection);
        }
        ev
    };
    assert!(build_value(&nested(256)).is_ok());
    assert_eq!(build_value(&nested(257)).err().unwrap(), "property list nested too deep");
}
