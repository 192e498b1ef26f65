use scuttlebutt::{Action, DecodeError, ErrorKind, Pump, Termination};

fn doc(name: &str) -> String {
    format!(
        r#"{{"type":"ADDED","object":{{"apiVersion":"v1","count":1,"firstTimestamp":"a","lastTimestamp":"b","kind":"Event","message":"m","involvedObject":{{"apiVersion":"v1","kind":"Pod","name":"{}","namespace":"ns"}},"metadata":{{"creationTimestamp":"c","name":"n","namespace":"default","resourceVersion":"7","selfLink":"/s","uid":"u"}},"reason":"r","source":{{"component":"kubelet"}}}}}}"#,
        name
    )
}

fn name_of(a: Action) -> String {
    match a {
        Action::Deliver(e) => e.object.involved_object.name,
        other => panic!("{:?}", other),
    }
}

#[test]
fn pump_asks_for_bytes_then_hands_out_records() {
    let mut pump = Pump::new();
    assert_eq!(pump.next_action(), Action::Pull);
    pump.feed(doc("one").as_bytes());
    pump.feed(doc("two").as_bytes());
    assert_eq!(name_of(pump.next_action()), "one");
    pump.delivered(true);
    assert_eq!(pump.stopped(), None);
    assert_eq!(name_of(pump.next_action()), "two");
    pump.delivered(true);
    assert_eq!(pump.next_action(), Action::Pull);
    pump.end();
    assert_eq!(pump.next_action(), Action::Stop(Termination::EndOfStream));
    assert_eq!(pump.stopped(), Some(Termination::EndOfStream));
    assert_eq!(pump.next_action(), Action::Stop(Termination::EndOfStream));
}

#[test]
fn pump_stops_when_the_consumer_is_gone() {
    let mut pump = Pump::new();
    for name in ["a", "b", "c", "d"] {
        pump.feed(doc(name).as_bytes());
    }
    pump.end();
    assert_eq!(name_of(pump.next_action()), "a");
    pump.delivered(true);
    assert_eq!(name_of(pump.next_action()), "b");
    pump.delivered(false);
    assert_eq!(pump.stopped(), Some(Termination::ConsumerGone));
    assert_eq!(pump.next_action(), Action::Stop(Termination::ConsumerGone));
    pump.delivered(true);
    assert_eq!(pump.next_action(), Action::Stop(Termination::ConsumerGone));
}

#[test]
fn pump_stops_on_the_first_decode_error() {
    let first = doc("a");
    let mut pump = Pump::new();
    pump.feed(first.as_bytes());
    pump.feed(b"oops");
    pump.feed(doc("b").as_bytes());
    assert_eq!(name_of(pump.next_action()), "a");
    pump.delivered(true);
    let failed = Termination::DecodeFailed(DecodeError {
        kind: ErrorKind::Malformed,
        offset: first.len() as u64,
    });
    assert_eq!(pump.next_action(), Action::Stop(failed));
    pump.delivered(false);
    assert_eq!(pump.stopped(), Some(failed));
    assert_eq!(pump.next_action(), Action::Stop(failed));
}

#[test]
fn pump_reports_a_source_that_failed() {
    let mut pump = Pump::new();
    pump.feed(b"{\"type\"");
    assert_eq!(pump.next_action(), Action::Pull);
    pump.fail();
    assert_eq!(
        pump.next_action(),
        Action::Stop(Termination::DecodeFailed(DecodeError {
            kind: ErrorKind::Transport,
            offset: 0
        }))
    );
}
