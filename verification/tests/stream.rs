use scuttlebutt::{
    decode_all, relay, DecodeError, ErrorKind, Outcome, Scan, StreamDecoder, Termination,
};
use std::sync::mpsc::channel;

const SINGLE: &str = r#"{"type":"ADDED","object":{"apiVersion":"1","count":1,"firstTimestamp":"t1","lastTimestamp":"t1","kind":"Event","message":"test","involvedObject":{"apiVersion":"1","kind":"POD","name":"test_name","namespace":"test_namespace"},"metadata":{"creationTimestamp":"t0","name":"test","namespace":"default","resourceVersion":"1","selfLink":"/x","uid":"1"},"reason":"started","source":{"component":"test","host":"foo.com"}}}"#;

fn document(change: &str, name: &str) -> String {
    format!(
        r#"{{"type":"{}","object":{{"apiVersion":"v1","count":3,"firstTimestamp":"a","lastTimestamp":"b","kind":"Event","message":"m","involvedObject":{{"apiVersion":"v1","kind":"Pod","name":"{}","namespace":"ns"}},"metadata":{{"creationTimestamp":"c","name":"n","namespace":"default","resourceVersion":"7","selfLink":"/s","uid":"u"}},"reason":"r","source":{{"component":"kubelet"}}}}}}"#,
        change, name
    )
}

#[test]
fn events_generator() {
    let events = r#"{
            "object":{
                "apiVersion": "1",
                "count": 1,
                "firstTimestamp": "...",
                "lastTimestamp": "...",
                "kind":"Event",
                "message":"test",
                "involvedObject": {
                    "apiVersion": "1",
                    "resourceVersion": "2",
                    "uid":"2",
                    "kind": "POD",
                    "name": "test_name",
                    "namespace": "test_namespace"
                },
                "metadata": {
                    "creationTimestamp": "...",
                    "deletionTimestamp": "...",
                    "name": "test",
                    "namespace":"default",
                    "resourceVersion": "1",
                    "selfLink": "...",
                    "uid": "1"
                },
                "reason": "started",
                "source": {
                    "component": "test",
                    "host": "foo.com"
                },
                "type": "Normal"
            },
            "type":"ADDED"
        }"#;
    let (tx, rx) = channel();
    relay(events.as_bytes(), tx);
    assert!(
        rx.into_iter()
            .map(|e| e.object.involved_object.namespace)
            .nth(0)
            == Some("test_namespace".to_owned())
    )
}

#[test]
fn single_document_is_one_record() {
    let t = decode_all(SINGLE.as_bytes());
    assert_eq!(t.records.len(), 1);
    assert_eq!(t.end, Termination::EndOfStream);
    let record = &t.records[0];
    assert_eq!(record.event_type, "ADDED");
    assert_eq!(record.object.involved_object.namespace, "test_namespace");
    assert_eq!(record.object.involved_object.name, "test_name");
    assert_eq!(record.object.involved_object.resource_version, None);
    assert_eq!(record.object.involved_object.uid, None);
    assert_eq!(record.object.count, 1);
    assert_eq!(record.object.metadata.deletion_timestamp, None);
    assert_eq!(record.object.source.host, Some("foo.com".to_owned()));
    assert_eq!(record.object.object_type, None);
}

#[test]
fn single_document_is_relayed_once() {
    let (tx, rx) = channel();
    let report = relay(SINGLE.as_bytes(), tx);
    assert_eq!(report.delivered, 1);
    assert_eq!(report.end, Termination::EndOfStream);
    let got: Vec<_> = rx.into_iter().collect();
    assert_eq!(got, decode_all(SINGLE.as_bytes()).records);
}

#[test]
fn empty_stream_has_no_record() {
    let t = decode_all(b"");
    assert!(t.records.is_empty());
    assert_eq!(t.end, Termination::EndOfStream);
    let (tx, rx) = channel();
    let report = relay(b"", tx);
    assert_eq!(report.delivered, 0);
    assert_eq!(report.end, Termination::EndOfStream);
    assert!(rx.recv().is_err());
}

#[test]
fn whitespace_alone_is_an_empty_stream() {
    let t = decode_all(b" \n\t\r\n ");
    assert!(t.records.is_empty());
    assert_eq!(t.end, Termination::EndOfStream);
}

#[test]
fn trailing_whitespace_is_no_error() {
    let stream = format!("{}\n\n  ", SINGLE);
    let t = decode_all(stream.as_bytes());
    assert_eq!(t.records.len(), 1);
    assert_eq!(t.end, Termination::EndOfStream);
}

#[test]
fn records_come_in_the_order_of_the_stream() {
    let stream = format!(
        "  {}\n{}{}\r\n\t{} ",
        document("ADDED", "first"),
        document("MODIFIED", "second"),
        document("DELETED", "third"),
        document("ERROR", "fourth")
    );
    let t = decode_all(stream.as_bytes());
    assert_eq!(t.end, Termination::EndOfStream);
    let names: Vec<&str> = t.records.iter().map(|e| e.object.involved_object.name.as_str()).collect();
    assert_eq!(names, vec!["first", "second", "third", "fourth"]);
    let kinds: Vec<&str> = t.records.iter().map(|e| e.event_type.as_str()).collect();
    assert_eq!(kinds, vec!["ADDED", "MODIFIED", "DELETED", "ERROR"]);

    let (tx, rx) = channel();
    let report = relay(stream.as_bytes(), tx);
    assert_eq!(report.delivered, 4);
    let got: Vec<_> = rx.into_iter().collect();
    assert_eq!(got, t.records);
}

#[test]
fn truncated_tail_gives_no_record() {
    let t = decode_all(br#"{"type":"ADDED","object":{"#);
    assert!(t.records.is_empty());
    assert_eq!(
        t.end,
        Termination::DecodeFailed(DecodeError { kind: ErrorKind::Truncated, offset: 0 })
    );
}

#[test]
fn truncated_tail_keeps_the_records_before_it() {
    let first = document("ADDED", "first");
    let second = document("MODIFIED", "second");
    let stream = format!("{}{}{}", first, second, r#"{"type":"ADDED","object":{"#);
    let t = decode_all(stream.as_bytes());
    assert_eq!(t.records.len(), 2);
    assert_eq!(t.records[1].object.involved_object.name, "second");
    assert_eq!(
        t.end,
        Termination::DecodeFailed(DecodeError {
            kind: ErrorKind::Truncated,
            offset: (first.len() + second.len()) as u64
        })
    );
    let (tx, rx) = channel();
    let report = relay(stream.as_bytes(), tx);
    assert_eq!(report.delivered, 2);
    assert_eq!(report.end, t.end);
    assert_eq!(rx.into_iter().count(), 2);
}

#[test]
fn malformed_bytes_stop_the_stream() {
    let first = document("ADDED", "first");
    let stream = format!("{} }}{}", first, document("ADDED", "never"));
    let t = decode_all(stream.as_bytes());
    assert_eq!(t.records.len(), 1);
    assert_eq!(
        t.end,
        Termination::DecodeFailed(DecodeError {
            kind: ErrorKind::Malformed,
            offset: first.len() as u64
        })
    );
}

#[test]
fn a_document_that_is_no_record_stops_the_stream() {
    for other in [r#"{"type":"ADDED"}"#, "[1,2]", "12 ", "\"text\"", "null ", r#"{"object":{},"type":"ADDED"}"#] {
        let stream = format!("{}{}", other, SINGLE);
        let t = decode_all(stream.as_bytes());
        assert!(t.records.is_empty(), "{}", other);
        assert_eq!(
            t.end,
            Termination::DecodeFailed(DecodeError { kind: ErrorKind::Mismatch, offset: 0 }),
            "{}",
            other
        );
    }
}

#[test]
fn consumer_that_is_gone_gets_nothing() {
    let stream = format!("{}{}", document("ADDED", "a"), document("ADDED", "b"));
    let (tx, rx) = channel();
    drop(rx);
    let report = relay(stream.as_bytes(), tx);
    assert_eq!(report.delivered, 0);
    assert_eq!(report.end, Termination::ConsumerGone);
}

#[test]
fn decoder_waits_for_the_rest_of_a_document() {
    let doc = document("ADDED", "split");
    let (head, tail) = doc.as_bytes().split_at(doc.len() / 2);
    let mut decoder = StreamDecoder::new();
    assert_eq!(decoder.next_outcome(), Outcome::Starved);
    decoder.feed(head);
    assert_eq!(decoder.next_outcome(), Outcome::Starved);
    assert_eq!(decoder.pending_len(), head.len());
    decoder.feed(tail);
    match decoder.next_outcome() {
        Outcome::Record(e) => assert_eq!(e.object.involved_object.name, "split"),
        other => panic!("{:?}", other),
    }
    assert_eq!(decoder.pending_len(), 0);
    assert_eq!(decoder.next_outcome(), Outcome::Starved);
    decoder.end();
    assert!(!decoder.is_done());
    assert_eq!(decoder.next_outcome(), Outcome::Finished);
    assert!(decoder.is_done());
    assert_eq!(decoder.next_outcome(), Outcome::Finished);
}

#[test]
fn bytes_fed_one_by_one_give_the_same_records() {
    let stream = format!(
        " {}\n{}{} \n",
        document("ADDED", "x"),
        document("MODIFIED", "y"),
        document("DELETED", "z")
    );
    let mut decoder = StreamDecoder::new();
    let mut records = Vec::new();
    for b in stream.as_bytes() {
        decoder.feed(&[*b]);
        match decoder.next_outcome() {
            Outcome::Record(e) => records.push(e),
            Outcome::Starved => {}
            other => panic!("{:?}", other),
        }
    }
    decoder.end();
    assert_eq!(decoder.next_outcome(), Outcome::Finished);
    assert_eq!(records, decode_all(stream.as_bytes()).records);
    assert_eq!(records.len(), 3);
}

#[test]
fn whitespace_is_dropped_while_waiting() {
    let mut decoder = StreamDecoder::new();
    decoder.feed(b"\n\n\n\n");
    assert_eq!(decoder.pending_len(), 4);
    assert_eq!(decoder.next_outcome(), Outcome::Starved);
    assert_eq!(decoder.pending_len(), 0);
    decoder.feed(b"{");
    decoder.end();
    assert_eq!(
        decoder.next_outcome(),
        Outcome::Failed(DecodeError { kind: ErrorKind::Truncated, offset: 4 })
    );
}

#[test]
fn source_failure_is_a_decode_error() {
    let doc = document("ADDED", "kept");
    let mut decoder = StreamDecoder::new();
    decoder.feed(doc.as_bytes());
    decoder.feed(b" {\"type\":");
    decoder.fail();
    match decoder.next_outcome() {
        Outcome::Record(e) => assert_eq!(e.object.involved_object.name, "kept"),
        other => panic!("{:?}", other),
    }
    assert_eq!(
        decoder.next_outcome(),
        Outcome::Failed(DecodeError { kind: ErrorKind::Transport, offset: doc.len() as u64 })
    );
    assert_eq!(decoder.next_outcome(), Outcome::Finished);

    let mut idle = StreamDecoder::new();
    idle.fail();
    assert_eq!(
        idle.next_outcome(),
        Outcome::Failed(DecodeError { kind: ErrorKind::Transport, offset: 0 })
    );
}

#[test]
fn bytes_after_the_end_are_dropped() {
    let mut decoder = StreamDecoder::new();
    decoder.end();
    decoder.feed(SINGLE.as_bytes());
    assert_eq!(decoder.pending_len(), 0);
    decoder.fail();
    assert_eq!(decoder.next_outcome(), Outcome::Finished);
}

#[test]
fn a_failed_stream_does_not_start_again() {
    let mut decoder = StreamDecoder::new();
    decoder.feed(b"?");
    decoder.feed(SINGLE.as_bytes());
    assert_eq!(
        decoder.next_outcome(),
        Outcome::Failed(DecodeError { kind: ErrorKind::Malformed, offset: 0 })
    );
    assert!(decoder.is_done());
    assert_eq!(decoder.next_outcome(), Outcome::Finished);
}

#[test]
fn settle_gives_the_outcome_for_what_was_found() {
    let value: serde_json::Value = serde_json::from_str(SINGLE).unwrap();
    let mut decoder = StreamDecoder::new();
    decoder.feed(SINGLE.as_bytes());
    decoder.feed(b"  ");
    match decoder.settle(Scan::Document(value, SINGLE.len())) {
        Outcome::Record(e) => assert_eq!(e.object.involved_object.namespace, "test_namespace"),
        other => panic!("{:?}", other),
    }
    assert_eq!(decoder.pending_len(), 2);
    assert_eq!(decoder.settle(Scan::Truncated), Outcome::Starved);
    assert_eq!(decoder.pending_len(), 2);
    assert_eq!(decoder.settle(Scan::Blank), Outcome::Starved);
    assert_eq!(decoder.pending_len(), 0);
    assert_eq!(
        decoder.settle(Scan::Malformed),
        Outcome::Failed(DecodeError {
            kind: ErrorKind::Malformed,
            offset: (SINGLE.len() + 2) as u64
        })
    );
    assert!(decoder.is_done());

    let mut other = StreamDecoder::new();
    other.feed(b"17 ");
    assert_eq!(
        other.settle(Scan::Document(serde_json::Value::from(17u64), 2)),
        Outcome::Failed(DecodeError { kind: ErrorKind::Mismatch, offset: 0 })
    );
    assert_eq!(other.pending_len(), 3);
}

#[test]
fn every_proper_prefix_of_a_document_is_starved() {
    let extra = r#"{"extra":[-1,-0.5,2.5e-3,1E+2,true,false,null,"é😀 é😀 \"\\\/\b\f\n\r\t",{},[]],"#;
    let doc = format!("{}{}", extra, &SINGLE[1..]);
    for cut in 1..doc.len() {
        let mut decoder = StreamDecoder::new();
        decoder.feed(&doc.as_bytes()[..cut]);
        assert_eq!(decoder.next_outcome(), Outcome::Starved, "after {} bytes", cut);
        decoder.feed(&doc.as_bytes()[cut..]);
        match decoder.next_outcome() {
            Outcome::Record(e) => assert_eq!(e.object.involved_object.name, "test_name"),
            other => panic!("after {} bytes: {:?}", cut, other),
        }
    }
}
