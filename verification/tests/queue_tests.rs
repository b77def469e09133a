use worker_queue::ByteBody;
use worker_queue::Entry;
use worker_queue::FieldRead;
use worker_queue::IdRead;
use worker_queue::MemTransport;
use worker_queue::Message;
use worker_queue::MessageBatch;
use worker_queue::Queue;
use worker_queue::QueueError;
use worker_queue::QueueMessage;
use worker_queue::Timestamp;
use worker_queue::parse_message;

fn good(id: &str, ts: i64, byte: u8) -> Entry {
    Entry {
        id: IdRead::Id(id.to_string()),
        timestamp: FieldRead::Value(Timestamp { epoch_millis: ts }),
        body: FieldRead::Value(vec![byte]),
    }
}

fn batch_of(entries: Vec<Entry>) -> MessageBatch<ByteBody> {
    MessageBatch::new("demo-queue".to_string(), entries)
}

#[test]
fn forward_iteration_yields_all_in_order() {
    let batch = batch_of(vec![good("a", 1, 10), good("b", 2, 20), good("c", 3, 30)]);
    let mut it = batch.iter();
    let mut seen: Vec<Message<ByteBody>> = Vec::new();
    while let Some(item) = it.next() {
        seen.push(item.expect("well-formed entry must decode"));
    }
    assert_eq!(seen.len(), 3);
    assert_eq!(seen[0].id, "a");
    assert_eq!(seen[0].timestamp, Timestamp { epoch_millis: 1 });
    assert_eq!(seen[0].body, ByteBody { value: 10 });
    assert_eq!(seen[1].id, "b");
    assert_eq!(seen[1].body, ByteBody { value: 20 });
    assert_eq!(seen[2].id, "c");
    assert_eq!(seen[2].body, ByteBody { value: 30 });
}

#[test]
fn backward_iteration_yields_all_reversed() {
    let batch = batch_of(vec![good("a", 1, 10), good("b", 2, 20), good("c", 3, 30)]);
    let mut it = batch.iter();
    let mut seen: Vec<Message<ByteBody>> = Vec::new();
    while let Some(item) = it.next_back() {
        seen.push(item.expect("well-formed entry must decode"));
    }
    assert_eq!(seen.len(), 3);
    assert_eq!(seen[0].id, "c");
    assert_eq!(seen[1].id, "b");
    assert_eq!(seen[2].id, "a");
}

#[test]
fn mixed_steps_yield_each_entry_once() {
    let batch = batch_of(vec![good("a", 1, 10), good("b", 2, 20), good("c", 3, 30)]);
    let mut it = batch.iter();
    let first = it.next().unwrap().unwrap();
    let last = it.next_back().unwrap().unwrap();
    let middle = it.next().unwrap().unwrap();
    assert_eq!(first.id, "a");
    assert_eq!(last.id, "c");
    assert_eq!(middle.id, "b");
    assert!(it.next().is_none());
    assert!(it.next_back().is_none());
}

#[test]
fn exhausted_iterator_stays_exhausted() {
    let batch = batch_of(vec![good("a", 1, 10)]);
    let mut it = batch.iter();
    assert!(it.next().is_some());
    assert!(it.next().is_none());
    assert!(it.next().is_none());
    assert_eq!(it.size_hint(), (0, Some(0)));
}

#[test]
fn missing_id_fails_that_slot_only() {
    let bad = Entry {
        id: IdRead::NotAString,
        timestamp: FieldRead::Value(Timestamp { epoch_millis: 2 }),
        body: FieldRead::Value(vec![20]),
    };
    let batch = batch_of(vec![good("a", 1, 10), bad, good("c", 3, 30)]);
    let mut it = batch.iter();
    assert_eq!(it.next().unwrap().unwrap().id, "a");
    assert_eq!(it.next().unwrap(), Err(QueueError::MissingIdentifierError));
    assert_eq!(it.next().unwrap().unwrap().id, "c");
    assert!(it.next().is_none());
}

#[test]
fn undecodable_body_fails_that_slot_only() {
    let bad = Entry {
        id: IdRead::Id("b".to_string()),
        timestamp: FieldRead::Value(Timestamp { epoch_millis: 2 }),
        body: FieldRead::Value(b"not-an-x".to_vec()),
    };
    let batch = batch_of(vec![good("a", 1, 10), bad, good("c", 3, 30)]);
    let mut it = batch.iter();
    assert_eq!(it.next().unwrap().unwrap().id, "a");
    assert!(matches!(
        it.next().unwrap(),
        Err(QueueError::DeserializationError(_))
    ));
    assert_eq!(it.next().unwrap().unwrap().id, "c");
    assert!(it.next().is_none());
}

#[test]
fn unreachable_fields_give_field_access_error() {
    let no_timestamp = Entry {
        id: IdRead::Id("a".to_string()),
        timestamp: FieldRead::Unreachable,
        body: FieldRead::Value(vec![10]),
    };
    let no_id = Entry {
        id: IdRead::Unreachable,
        timestamp: FieldRead::Value(Timestamp { epoch_millis: 1 }),
        body: FieldRead::Value(vec![10]),
    };
    let no_body = Entry {
        id: IdRead::Id("a".to_string()),
        timestamp: FieldRead::Value(Timestamp { epoch_millis: 1 }),
        body: FieldRead::Unreachable,
    };
    assert_eq!(
        parse_message::<ByteBody>(&no_timestamp),
        Err(QueueError::FieldAccessError)
    );
    assert_eq!(
        parse_message::<ByteBody>(&no_id),
        Err(QueueError::FieldAccessError)
    );
    assert_eq!(
        parse_message::<ByteBody>(&no_body),
        Err(QueueError::FieldAccessError)
    );
}

#[test]
fn parse_message_decodes_a_well_formed_entry() {
    let r = parse_message::<ByteBody>(&good("a", 41, 7)).unwrap();
    assert_eq!(r.id, "a");
    assert_eq!(r.timestamp, Timestamp { epoch_millis: 41 });
    assert_eq!(r.body, ByteBody { value: 7 });
}

#[test]
fn empty_batch_iterates_to_nothing() {
    let batch = batch_of(vec![]);
    let mut it = batch.iter();
    assert_eq!(it.size_hint(), (0, Some(0)));
    assert!(it.next().is_none());
    assert!(it.next_back().is_none());
}

#[test]
fn queue_returns_the_batch_queue_name() {
    let batch = batch_of(vec![]);
    assert_eq!(batch.queue(), "demo-queue");
}

#[test]
fn retry_all_is_idempotent() {
    let mut batch = batch_of(vec![good("a", 1, 10)]);
    assert!(!batch.retry_requested());
    batch.retry_all();
    assert!(batch.retry_requested());
    let name_once = batch.queue();
    batch.retry_all();
    batch.retry_all();
    assert!(batch.retry_requested());
    assert_eq!(batch.queue(), name_once);
    assert_eq!(batch.iter().size_hint(), (1, Some(1)));
}

#[test]
fn independent_iterators_do_not_affect_each_other() {
    let batch = batch_of(vec![good("a", 1, 10), good("b", 2, 20)]);
    let mut first = batch.iter();
    let mut second = batch.iter();
    while first.next().is_some() {}
    assert_eq!(first.size_hint(), (0, Some(0)));
    assert_eq!(second.size_hint(), (2, Some(2)));
    assert_eq!(second.next().unwrap().unwrap().id, "a");
    assert_eq!(second.next().unwrap().unwrap().id, "b");
    assert!(second.next().is_none());
}

#[test]
fn send_round_trips_through_the_transport() {
    let mut queue = Queue::new(MemTransport::new());
    let sent = ByteBody { value: 7 };
    assert_eq!(queue.send(&sent), Ok(()));
    let transport = queue.into_transport();
    assert_eq!(transport.delivered_count(), 1);
    let reconstructed = ByteBody::decode(transport.payload_at(0)).unwrap();
    assert_eq!(reconstructed, sent);
}

#[test]
fn rejected_submission_surfaces_transport_error() {
    let mut transport = MemTransport::new();
    transport.rejecting = true;
    let mut queue = Queue::new(transport);
    let r = queue.send(&ByteBody { value: 7 });
    assert!(matches!(r, Err(QueueError::TransportError(_))));
    assert_eq!(queue.into_transport().delivered_count(), 0);
}

#[derive(Debug, Clone, Copy, PartialEq, Eq)]
struct NeverEncodes;

impl QueueMessage for NeverEncodes {
    fn decode(_p: &Vec<u8>) -> Result<Self, String> {
        Err("nothing decodes to NeverEncodes".to_string())
    }

    fn encode(&self) -> Result<Vec<u8>, String> {
        Err("NeverEncodes has no encoding".to_string())
    }
}

#[test]
fn unencodable_value_fails_before_any_submission() {
    let mut queue = Queue::new(MemTransport::new());
    let r = queue.send(&NeverEncodes);
    assert!(matches!(r, Err(QueueError::SerializationError(_))));
    assert_eq!(queue.into_transport().delivered_count(), 0);
}

#[test]
fn byte_body_codec_round_trips() {
    let v = ByteBody { value: 255 };
    let p = v.encode().unwrap();
    assert_eq!(p, vec![255]);
    assert_eq!(ByteBody::decode(&p).unwrap(), v);
    assert!(ByteBody::decode(&vec![]).is_err());
    assert!(ByteBody::decode(&vec![1, 2]).is_err());
}

#[test]
fn example_batch_decodes_forward_and_backward() {
    let entries = vec![
        good("a", 100, 1),
        Entry {
            id: IdRead::Id("b".to_string()),
            timestamp: FieldRead::Value(Timestamp { epoch_millis: 200 }),
            body: FieldRead::Value(b"not-an-x".to_vec()),
        },
    ];
    let batch = batch_of(entries.clone());
    let mut forward = batch.iter();
    let ok = forward.next().unwrap().unwrap();
    assert_eq!(ok.id, "a");
    assert_eq!(ok.body, ByteBody { value: 1 });
    assert!(matches!(
        forward.next().unwrap(),
        Err(QueueError::DeserializationError(_))
    ));
    assert!(forward.next().is_none());

    let batch_again = batch_of(entries);
    let mut backward = batch_again.iter();
    assert!(matches!(
        backward.next_back().unwrap(),
        Err(QueueError::DeserializationError(_))
    ));
    let ok_back = backward.next_back().unwrap().unwrap();
    assert_eq!(ok_back.id, "a");
    assert_eq!(ok_back.body, ByteBody { value: 1 });
    assert!(backward.next_back().is_none());
}
