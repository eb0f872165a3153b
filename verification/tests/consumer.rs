use search_core::consumer::{
    crawler_message_schema, on_event, on_signal_report, resolve, start, Action, ConsumerState,
    Delivery, Event, LogLevel, LogRecord, CONSUMER_TAG, CRAWLER_MESSAGE_SCHEMA,
};
use search_core::errors::IndexerError;
use search_core::json::Schema;
use search_core::models::Message;
use search_core::storage::{InMemoryStorage, Storage};

fn the_schema() -> Schema {
    crawler_message_schema().expect("the message schema compiles")
}

fn delivery(tag: u64, data: &[u8]) -> Event {
    Event::Delivered(Delivery { delivery_tag: tag, data: data.to_vec() })
}

fn error_record(text: &str) -> Option<LogRecord> {
    Some(LogRecord { level: LogLevel::Error, text: text.to_string() })
}

const SCENARIO_A: &[u8] = br#"{"url":"https://example.com","text":"Hello test","metadata":{"title":"Example","description":"desc","timestamp":"2025-11-05T00:00:00Z","status_code":200}}"#;
const SCENARIO_B: &[u8] = br#"{"url":"https://example.com","text":"Hello test","metadata":{"title":"Example","description":"desc","timestamp":"2025-11-05T00:00:00Z","status_code":404}}"#;
const SCENARIO_C: &[u8] = br#"{"url":"https://example.com","text":"Hello test","metadata":{"title":"Example","description":"desc","status_code":200}}"#;
const SCENARIO_D: &[u8] = br#"{"url":"https://example.com","text":"Hello test","metadata":"#;

/// A backend that fails every call.
struct BrokenStorage {
    calls: usize,
}

impl Storage for BrokenStorage {
    fn store(&mut self, _message: &Message) -> Result<(), IndexerError> {
        self.calls += 1;
        Err(IndexerError::StorageError("backend is down".to_string()))
    }
}

#[test]
fn the_schema_document_compiles() {
    assert!(crawler_message_schema().is_some());
    let document: serde_json::Value = serde_json::from_str(CRAWLER_MESSAGE_SCHEMA).unwrap();
    assert_eq!(document["required"][2], "metadata");
    assert_eq!(document["properties"]["metadata"]["required"][1], "timestamp");
}

#[test]
fn the_consumer_registers_under_its_name() {
    assert_eq!(CONSUMER_TAG, "indexer_consumer");
}

#[test]
fn start_polls_and_logs_the_queue() {
    let opening = start("crawler_queue");
    assert_eq!(opening.state, ConsumerState::Consuming);
    assert_eq!(opening.action, Action::Poll);
    assert_eq!(
        opening.log,
        Some(LogRecord {
            level: LogLevel::Info,
            text: "Started consuming queue 'crawler_queue'".to_string()
        })
    );
}

#[test]
fn accepted_delivery_is_stored_and_acknowledged() {
    let schema = the_schema();
    let mut storage = InMemoryStorage::default();
    let answer = on_event(ConsumerState::Consuming, delivery(1, SCENARIO_A), &mut storage, &schema);
    assert_eq!(answer.state, ConsumerState::Consuming);
    assert_eq!(answer.action, Action::Ack { delivery_tag: 1 });
    assert_eq!(answer.log, None);
    assert_eq!(storage.messages.len(), 1);
    assert_eq!(storage.messages[0].text, "hello test");
    assert_eq!(storage.messages[0].url, "https://example.com");
}

#[test]
fn delivery_with_bad_status_is_rejected() {
    let schema = the_schema();
    let mut storage = InMemoryStorage::default();
    let answer = on_event(ConsumerState::Consuming, delivery(2, SCENARIO_B), &mut storage, &schema);
    assert_eq!(answer.state, ConsumerState::Consuming);
    assert_eq!(
        answer.action,
        Action::Nack {
            delivery_tag: 2,
            reason: IndexerError::InvalidMessage("Invalid status code".to_string())
        }
    );
    assert_eq!(
        answer.log,
        error_record("Failed to process message: Invalid message: Invalid status code")
    );
    assert!(storage.messages.is_empty());
}

#[test]
fn delivery_without_timestamp_is_rejected_by_the_schema() {
    let schema = the_schema();
    let mut storage = InMemoryStorage::default();
    let answer = on_event(ConsumerState::Consuming, delivery(3, SCENARIO_C), &mut storage, &schema);
    assert_eq!(
        answer.action,
        Action::Nack {
            delivery_tag: 3,
            reason: IndexerError::InvalidMessage("Message doesn't follow schema rules".to_string())
        }
    );
    assert_eq!(
        answer.log,
        error_record(
            "Failed to process message: Invalid message: Message doesn't follow schema rules"
        )
    );
    assert!(storage.messages.is_empty());
}

#[test]
fn delivery_that_is_not_json_is_rejected() {
    let schema = the_schema();
    let mut storage = InMemoryStorage::default();
    let answer = on_event(ConsumerState::Consuming, delivery(4, SCENARIO_D), &mut storage, &schema);
    assert_eq!(
        answer.action,
        Action::Nack {
            delivery_tag: 4,
            reason: IndexerError::ParsingError("Failed to parse message as JSON".to_string())
        }
    );
    assert_eq!(
        answer.log,
        error_record("Failed to process message: ParsingError: Failed to parse message as JSON")
    );
    assert!(storage.messages.is_empty());
}

#[test]
fn storage_failure_is_rejected_with_its_reason() {
    let schema = the_schema();
    let mut storage = BrokenStorage { calls: 0 };
    let answer = on_event(ConsumerState::Consuming, delivery(5, SCENARIO_A), &mut storage, &schema);
    assert_eq!(answer.state, ConsumerState::Consuming);
    assert_eq!(
        answer.action,
        Action::Nack {
            delivery_tag: 5,
            reason: IndexerError::StorageError("backend is down".to_string())
        }
    );
    assert_eq!(
        answer.log,
        error_record("Failed to process message: Storage error: backend is down")
    );
    assert_eq!(storage.calls, 1);
}

#[test]
fn receive_failure_is_logged_and_the_loop_goes_on() {
    let schema = the_schema();
    let mut storage = InMemoryStorage::default();
    let answer = on_event(
        ConsumerState::Consuming,
        Event::ReceiveFailed("connection reset".to_string()),
        &mut storage,
        &schema,
    );
    assert_eq!(answer.state, ConsumerState::Consuming);
    assert_eq!(answer.action, Action::Poll);
    assert_eq!(answer.log, error_record("Failed to receive delivery: connection reset"));
    assert!(storage.messages.is_empty());
}

#[test]
fn end_of_stream_stops_the_loop() {
    let schema = the_schema();
    let mut storage = InMemoryStorage::default();
    let answer = on_event(ConsumerState::Consuming, Event::StreamEnded, &mut storage, &schema);
    assert_eq!(answer.state, ConsumerState::Stopped);
    assert_eq!(answer.action, Action::Stop);
    assert_eq!(answer.log, None);
}

#[test]
fn stopped_loop_processes_nothing() {
    let schema = the_schema();
    let mut storage = InMemoryStorage::default();
    let events = [
        delivery(6, SCENARIO_A),
        Event::ReceiveFailed("late".to_string()),
        Event::StreamEnded,
    ];
    for event in events {
        let answer = on_event(ConsumerState::Stopped, event, &mut storage, &schema);
        assert_eq!(answer.state, ConsumerState::Stopped);
        assert_eq!(answer.action, Action::Stop);
        assert_eq!(answer.log, None);
    }
    assert!(storage.messages.is_empty());
}

#[test]
fn one_bad_delivery_does_not_halt_the_stream() {
    let schema = the_schema();
    let mut storage = InMemoryStorage::default();
    let mut state = start("crawler_queue").state;
    let mut signals = Vec::new();
    let events = [
        delivery(1, SCENARIO_A),
        delivery(2, SCENARIO_D),
        Event::ReceiveFailed("timeout".to_string()),
        delivery(3, SCENARIO_B),
        delivery(4, SCENARIO_A),
        Event::StreamEnded,
    ];
    for event in events {
        let answer = on_event(state, event, &mut storage, &schema);
        state = answer.state;
        match answer.action {
            Action::Ack { delivery_tag } => signals.push((delivery_tag, true)),
            Action::Nack { delivery_tag, .. } => signals.push((delivery_tag, false)),
            Action::Poll | Action::Stop => {}
        }
    }
    assert_eq!(state, ConsumerState::Stopped);
    assert_eq!(signals, vec![(1, true), (2, false), (3, false), (4, true)]);
    assert_eq!(storage.messages.len(), 2);
}

#[test]
fn resolve_acknowledges_success_and_rejects_failure() {
    assert_eq!(resolve(11, Ok(())), (Action::Ack { delivery_tag: 11 }, None));
    let reason = IndexerError::ConnectionError("lost".to_string());
    assert_eq!(
        resolve(12, Err(reason.clone())),
        (
            Action::Nack { delivery_tag: 12, reason },
            error_record("Failed to process message: ConnectionError: lost")
        )
    );
}

#[test]
fn failed_signal_is_logged_and_nothing_else() {
    let ack = Action::Ack { delivery_tag: 1 };
    let nack = Action::Nack {
        delivery_tag: 2,
        reason: IndexerError::InvalidMessage("Invalid status code".to_string()),
    };
    assert_eq!(on_signal_report(&ack, Ok(())), None);
    assert_eq!(on_signal_report(&nack, Ok(())), None);
    assert_eq!(
        on_signal_report(&ack, Err("channel closed".to_string())),
        error_record("Failed to ack message: channel closed")
    );
    assert_eq!(
        on_signal_report(&nack, Err("channel closed".to_string())),
        error_record("Failed to nack message: channel closed")
    );
    assert_eq!(on_signal_report(&Action::Poll, Err("channel closed".to_string())), None);
    assert_eq!(on_signal_report(&Action::Stop, Err("channel closed".to_string())), None);
}
