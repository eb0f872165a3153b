//! The delivery loop: what becomes of each delivery that the transport hands
//! over, and which signal the transport gets back for it.
//!
//! The loop itself waits on the transport and is run by the caller. This
//! module decides: [`start`] opens the loop, [`on_event`] answers each thing
//! that the transport yields with the next state, the action that is due and
//! a log record where something failed, and [`on_signal_report`] takes note
//! of how sending a signal went.

use vstd::prelude::*;
use vstd::utf8::{decode_utf8, valid_utf8};
use crate::errors::{ErrorView, IndexerError};
use crate::indexer::{
    accepted_status_codes, carried_out, normalized_text, process_message, rule_verdict, Verdict,
};
use crate::json::{accepts, compile, compiled, is_valid, parse, parsed, Schema};
use crate::models::{decoded_message, option_view, Message, MessageView};
use crate::storage::{outcome_view, InMemoryStorage, Storage};

verus! {

/// The name under which the consumer registers with the broker.
pub const CONSUMER_TAG: &'static str = "indexer_consumer";

/// The schema of a crawler message, as a JSON Schema document. The formats
/// that it names describe what a field is expected to hold; they are not
/// enforced.
pub const CRAWLER_MESSAGE_SCHEMA: &'static str = r#"{
  "$schema": "http://json-schema.org/draft-07/schema#",
  "title": "CrawlerMessage",
  "type": "object",
  "properties": {
    "url": { "type": "string", "format": "uri" },
    "text": { "type": "string" },
    "metadata": {
      "type": "object",
      "properties": {
        "title": { "type": "string" },
        "description": { "type": "string" },
        "timestamp": { "type": "string", "format": "date-time" },
        "status_code": { "type": "integer" }
      },
      "required": ["title", "timestamp", "status_code"]
    }
  },
  "required": ["url", "text", "metadata"]
}"#;

/// The compiled form of [`CRAWLER_MESSAGE_SCHEMA`], if the document parses
/// and compiles.
pub open spec fn crawler_schema() -> Option<Schema> {
    match parsed(CRAWLER_MESSAGE_SCHEMA@) {
        Some(document) => compiled(document, false),
        None => None,
    }
}

/// Compiles the schema that every delivery is held to. It is built once and
/// shared by all deliveries.
pub fn crawler_message_schema() -> (schema: Option<Schema>)
    ensures
        schema == crawler_schema(),
{
    match parse(CRAWLER_MESSAGE_SCHEMA) {
        Ok(document) => match compile(&document, false) {
            Ok(schema) => Some(schema),
            Err(_) => None,
        },
        Err(_) => None,
    }
}

/// What the pipeline decides about a JSON document, given whether it
/// conforms to the schema and which message it decodes to: one that breaks
/// the schema is turned down whatever it decodes to; one that conforms and
/// yet does not fit the message model is turned down as a parsing error; what
/// is left goes to the processing rules.
pub open spec fn document_verdict(conforms: bool, decoded: Option<MessageView>) -> Verdict {
    if !conforms {
        Verdict::Reject(ErrorView::InvalidMessage("Message doesn't follow schema rules"@))
    } else {
        match decoded {
            None => Verdict::Reject(crate::models::mismatch()),
            Some(message) => rule_verdict(message),
        }
    }
}

/// What the pipeline decides about a JSON document under a schema.
pub open spec fn instance_verdict(schema: Schema, instance: serde_json::Value) -> Verdict {
    document_verdict(accepts(schema, instance), decoded_message(instance))
}

/// What the pipeline decides about a text: it must be one JSON document.
pub open spec fn text_verdict(schema: Schema, text: Seq<char>) -> Verdict {
    match parsed(text) {
        None => Verdict::Reject(ErrorView::ParsingError("Failed to parse message as JSON"@)),
        Some(instance) => instance_verdict(schema, instance),
    }
}

/// What the pipeline decides about the payload of a delivery: it must be
/// well-formed UTF-8, then the text that it encodes is judged.
pub open spec fn delivery_verdict(schema: Schema, data: Seq<u8>) -> Verdict {
    if !valid_utf8(data) {
        Verdict::Reject(ErrorView::ParsingError("Failed to parse message as UTF-8"@))
    } else {
        text_verdict(schema, decode_utf8(data))
    }
}

/// Takes a JSON document on which schema validation has had its say
/// through decoding, the processing rules and storage. Nothing is read from
/// a document that does not conform.
pub fn handle_validated<S: Storage>(
    conforms: bool,
    instance: &serde_json::Value,
    storage: &mut S,
) -> (outcome: Result<(), IndexerError>)
    ensures
        carried_out(
            document_verdict(conforms, decoded_message(*instance)),
            *old(storage),
            *final(storage),
            outcome_view(outcome),
        ),
{
    if !conforms {
        return Err(IndexerError::InvalidMessage("Message doesn't follow schema rules".to_owned()));
    }
    match Message::from_json(instance) {
        Err(reason) => Err(reason),
        Ok(message) => process_message(storage, &message),
    }
}

/// Takes a JSON document through schema validation, decoding, the processing
/// rules and storage.
pub fn handle_instance<S: Storage>(
    instance: &serde_json::Value,
    storage: &mut S,
    schema: &Schema,
) -> (outcome: Result<(), IndexerError>)
    ensures
        carried_out(
            instance_verdict(*schema, *instance),
            *old(storage),
            *final(storage),
            outcome_view(outcome),
        ),
{
    handle_validated(is_valid(schema, instance), instance, storage)
}

/// Takes the payload of one delivery through the whole pipeline: UTF-8
/// decoding, JSON parsing, schema validation, decoding into a message, the
/// processing rules and storage.
///
/// The first step that fails decides the error, and no later step is taken.
/// The backend is called at most once, and only with a message that passed
/// every step before it.
pub fn handle_delivery_data<S: Storage>(
    data: &[u8],
    storage: &mut S,
    schema: &Schema,
) -> (outcome: Result<(), IndexerError>)
    ensures
        carried_out(
            delivery_verdict(*schema, data@),
            *old(storage),
            *final(storage),
            outcome_view(outcome),
        ),
{
    let text = match core::str::from_utf8(data) {
        Ok(text) => text,
        Err(_) => {
            return Err(IndexerError::ParsingError("Failed to parse message as UTF-8".to_owned()));
        },
    };
    let instance = match parse(text) {
        Ok(instance) => instance,
        Err(_) => {
            return Err(IndexerError::ParsingError("Failed to parse message as JSON".to_owned()));
        },
    };
    handle_instance(&instance, storage, schema)
}

/// One message as the transport hands it over: the payload, and the tag by
/// which the transport knows the delivery when it is acknowledged.
#[derive(Debug)]
pub struct Delivery {
    pub delivery_tag: u64,
    pub data: Vec<u8>,
}

/// Takes one delivery through the pipeline.
pub fn handle_delivery<S: Storage>(
    delivery: &Delivery,
    storage: &mut S,
    schema: &Schema,
) -> (outcome: Result<(), IndexerError>)
    ensures
        carried_out(
            delivery_verdict(*schema, delivery.data@),
            *old(storage),
            *final(storage),
            outcome_view(outcome),
        ),
{
    handle_delivery_data(delivery.data.as_slice(), storage, schema)
}

/// How much a log record matters.
#[derive(Debug, Clone, Copy, PartialEq, Eq, Structural)]
pub enum LogLevel {
    Info,
    Error,
}

/// One line for the operator's log.
#[derive(Debug, PartialEq, Eq)]
pub struct LogRecord {
    pub level: LogLevel,
    pub text: String,
}

/// The mathematical value of a [`LogRecord`].
pub struct LogView {
    pub level: LogLevel,
    pub text: Seq<char>,
}

impl View for LogRecord {
    type V = LogView;

    open spec fn view(&self) -> LogView {
        LogView { level: self.level, text: self.text@ }
    }
}

/// The record of a failure: what failed, then the detail.
pub open spec fn failure_record(what: Seq<char>, detail: Seq<char>) -> LogView {
    LogView { level: LogLevel::Error, text: what + detail }
}

/// What the transport yields when it is polled.
#[derive(Debug)]
pub enum Event {
    /// A delivery came in.
    Delivered(Delivery),
    /// The transport failed to hand over a delivery; the text says how.
    ReceiveFailed(String),
    /// The stream of deliveries has ended.
    StreamEnded,
}

/// The mathematical value of an [`Event`].
pub enum EventView {
    Delivered { delivery_tag: u64, data: Seq<u8> },
    ReceiveFailed(Seq<char>),
    StreamEnded,
}

impl View for Event {
    type V = EventView;

    open spec fn view(&self) -> EventView {
        match self {
            Event::Delivered(delivery) => EventView::Delivered {
                delivery_tag: delivery.delivery_tag,
                data: delivery.data@,
            },
            Event::ReceiveFailed(detail) => EventView::ReceiveFailed(detail@),
            Event::StreamEnded => EventView::StreamEnded,
        }
    }
}

/// What the caller is to do next.
#[derive(Debug, PartialEq, Eq)]
pub enum Action {
    /// Acknowledge the delivery with this tag: it was processed and stored.
    Ack { delivery_tag: u64 },
    /// Reject the delivery with this tag: it was not processed, for the
    /// reason given.
    Nack { delivery_tag: u64, reason: IndexerError },
    /// Nothing is owed to the transport: poll it for the next delivery.
    Poll,
    /// Leave the loop.
    Stop,
}

/// The mathematical value of an [`Action`].
pub enum ActionView {
    Ack { delivery_tag: u64 },
    Nack { delivery_tag: u64, reason: ErrorView },
    Poll,
    Stop,
}

impl View for Action {
    type V = ActionView;

    open spec fn view(&self) -> ActionView {
        match self {
            Action::Ack { delivery_tag } => ActionView::Ack { delivery_tag: *delivery_tag },
            Action::Nack { delivery_tag, reason } => ActionView::Nack {
                delivery_tag: *delivery_tag,
                reason: reason@,
            },
            Action::Poll => ActionView::Poll,
            Action::Stop => ActionView::Stop,
        }
    }
}

impl ActionView {
    /// Whether the action sends a signal to the transport.
    pub open spec fn is_signal(self) -> bool {
        self is Ack || self is Nack
    }
}

/// Where the loop stands.
#[derive(Debug, Clone, Copy, PartialEq, Eq, Structural)]
pub enum ConsumerState {
    /// Deliveries are taken from the transport, one at a time.
    Consuming,
    /// The stream has ended. Nothing is processed any more.
    Stopped,
}

/// The answer to one event.
#[derive(Debug, PartialEq, Eq)]
pub struct Transition {
    /// The state in which the loop goes on.
    pub state: ConsumerState,
    /// What the caller is to do next.
    pub action: Action,
    /// What the caller is to write to the log, if anything.
    pub log: Option<LogRecord>,
}

/// The state in which the loop goes on after an event: the end of the stream
/// stops it, nothing else does, and once stopped it stays stopped.
pub open spec fn next_state(state: ConsumerState, event: EventView) -> ConsumerState {
    if state == ConsumerState::Stopped || event is StreamEnded {
        ConsumerState::Stopped
    } else {
        ConsumerState::Consuming
    }
}

/// The state of the loop after a run of events.
pub open spec fn state_after(state: ConsumerState, events: Seq<EventView>) -> ConsumerState
    decreases events.len(),
{
    if events.len() == 0 {
        state
    } else {
        next_state(state_after(state, events.drop_last()), events.last())
    }
}

/// The signal that is owed for a delivery once its processing has ended, and
/// the log record that goes with it: an acknowledgment and no record after a
/// success, a rejection and a record of the reason after a failure.
pub open spec fn resolution(delivery_tag: u64, outcome: Result<(), ErrorView>) -> (
    ActionView,
    Option<LogView>,
) {
    match outcome {
        Ok(_) => (ActionView::Ack { delivery_tag }, None),
        Err(reason) => (
            ActionView::Nack { delivery_tag, reason },
            Some(failure_record("Failed to process message: "@, reason.text())),
        ),
    }
}

/// Whether a transition answers an event as the loop prescribes.
///
/// Once stopped, the loop stays stopped and touches nothing. While it
/// consumes: the end of the stream stops it; a failure to receive is logged
/// and the transport is polled again; a delivery is taken through the
/// pipeline, and the one signal that is owed for it, with the log record
/// that goes with it, follows from how that ended.
pub open spec fn answers<S: Storage>(
    schema: Schema,
    state: ConsumerState,
    event: EventView,
    before: S,
    after: S,
    next: ConsumerState,
    action: ActionView,
    log: Option<LogView>,
) -> bool {
    &&& next == next_state(state, event)
    &&& match state {
        ConsumerState::Stopped => {
            &&& action == ActionView::Stop
            &&& log is None
            &&& after == before
        },
        ConsumerState::Consuming => match event {
            EventView::StreamEnded => {
                &&& action == ActionView::Stop
                &&& log is None
                &&& after == before
            },
            EventView::ReceiveFailed(detail) => {
                &&& action == ActionView::Poll
                &&& log == Some(failure_record("Failed to receive delivery: "@, detail))
                &&& after == before
            },
            EventView::Delivered { delivery_tag, data } => {
                exists|outcome: Result<(), ErrorView>|
                    {
                        &&& #[trigger] carried_out(
                            delivery_verdict(schema, data),
                            before,
                            after,
                            outcome,
                        )
                        &&& (action, log) == resolution(delivery_tag, outcome)
                    }
            },
        },
    }
}

/// Builds the record of a failure.
pub fn failure(what: &str, detail: &str) -> (record: LogRecord)
    ensures
        record@ == failure_record(what@, detail@),
{
    LogRecord { level: LogLevel::Error, text: what.to_owned().concat(detail) }
}

/// Decides which signal is owed for a delivery whose processing ended with
/// `outcome`, and what is to be logged.
pub fn resolve(delivery_tag: u64, outcome: Result<(), IndexerError>) -> (resolved: (
    Action,
    Option<LogRecord>,
))
    ensures
        (resolved.0@, option_view(resolved.1)) == resolution(delivery_tag, outcome_view(outcome)),
{
    match outcome {
        Ok(_) => (Action::Ack { delivery_tag }, None),
        Err(reason) => {
            let text = reason.to_text();
            let record = failure("Failed to process message: ", text.as_str());
            (Action::Nack { delivery_tag, reason }, Some(record))
        },
    }
}

/// Opens the loop on a queue: the transport is to be polled, and the start
/// is noted in the log.
pub fn start(queue_name: &str) -> (opening: Transition)
    ensures
        opening.state == ConsumerState::Consuming,
        opening.action@ == ActionView::Poll,
        option_view(opening.log) == Some(
            LogView {
                level: LogLevel::Info,
                text: "Started consuming queue '"@ + queue_name@ + "'"@,
            },
        ),
{
    let text = "Started consuming queue '".to_owned().concat(queue_name).concat("'");
    Transition {
        state: ConsumerState::Consuming,
        action: Action::Poll,
        log: Some(LogRecord { level: LogLevel::Info, text }),
    }
}

/// Answers one event from the transport.
///
/// A delivery is processed to its end before the function returns, and the
/// answer names the one signal that the transport is to get for it: `Ack` if
/// and only if every step succeeded, storage among them, else `Nack` with the
/// reason, which is also logged. No other event leads to a signal. A failure
/// to receive is logged and does not end the loop; only the end of the stream
/// does.
pub fn on_event<S: Storage>(
    state: ConsumerState,
    event: Event,
    storage: &mut S,
    schema: &Schema,
) -> (answer: Transition)
    ensures
        answers(
            *schema,
            state,
            event@,
            *old(storage),
            *final(storage),
            answer.state,
            answer.action@,
            option_view(answer.log),
        ),
{
    match state {
        ConsumerState::Stopped => Transition {
            state: ConsumerState::Stopped,
            action: Action::Stop,
            log: None,
        },
        ConsumerState::Consuming => match event {
            Event::StreamEnded => Transition {
                state: ConsumerState::Stopped,
                action: Action::Stop,
                log: None,
            },
            Event::ReceiveFailed(detail) => Transition {
                state: ConsumerState::Consuming,
                action: Action::Poll,
                log: Some(failure("Failed to receive delivery: ", detail.as_str())),
            },
            Event::Delivered(delivery) => {
                let outcome = handle_delivery(&delivery, storage, schema);
                let ghost reported = outcome_view(outcome);
                let (action, log) = resolve(delivery.delivery_tag, outcome);
                assert(carried_out(
                    delivery_verdict(*schema, delivery.data@),
                    *old(storage),
                    *storage,
                    reported,
                ));
                Transition { state: ConsumerState::Consuming, action, log }
            },
        },
    }
}

/// Takes note of how sending a signal went. A signal that could not be sent
/// is logged and nothing else: it is not sent again, and the loop goes on
/// with the next delivery.
pub fn on_signal_report(action: &Action, report: Result<(), String>) -> (log: Option<LogRecord>)
    ensures
        option_view(log) == match (action@, report) {
            (ActionView::Ack { .. }, Err(detail)) => Some(
                failure_record("Failed to ack message: "@, detail@),
            ),
            (ActionView::Nack { .. }, Err(detail)) => Some(
                failure_record("Failed to nack message: "@, detail@),
            ),
            _ => None,
        },
{
    match report {
        Ok(_) => None,
        Err(detail) => match action {
            Action::Ack { .. } => Some(failure("Failed to ack message: ", detail.as_str())),
            Action::Nack { .. } => Some(failure("Failed to nack message: ", detail.as_str())),
            _ => None,
        },
    }
}

/// A payload that is well-formed UTF-8 and JSON, conforms to the schema,
/// fits the message model, has a URL and a text, and carries an accepted
/// status code is handed to the backend with its text in lower case and its
/// URL and metadata as they came.
pub proof fn lemma_conformant_payload_is_stored(
    schema: Schema,
    data: Seq<u8>,
    instance: serde_json::Value,
    message: MessageView,
)
    requires
        valid_utf8(data),
        parsed(decode_utf8(data)) == Some(instance),
        accepts(schema, instance),
        decoded_message(instance) == Some(message),
        message.url.len() > 0,
        message.text.len() > 0,
        accepted_status_codes().contains(message.metadata.status_code),
    ensures
        delivery_verdict(schema, data) == Verdict::Store(
            MessageView {
                url: message.url,
                text: normalized_text(message.text),
                metadata: message.metadata,
            },
        ),
{
}

/// With the in-memory backend, processing such a payload succeeds, and the
/// one message that the backend gains is the payload's with its text in lower
/// case and its URL and metadata as they came.
pub proof fn lemma_conformant_payload_succeeds_in_memory(
    schema: Schema,
    data: Seq<u8>,
    instance: serde_json::Value,
    message: MessageView,
    before: InMemoryStorage,
    after: InMemoryStorage,
    outcome: Result<(), ErrorView>,
)
    requires
        valid_utf8(data),
        parsed(decode_utf8(data)) == Some(instance),
        accepts(schema, instance),
        decoded_message(instance) == Some(message),
        message.url.len() > 0,
        message.text.len() > 0,
        accepted_status_codes().contains(message.metadata.status_code),
        carried_out(delivery_verdict(schema, data), before, after, outcome),
    ensures
        outcome is Ok,
        after@.len() == before@.len() + 1,
        after@.drop_last() == before@,
        after@.last().url == message.url,
        after@.last().text == normalized_text(message.text),
        after@.last().metadata == message.metadata,
{
    lemma_conformant_payload_is_stored(schema, data, instance, message);
    assert(after@.drop_last() =~= before@);
}

/// With the in-memory backend, a verdict to store always succeeds and
/// appends exactly the message of the verdict; a verdict to reject leaves
/// the stored messages as they were.
pub proof fn lemma_in_memory_outcome(
    verdict: Verdict,
    before: InMemoryStorage,
    after: InMemoryStorage,
    outcome: Result<(), ErrorView>,
)
    requires
        carried_out(verdict, before, after, outcome),
    ensures
        match verdict {
            Verdict::Store(stored) => outcome is Ok && after@ == before@.push(stored),
            Verdict::Reject(reason) => outcome == Err::<(), ErrorView>(reason) && after@
                == before@,
        },
{
}

/// A payload that conforms to the schema and fits the message model, and
/// whose status code is not an accepted one, fails as an invalid message,
/// and the backend is left as it was.
pub proof fn lemma_unaccepted_status_is_rejected<S: Storage>(
    schema: Schema,
    data: Seq<u8>,
    instance: serde_json::Value,
    message: MessageView,
    before: S,
    after: S,
    outcome: Result<(), ErrorView>,
)
    requires
        valid_utf8(data),
        parsed(decode_utf8(data)) == Some(instance),
        accepts(schema, instance),
        decoded_message(instance) == Some(message),
        !accepted_status_codes().contains(message.metadata.status_code),
        carried_out(delivery_verdict(schema, data), before, after, outcome),
    ensures
        outcome matches Err(ErrorView::InvalidMessage(_)),
        after == before,
{
}

/// A payload that conforms to the schema and fits the message model, and
/// whose URL or text is empty, fails as an invalid message, and the backend
/// is left as it was.
pub proof fn lemma_empty_field_is_rejected<S: Storage>(
    schema: Schema,
    data: Seq<u8>,
    instance: serde_json::Value,
    message: MessageView,
    before: S,
    after: S,
    outcome: Result<(), ErrorView>,
)
    requires
        valid_utf8(data),
        parsed(decode_utf8(data)) == Some(instance),
        accepts(schema, instance),
        decoded_message(instance) == Some(message),
        message.url.len() == 0 || message.text.len() == 0,
        carried_out(delivery_verdict(schema, data), before, after, outcome),
    ensures
        outcome == Err::<(), ErrorView>(ErrorView::InvalidMessage("URL or text empty."@)),
        after == before,
{
}

/// A payload that breaks the schema fails as an invalid message whatever
/// else it holds: whether it would fit the message model plays no part, and
/// the backend is left as it was.
pub proof fn lemma_schema_failure_is_rejected<S: Storage>(
    schema: Schema,
    data: Seq<u8>,
    instance: serde_json::Value,
    before: S,
    after: S,
    outcome: Result<(), ErrorView>,
)
    requires
        valid_utf8(data),
        parsed(decode_utf8(data)) == Some(instance),
        !accepts(schema, instance),
        carried_out(delivery_verdict(schema, data), before, after, outcome),
    ensures
        outcome == Err::<(), ErrorView>(
            ErrorView::InvalidMessage("Message doesn't follow schema rules"@),
        ),
        after == before,
{
}

/// A payload that is not well-formed UTF-8, or not one JSON document, fails
/// as a parsing error, and the backend is left as it was.
pub proof fn lemma_malformed_payload_is_rejected<S: Storage>(
    schema: Schema,
    data: Seq<u8>,
    before: S,
    after: S,
    outcome: Result<(), ErrorView>,
)
    requires
        !valid_utf8(data) || parsed(decode_utf8(data)) is None,
        carried_out(delivery_verdict(schema, data), before, after, outcome),
    ensures
        outcome matches Err(ErrorView::ParsingError(_)),
        after == before,
{
}

/// The discipline of the loop, for every answer that it can give.
///
/// A signal is sent for deliveries only, one for each, under the tag of that
/// delivery. Whatever is rejected or could not be received is logged.
/// Nothing but the end of the stream stops the loop, and a stopped loop
/// leaves the backend alone.
pub proof fn lemma_loop_discipline<S: Storage>(
    schema: Schema,
    state: ConsumerState,
    event: EventView,
    before: S,
    after: S,
    next: ConsumerState,
    action: ActionView,
    log: Option<LogView>,
)
    requires
        answers(schema, state, event, before, after, next, action, log),
    ensures
        action.is_signal() <==> state == ConsumerState::Consuming && event is Delivered,
        action matches ActionView::Ack { delivery_tag } ==> delivery_tag
            == event->Delivered_delivery_tag && log is None,
        action matches ActionView::Nack { delivery_tag, .. } ==> delivery_tag
            == event->Delivered_delivery_tag && log is Some,
        state == ConsumerState::Consuming && event is ReceiveFailed ==> log is Some,
        next == ConsumerState::Stopped <==> state == ConsumerState::Stopped
            || event is StreamEnded,
        action == ActionView::Stop <==> next == ConsumerState::Stopped,
        !(state == ConsumerState::Consuming && event is Delivered) ==> after == before,
{
}

/// The loop runs until the stream ends: after a run of events it is stopped
/// if and only if it was stopped before or the end of the stream is among
/// them. No delivery and no failure to receive stops it.
pub proof fn lemma_loop_runs_until_stream_ends(state: ConsumerState, events: Seq<EventView>)
    ensures
        state_after(state, events) == ConsumerState::Stopped <==> state == ConsumerState::Stopped
            || exists|i: int| 0 <= i < events.len() && events[i] is StreamEnded,
    decreases events.len(),
{
    if events.len() > 0 {
        let earlier = events.drop_last();
        lemma_loop_runs_until_stream_ends(state, earlier);
        if state != ConsumerState::Stopped {
            if state_after(state, earlier) == ConsumerState::Stopped {
                let i = choose|i: int| 0 <= i < earlier.len() && earlier[i] is StreamEnded;
                assert(events[i] is StreamEnded);
            } else if events.last() is StreamEnded {
                assert(events[events.len() - 1] is StreamEnded);
            } else {
                assert forall|i: int| 0 <= i < events.len() implies !(events[i] is StreamEnded) by {
                    if i < earlier.len() {
                        assert(earlier[i] == events[i]);
                    }
                }
            }
        }
    }
}

/// Whatever is handed to the backend has passed every check: its payload was
/// well-formed UTF-8 and JSON, conformed to the schema, fitted the message
/// model and met the processing rules, and its text has been normalised.
pub proof fn lemma_stored_message_passed_every_check(
    schema: Schema,
    data: Seq<u8>,
    stored: MessageView,
)
    requires
        delivery_verdict(schema, data) == Verdict::Store(stored),
    ensures
        valid_utf8(data),
        ({
            &&& parsed(decode_utf8(data)) matches Some(instance)
            &&& accepts(schema, instance)
            &&& decoded_message(instance) matches Some(message)
            &&& message.url.len() > 0
            &&& message.text.len() > 0
            &&& accepted_status_codes().contains(message.metadata.status_code)
            &&& stored.url == message.url
            &&& stored.text == normalized_text(message.text)
            &&& stored.metadata == message.metadata
        }),
{
}

} // verus!
