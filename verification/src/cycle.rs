//! The publish loop, one decision at a time.
//!
//! A cycle leaves `Waiting` when the timer fires: the host is sampled and the
//! snapshot encoded. A snapshot that cannot be encoded is dropped with a
//! warning and the loop waits for the next tick. Otherwise a publish request
//! goes out and the loop rests in `Publishing` until the broker client
//! reports, which is logged either way; then the loop waits again. The caller
//! waits for the timer and the client, performs each action, and hands back
//! what happened.

use vstd::prelude::*;
use sysinfo::System;
use crate::decimal::{push_signed_decimal, signed_decimal};
use crate::metrics::{MetricsView, SystemMetrics};
use crate::payload::{payload_text, serialize, serialize_spec, SerializeError};
use crate::sampler::{gather_metrics, reported};

verus! {

/// The key of every published message: it tells this stream from others
/// that share the topic.
pub const STREAM_KEY: &'static str = "sys_metrics";

/// Seconds between two ticks.
pub const TICK_INTERVAL_SECS: u64 = 5;

/// Seconds that a submission may wait for room in the client's queue: none.
pub const QUEUE_TIMEOUT_SECS: u64 = 0;

/// Starts the line that reports a delivery.
pub const DELIVERED_PARTITION: &'static str = "Metrics sent: partition ";

/// Stands between partition and offset in the line that reports a delivery.
pub const DELIVERED_OFFSET: &'static str = " offset ";

/// Starts the line that reports a failed submission.
pub const SEND_FAILED: &'static str = "Failed to enqueue message to Kafka: ";

/// Starts the line that reports a dropped snapshot.
pub const DROPPED: &'static str = "Serialization error, dropping metrics payload: ";

/// How much a log line matters.
#[derive(Debug, Clone, Copy, PartialEq, Eq, Structural)]
pub enum LogLevel {
    Info,
    Warn,
    Error,
}

/// One line for the log.
#[derive(Debug, Clone, PartialEq, Eq)]
pub struct LogEntry {
    pub level: LogLevel,
    pub message: String,
}

/// The mathematical content of a [`LogEntry`].
pub struct LogEntryView {
    pub level: LogLevel,
    pub message: Seq<char>,
}

impl View for LogEntry {
    type V = LogEntryView;

    open spec fn view(&self) -> LogEntryView {
        LogEntryView { level: self.level, message: self.message@ }
    }
}

/// One message for the broker client to send.
#[derive(Debug, Clone, PartialEq, Eq)]
pub struct PublishRequest {
    /// The destination topic.
    pub topic: String,
    /// The key of the message.
    pub key: String,
    /// The encoded snapshot.
    pub payload: String,
    /// How long the submission may wait for room in the client's queue.
    pub queue_timeout_secs: u64,
}

/// The mathematical content of a [`PublishRequest`].
pub struct PublishRequestView {
    pub topic: Seq<char>,
    pub key: Seq<char>,
    pub payload: Seq<char>,
    pub queue_timeout_secs: u64,
}

impl View for PublishRequest {
    type V = PublishRequestView;

    open spec fn view(&self) -> PublishRequestView {
        PublishRequestView {
            topic: self.topic@,
            key: self.key@,
            payload: self.payload@,
            queue_timeout_secs: self.queue_timeout_secs,
        }
    }
}

/// Where the loop rests between two decisions. Sampling and serializing,
/// dropping a snapshot and logging a report all happen within one decision,
/// so the loop is never seen in between.
#[derive(Debug, Clone, Copy, PartialEq, Eq, Structural)]
pub enum LoopState {
    /// No cycle is in flight: the loop waits for the next tick.
    Waiting,
    /// A message was submitted and its delivery report is awaited.
    Publishing,
}

/// What happened since the last decision.
#[derive(Debug, Clone, PartialEq, Eq)]
pub enum LoopEvent {
    /// The timer fired and the host was sampled.
    Sampled(SystemMetrics),
    /// The broker acknowledged the message at this position.
    Delivered { partition: i32, offset: i64 },
    /// The broker client reported a transport error.
    SendFailed { detail: String },
}

/// The mathematical content of a [`LoopEvent`].
pub enum LoopEventView {
    Sampled(MetricsView),
    Delivered { partition: i32, offset: i64 },
    SendFailed { detail: Seq<char> },
}

impl View for LoopEvent {
    type V = LoopEventView;

    open spec fn view(&self) -> LoopEventView {
        match self {
            LoopEvent::Sampled(metrics) => LoopEventView::Sampled(metrics@),
            LoopEvent::Delivered { partition, offset } => LoopEventView::Delivered {
                partition: *partition,
                offset: *offset,
            },
            LoopEvent::SendFailed { detail } => LoopEventView::SendFailed { detail: detail@ },
        }
    }
}

/// What the caller is to do next.
#[derive(Debug, Clone, PartialEq, Eq)]
pub enum LoopAction {
    /// Submit this message and hand back the delivery report.
    Publish(PublishRequest),
    /// Write this line; the cycle is over.
    Log(LogEntry),
    /// Nothing: the event does not belong to the state the loop is in.
    Idle,
}

/// The mathematical content of a [`LoopAction`].
pub enum LoopActionView {
    Publish(PublishRequestView),
    Log(LogEntryView),
    Idle,
}

impl View for LoopAction {
    type V = LoopActionView;

    open spec fn view(&self) -> LoopActionView {
        match self {
            LoopAction::Publish(request) => LoopActionView::Publish(request@),
            LoopAction::Log(entry) => LoopActionView::Log(entry@),
            LoopAction::Idle => LoopActionView::Idle,
        }
    }
}

/// The request that publishes `payload` to `topic`: under the fixed key and
/// without waiting for room in the queue.
pub open spec fn request_for(topic: Seq<char>, payload: Seq<char>) -> PublishRequestView {
    PublishRequestView { topic, key: STREAM_KEY@, payload, queue_timeout_secs: QUEUE_TIMEOUT_SECS }
}

/// The line that reports a delivery at `partition` and `offset`.
pub open spec fn delivered_line(partition: i32, offset: i64) -> LogEntryView {
    LogEntryView {
        level: LogLevel::Info,
        message: DELIVERED_PARTITION@ + signed_decimal(partition as int) + DELIVERED_OFFSET@
            + signed_decimal(offset as int),
    }
}

/// The line that reports a transport error with its detail.
pub open spec fn send_failed_line(detail: Seq<char>) -> LogEntryView {
    LogEntryView { level: LogLevel::Error, message: SEND_FAILED@ + detail }
}

/// The line that reports a snapshot dropped for the error `e`.
pub open spec fn dropped_line(e: SerializeError) -> LogEntryView {
    LogEntryView { level: LogLevel::Warn, message: DROPPED@ + e.description() }
}

/// The decision of the loop: the state it moves to and the action it asks
/// for, given the state it is in and what happened.
pub open spec fn step_spec(state: LoopState, event: LoopEventView, topic: Seq<char>) -> (
    LoopState,
    LoopActionView,
) {
    match (state, event) {
        (LoopState::Waiting, LoopEventView::Sampled(metrics)) => match serialize_spec(metrics) {
            Ok(payload) => (
                LoopState::Publishing,
                LoopActionView::Publish(request_for(topic, payload)),
            ),
            Err(e) => (LoopState::Waiting, LoopActionView::Log(dropped_line(e))),
        },
        (LoopState::Publishing, LoopEventView::Delivered { partition, offset }) => (
            LoopState::Waiting,
            LoopActionView::Log(delivered_line(partition, offset)),
        ),
        (LoopState::Publishing, LoopEventView::SendFailed { detail }) => (
            LoopState::Waiting,
            LoopActionView::Log(send_failed_line(detail)),
        ),
        _ => (state, LoopActionView::Idle),
    }
}

/// Whether `event` ends a cycle in failure from `state`: a snapshot that
/// cannot be encoded, or a transport error for the message in flight.
pub open spec fn is_failure(state: LoopState, event: LoopEventView) -> bool {
    match (state, event) {
        (LoopState::Waiting, LoopEventView::Sampled(metrics)) => !metrics.encodable(),
        (LoopState::Publishing, LoopEventView::SendFailed { .. }) => true,
        _ => false,
    }
}

/// A publish is asked for exactly when a snapshot was sampled while waiting
/// and its serialization succeeded; the request then carries that payload.
/// A snapshot whose serialization fails is dropped with a warning, and the
/// loop goes on waiting for the next tick.
pub proof fn lemma_publish_iff_serialized(state: LoopState, event: LoopEventView, topic: Seq<char>)
    ensures
        step_spec(state, event, topic).1 is Publish <==> state == LoopState::Waiting
            && event is Sampled && serialize_spec(event->Sampled_0) is Ok,
        step_spec(state, event, topic).1 matches LoopActionView::Publish(request)
            ==> step_spec(state, event, topic).0 == LoopState::Publishing && serialize_spec(
            event->Sampled_0,
        ) == Ok::<Seq<char>, SerializeError>(request.payload),
        state == LoopState::Waiting && event is Sampled && serialize_spec(event->Sampled_0) is Err
            ==> step_spec(state, event, topic) == (
            LoopState::Waiting,
            LoopActionView::Log(dropped_line(serialize_spec(event->Sampled_0)->Err_0)),
        ) && dropped_line(serialize_spec(event->Sampled_0)->Err_0).level == LogLevel::Warn,
{
}

/// A failure never stops the loop: after a cycle that failed, for either
/// reason, the loop waits again, and the next snapshot is treated as any
/// snapshot is. If it can be encoded, it is published.
pub proof fn lemma_failure_does_not_stop_the_loop(
    state: LoopState,
    event: LoopEventView,
    topic: Seq<char>,
    next: MetricsView,
)
    requires
        is_failure(state, event),
    ensures
        step_spec(state, event, topic).0 == LoopState::Waiting,
        step_spec(state, event, topic).1 is Log,
        step_spec(step_spec(state, event, topic).0, LoopEventView::Sampled(next), topic)
            == step_spec(LoopState::Waiting, LoopEventView::Sampled(next), topic),
        next.encodable() ==> step_spec(
            step_spec(state, event, topic).0,
            LoopEventView::Sampled(next),
            topic,
        ) == (
            LoopState::Publishing,
            LoopActionView::Publish(request_for(topic, payload_text(next))),
        ),
{
}

/// Every delivery report, good or bad, ends the cycle: the loop waits for
/// the next tick.
pub proof fn lemma_report_ends_cycle(event: LoopEventView, topic: Seq<char>)
    requires
        event is Delivered || event is SendFailed,
    ensures
        step_spec(LoopState::Publishing, event, topic).0 == LoopState::Waiting,
        step_spec(LoopState::Publishing, event, topic).1 is Log,
{
}

/// Every published message carries the fixed key, goes to the configured
/// topic and does not wait for room in the queue, whatever the payload.
pub proof fn lemma_key_is_fixed(state: LoopState, event: LoopEventView, topic: Seq<char>)
    ensures
        step_spec(state, event, topic).1 matches LoopActionView::Publish(request) ==> request.key
            == STREAM_KEY@ && request.topic == topic && request.queue_timeout_secs == 0,
{
}

/// The request that publishes `payload` to `topic`.
pub fn publish_request(topic: &str, payload: String) -> (request: PublishRequest)
    ensures
        request@ == request_for(topic@, payload@),
{
    PublishRequest {
        topic: String::from_str(topic),
        key: String::from_str(STREAM_KEY),
        payload,
        queue_timeout_secs: QUEUE_TIMEOUT_SECS,
    }
}

/// The line that reports a delivery at `partition` and `offset`.
pub fn delivered_entry(partition: i32, offset: i64) -> (entry: LogEntry)
    ensures
        entry@ == delivered_line(partition, offset),
{
    let mut message = String::from_str(DELIVERED_PARTITION);
    push_signed_decimal(&mut message, partition as i64);
    message.append(DELIVERED_OFFSET);
    push_signed_decimal(&mut message, offset);
    LogEntry { level: LogLevel::Info, message }
}

/// The line that reports a transport error with its detail.
pub fn send_failed_entry(detail: &str) -> (entry: LogEntry)
    ensures
        entry@ == send_failed_line(detail@),
{
    let mut message = String::from_str(SEND_FAILED);
    message.append(detail);
    LogEntry { level: LogLevel::Error, message }
}

/// The line that reports a snapshot dropped for the error `e`.
pub fn dropped_entry(e: SerializeError) -> (entry: LogEntry)
    ensures
        entry@ == dropped_line(e),
{
    let mut message = String::from_str(DROPPED);
    let description = e.describe();
    message.append(description.as_str());
    LogEntry { level: LogLevel::Warn, message }
}

/// Decides what the loop does next.
///
/// While waiting, a snapshot is encoded: a payload is submitted under the
/// fixed key and the loop awaits the report; a snapshot without a payload is
/// dropped with a warning. While publishing, the report is logged and the
/// loop waits again. An event that does not belong to the state changes
/// nothing.
pub fn step(state: LoopState, event: LoopEvent, topic: &str) -> (r: (LoopState, LoopAction))
    ensures
        r.0 == step_spec(state, event@, topic@).0,
        r.1@ == step_spec(state, event@, topic@).1,
{
    match state {
        LoopState::Waiting => match event {
            LoopEvent::Sampled(metrics) => match serialize(&metrics) {
                Ok(payload) => (
                    LoopState::Publishing,
                    LoopAction::Publish(publish_request(topic, payload)),
                ),
                Err(e) => (LoopState::Waiting, LoopAction::Log(dropped_entry(e))),
            },
            _ => (state, LoopAction::Idle),
        },
        LoopState::Publishing => match event {
            LoopEvent::Delivered { partition, offset } => (
                LoopState::Waiting,
                LoopAction::Log(delivered_entry(partition, offset)),
            ),
            LoopEvent::SendFailed { detail } => (
                LoopState::Waiting,
                LoopAction::Log(send_failed_entry(detail.as_str())),
            ),
            LoopEvent::Sampled(_) => (state, LoopAction::Idle),
        },
    }
}

/// Handles a tick of the timer. While waiting, the host is sampled from
/// `sys` and the loop decides on the snapshot as [`step`] does; the snapshot
/// is what `sys` reports after the refresh, at some timestamp. While a
/// message is in flight no new cycle starts: nothing is sampled and nothing
/// changes.
pub fn on_tick(state: LoopState, sys: &mut System, topic: &str) -> (r: (LoopState, LoopAction))
    ensures
        state == LoopState::Waiting ==> exists|timestamp: u64|
            (r.0, r.1@) == step_spec(
                state,
                LoopEventView::Sampled(#[trigger] reported(*final(sys), timestamp)),
                topic@,
            ),
        state == LoopState::Publishing ==> r.0 == state && r.1@ == LoopActionView::Idle
            && *final(sys) == *old(sys),
{
    match state {
        LoopState::Waiting => {
            let metrics = gather_metrics(sys);
            let ghost sampled = metrics@;
            let r = step(state, LoopEvent::Sampled(metrics), topic);
            assert((r.0, r.1@) == step_spec(
                state,
                LoopEventView::Sampled(reported(*sys, sampled.timestamp)),
                topic@,
            ));
            r
        },
        LoopState::Publishing => (state, LoopAction::Idle),
    }
}

} // verus!
