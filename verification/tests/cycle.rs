use sys_monitor::cycle::{
    delivered_entry, dropped_entry, on_tick, publish_request, send_failed_entry, step, LogEntry,
    LogLevel, LoopAction, LoopEvent, LoopState, PublishRequest, QUEUE_TIMEOUT_SECS, STREAM_KEY,
    TICK_INTERVAL_SECS,
};
use sys_monitor::metrics::SystemMetrics;
use sys_monitor::payload::{deserialize, serialize, SerializeError};
use sysinfo::{System, SystemExt};

fn metrics(timestamp: u64, cpu: f32, used: u64, total: u64, processes: usize) -> SystemMetrics {
    SystemMetrics::new(timestamp, serde_json::to_string(&cpu).unwrap(), used, total, processes)
}

#[test]
fn fixed_settings_of_the_loop() {
    assert_eq!(STREAM_KEY, "sys_metrics");
    assert_eq!(TICK_INTERVAL_SECS, 5);
    assert_eq!(QUEUE_TIMEOUT_SECS, 0);
}

#[test]
fn sampled_snapshot_is_published_with_the_fixed_key() {
    let m = metrics(1000, 42.5, 4096, 8192, 120);
    let (state, action) = step(LoopState::Waiting, LoopEvent::Sampled(m), "system_logs");
    assert_eq!(state, LoopState::Publishing);
    assert_eq!(
        action,
        LoopAction::Publish(PublishRequest {
            topic: "system_logs".to_string(),
            key: "sys_metrics".to_string(),
            payload: "{\"timestamp\":1000,\"cpu_usage_percent\":42.5,\"memory_used_kb\":4096,\"memory_total_kb\":8192,\"running_processes\":120}".to_string(),
            queue_timeout_secs: 0,
        })
    );
}

#[test]
fn failed_serialization_publishes_nothing() {
    let m = metrics(1000, f32::NAN, 4096, 8192, 120);
    let (state, action) = step(LoopState::Waiting, LoopEvent::Sampled(m), "system_logs");
    assert_eq!(state, LoopState::Waiting);
    assert_eq!(
        action,
        LoopAction::Log(LogEntry {
            level: LogLevel::Warn,
            message: "Serialization error, dropping metrics payload: cpu_usage_percent is not a JSON number".to_string(),
        })
    );
    let next = metrics(1005, 10.0, 4096, 8192, 120);
    let (state, action) = step(state, LoopEvent::Sampled(next), "system_logs");
    assert_eq!(state, LoopState::Publishing);
    assert!(matches!(action, LoopAction::Publish(_)));
}

#[test]
fn publish_is_asked_for_exactly_when_serialization_succeeds() {
    for cpu in [0.0f32, 42.5, 100.0, f32::NAN, f32::INFINITY, f32::NEG_INFINITY] {
        let m = metrics(1, cpu, 2, 3, 4);
        let encoded = serialize(&m);
        let (state, action) = step(LoopState::Waiting, LoopEvent::Sampled(m), "t");
        match encoded {
            Ok(payload) => {
                assert_eq!(state, LoopState::Publishing);
                assert_eq!(action, LoopAction::Publish(publish_request("t", payload)));
            }
            Err(e) => {
                assert_eq!(state, LoopState::Waiting);
                assert_eq!(action, LoopAction::Log(dropped_entry(e)));
            }
        }
    }
}

#[test]
fn transport_error_is_logged_and_not_retried() {
    let m = metrics(1000, 42.5, 4096, 8192, 120);
    let (state, _) = step(LoopState::Waiting, LoopEvent::Sampled(m), "system_logs");
    let report = LoopEvent::SendFailed {
        detail: "MessageProduction (MessageTimedOut)".to_string(),
    };
    let (state, action) = step(state, report, "system_logs");
    assert_eq!(state, LoopState::Waiting);
    assert_eq!(
        action,
        LoopAction::Log(LogEntry {
            level: LogLevel::Error,
            message: "Failed to enqueue message to Kafka: MessageProduction (MessageTimedOut)"
                .to_string(),
        })
    );
    let next = metrics(1005, 43.0, 4096, 8192, 121);
    let (state, action) = step(state, LoopEvent::Sampled(next.clone()), "system_logs");
    assert_eq!(state, LoopState::Publishing);
    assert_eq!(
        action,
        LoopAction::Publish(publish_request("system_logs", serialize(&next).unwrap()))
    );
}

#[test]
fn delivery_is_logged_with_its_position() {
    let report = LoopEvent::Delivered { partition: 3, offset: 42 };
    let (state, action) = step(LoopState::Publishing, report, "system_logs");
    assert_eq!(state, LoopState::Waiting);
    assert_eq!(
        action,
        LoopAction::Log(LogEntry {
            level: LogLevel::Info,
            message: "Metrics sent: partition 3 offset 42".to_string(),
        })
    );
}

#[test]
fn delivery_line_for_extreme_positions() {
    assert_eq!(delivered_entry(0, 0).message, "Metrics sent: partition 0 offset 0");
    assert_eq!(delivered_entry(-1, -1001).message, "Metrics sent: partition -1 offset -1001");
    assert_eq!(
        delivered_entry(i32::MAX, i64::MAX).message,
        "Metrics sent: partition 2147483647 offset 9223372036854775807"
    );
    assert_eq!(
        delivered_entry(i32::MIN, i64::MIN).message,
        "Metrics sent: partition -2147483648 offset -9223372036854775808"
    );
}

#[test]
fn log_lines_carry_their_level() {
    assert_eq!(delivered_entry(1, 2).level, LogLevel::Info);
    assert_eq!(send_failed_entry("x").level, LogLevel::Error);
    assert_eq!(send_failed_entry("x").message, "Failed to enqueue message to Kafka: x");
    assert_eq!(dropped_entry(SerializeError::CpuUsageNotANumber).level, LogLevel::Warn);
}

#[test]
fn consecutive_ticks_are_published_independently() {
    let first = metrics(1000, 42.5, 4096, 8192, 120);
    let second = metrics(1005, 42.5, 4096, 8192, 121);
    let mut state = LoopState::Waiting;
    let mut payloads = Vec::new();
    for (i, m) in [first.clone(), second.clone()].into_iter().enumerate() {
        let (next, action) = step(state, LoopEvent::Sampled(m), "system_logs");
        assert_eq!(next, LoopState::Publishing);
        match action {
            LoopAction::Publish(request) => {
                assert_eq!(request.key, STREAM_KEY);
                payloads.push(request.payload);
            }
            other => panic!("no publish: {:?}", other),
        }
        let report = LoopEvent::Delivered { partition: 0, offset: i as i64 };
        let (next, action) = step(next, report, "system_logs");
        assert!(matches!(action, LoopAction::Log(_)));
        state = next;
        assert_eq!(state, LoopState::Waiting);
    }
    assert_eq!(payloads.len(), 2);
    assert_ne!(payloads[0], payloads[1]);
    assert_eq!(deserialize(&payloads[0]), Some(first));
    assert_eq!(deserialize(&payloads[1]), Some(second));
}

#[test]
fn key_does_not_depend_on_payload_or_topic() {
    for (topic, cpu) in [("a", 0.0f32), ("system_logs", 99.5), ("", 1e-7)] {
        let (_, action) = step(LoopState::Waiting, LoopEvent::Sampled(metrics(1, cpu, 2, 3, 4)), topic);
        match action {
            LoopAction::Publish(request) => {
                assert_eq!(request.key, "sys_metrics");
                assert_eq!(request.topic, topic);
                assert_eq!(request.queue_timeout_secs, 0);
            }
            other => panic!("no publish: {:?}", other),
        }
    }
}

#[test]
fn events_out_of_turn_change_nothing() {
    let report = LoopEvent::Delivered { partition: 1, offset: 2 };
    assert_eq!(step(LoopState::Waiting, report, "t"), (LoopState::Waiting, LoopAction::Idle));
    let failure = LoopEvent::SendFailed { detail: "x".to_string() };
    assert_eq!(step(LoopState::Waiting, failure, "t"), (LoopState::Waiting, LoopAction::Idle));
    let sampled = LoopEvent::Sampled(metrics(1, 1.0, 2, 3, 4));
    assert_eq!(step(LoopState::Publishing, sampled, "t"), (LoopState::Publishing, LoopAction::Idle));
}

#[test]
fn tick_while_waiting_samples_the_host() {
    let mut sys = System::new_all();
    let (state, action) = on_tick(LoopState::Waiting, &mut sys, "system_logs");
    match action {
        LoopAction::Publish(request) => {
            assert_eq!(state, LoopState::Publishing);
            assert_eq!(request.topic, "system_logs");
            assert_eq!(request.key, "sys_metrics");
            let m = deserialize(&request.payload).unwrap();
            assert_eq!(m.memory_total_kb, sys.total_memory());
            assert_eq!(m.memory_used_kb, sys.used_memory());
            assert_eq!(m.running_processes, sys.processes().len());
        }
        LoopAction::Log(entry) => {
            assert_eq!(state, LoopState::Waiting);
            assert_eq!(entry.level, LogLevel::Warn);
        }
        LoopAction::Idle => panic!("a tick while waiting starts a cycle"),
    }
}

#[test]
fn tick_while_publishing_starts_no_cycle() {
    let mut sys = System::new_all();
    assert_eq!(
        on_tick(LoopState::Publishing, &mut sys, "system_logs"),
        (LoopState::Publishing, LoopAction::Idle)
    );
}
