use serde::ser::{Serialize, SerializeStruct, Serializer};
use sys_monitor::metrics::SystemMetrics;
use sys_monitor::payload::{deserialize, serialize, SerializeError};

/// The snapshot as a plain record with a float, encoded field by field by
/// serde.
struct Record {
    timestamp: u64,
    cpu_usage_percent: f32,
    memory_used_kb: u64,
    memory_total_kb: u64,
    running_processes: usize,
}

impl Serialize for Record {
    fn serialize<S: Serializer>(&self, serializer: S) -> Result<S::Ok, S::Error> {
        let mut object = serializer.serialize_struct("SystemMetrics", 5)?;
        object.serialize_field("timestamp", &self.timestamp)?;
        object.serialize_field("cpu_usage_percent", &self.cpu_usage_percent)?;
        object.serialize_field("memory_used_kb", &self.memory_used_kb)?;
        object.serialize_field("memory_total_kb", &self.memory_total_kb)?;
        object.serialize_field("running_processes", &self.running_processes)?;
        object.end()
    }
}

fn metrics(timestamp: u64, cpu: f32, used: u64, total: u64, processes: usize) -> SystemMetrics {
    SystemMetrics::new(timestamp, serde_json::to_string(&cpu).unwrap(), used, total, processes)
}

const SAMPLE: &str = "{\"timestamp\":1000,\"cpu_usage_percent\":42.5,\"memory_used_kb\":4096,\"memory_total_kb\":8192,\"running_processes\":120}";

#[test]
fn payload_has_the_five_fields_in_order() {
    let m = metrics(1000, 42.5, 4096, 8192, 120);
    assert_eq!(serialize(&m), Ok(SAMPLE.to_string()));
}

#[test]
fn payload_is_valid_json_with_the_values() {
    let m = metrics(1000, 42.5, 4096, 8192, 120);
    let text = serialize(&m).unwrap();
    let value: serde_json::Value = serde_json::from_str(&text).unwrap();
    let object = value.as_object().unwrap();
    assert_eq!(object.len(), 5);
    assert_eq!(object["timestamp"].as_u64(), Some(1000));
    assert_eq!(object["cpu_usage_percent"].as_f64(), Some(42.5));
    assert_eq!(object["memory_used_kb"].as_u64(), Some(4096));
    assert_eq!(object["memory_total_kb"].as_u64(), Some(8192));
    assert_eq!(object["running_processes"].as_u64(), Some(120));
}

#[test]
fn payload_of_extreme_values() {
    let m = metrics(u64::MAX, 0.0, 0, u64::MAX, usize::MAX);
    let expected = format!(
        "{{\"timestamp\":18446744073709551615,\"cpu_usage_percent\":0.0,\"memory_used_kb\":0,\"memory_total_kb\":18446744073709551615,\"running_processes\":{}}}",
        usize::MAX
    );
    assert_eq!(serialize(&m), Ok(expected));
}

#[test]
fn payload_of_zero_timestamp() {
    let m = metrics(0, 1.5, 1, 2, 3);
    assert_eq!(
        serialize(&m).unwrap(),
        "{\"timestamp\":0,\"cpu_usage_percent\":1.5,\"memory_used_kb\":1,\"memory_total_kb\":2,\"running_processes\":3}"
    );
}

#[test]
fn round_trip_gives_back_an_equal_snapshot() {
    let samples = [
        metrics(1000, 42.5, 4096, 8192, 120),
        metrics(0, 0.0, 0, 0, 0),
        metrics(1_700_000_000, 99.99, 16_000_000, 32_000_000, 512),
        metrics(u64::MAX, 1e-7, u64::MAX, u64::MAX, usize::MAX),
        metrics(5, -0.0, 10, 9, 1),
        metrics(7, 3.4e38, 1, 2, 3),
    ];
    for m in samples {
        let text = serialize(&m).unwrap();
        assert_eq!(deserialize(&text), Some(m));
    }
}

#[test]
fn round_trip_keeps_the_reading() {
    for cpu in [0.0f32, 42.5, 33.333332, 100.0, 0.1, 12.345679] {
        let text = serialize(&metrics(1, cpu, 2, 3, 4)).unwrap();
        let back = deserialize(&text).unwrap();
        let decoded: f32 = serde_json::from_str(&back.cpu_usage_percent).unwrap();
        assert_eq!(decoded, cpu);
    }
}

#[test]
fn payload_reports_the_memory_relation_of_the_snapshot() {
    let within = metrics(1, 10.0, 4096, 8192, 3);
    let back = deserialize(&serialize(&within).unwrap()).unwrap();
    assert!(within.is_memory_consistent());
    assert!(back.is_memory_consistent());
    assert!(back.memory_used_kb <= back.memory_total_kb);

    let beyond = metrics(1, 10.0, 8193, 8192, 3);
    let back = deserialize(&serialize(&beyond).unwrap()).unwrap();
    assert!(!beyond.is_memory_consistent());
    assert!(!back.is_memory_consistent());
}

#[test]
fn non_finite_reading_is_not_encoded() {
    for cpu in [f32::NAN, f32::INFINITY, f32::NEG_INFINITY] {
        let m = metrics(1000, cpu, 4096, 8192, 120);
        assert!(!m.is_encodable());
        assert_eq!(serialize(&m), Err(SerializeError::CpuUsageNotANumber));
    }
}

#[test]
fn reading_without_text_is_not_encoded() {
    let m = SystemMetrics::new(1000, String::new(), 4096, 8192, 120);
    assert_eq!(serialize(&m), Err(SerializeError::CpuUsageNotANumber));
}

#[test]
fn reading_that_would_break_the_object_is_not_encoded() {
    let m = SystemMetrics::new(1, "1,\"x\":2".to_string(), 2, 3, 4);
    assert_eq!(serialize(&m), Err(SerializeError::CpuUsageNotANumber));
}

#[test]
fn error_is_described() {
    assert_eq!(
        SerializeError::CpuUsageNotANumber.describe(),
        "cpu_usage_percent is not a JSON number"
    );
}

#[test]
fn deserialize_reads_a_payload() {
    assert_eq!(
        deserialize(SAMPLE),
        Some(SystemMetrics::new(1000, "42.5".to_string(), 4096, 8192, 120))
    );
}

#[test]
fn deserialize_refuses_what_is_no_payload() {
    let broken = [
        "",
        "{}",
        "null",
        // white space
        "{ \"timestamp\":1000,\"cpu_usage_percent\":42.5,\"memory_used_kb\":4096,\"memory_total_kb\":8192,\"running_processes\":120}",
        "{\"timestamp\":1000,\"cpu_usage_percent\": 42.5,\"memory_used_kb\":4096,\"memory_total_kb\":8192,\"running_processes\":120}",
        // trailing text
        "{\"timestamp\":1000,\"cpu_usage_percent\":42.5,\"memory_used_kb\":4096,\"memory_total_kb\":8192,\"running_processes\":120} ",
        "{\"timestamp\":1000,\"cpu_usage_percent\":42.5,\"memory_used_kb\":4096,\"memory_total_kb\":8192,\"running_processes\":120}}",
        // no closing brace
        "{\"timestamp\":1000,\"cpu_usage_percent\":42.5,\"memory_used_kb\":4096,\"memory_total_kb\":8192,\"running_processes\":120",
        // leading zero
        "{\"timestamp\":01000,\"cpu_usage_percent\":42.5,\"memory_used_kb\":4096,\"memory_total_kb\":8192,\"running_processes\":120}",
        // too large for 64 bits
        "{\"timestamp\":18446744073709551616,\"cpu_usage_percent\":42.5,\"memory_used_kb\":4096,\"memory_total_kb\":8192,\"running_processes\":120}",
        // negative count
        "{\"timestamp\":1000,\"cpu_usage_percent\":42.5,\"memory_used_kb\":-4096,\"memory_total_kb\":8192,\"running_processes\":120}",
        // fraction in an integer field
        "{\"timestamp\":1000,\"cpu_usage_percent\":42.5,\"memory_used_kb\":4096.0,\"memory_total_kb\":8192,\"running_processes\":120}",
        // reading that is no number
        "{\"timestamp\":1000,\"cpu_usage_percent\":null,\"memory_used_kb\":4096,\"memory_total_kb\":8192,\"running_processes\":120}",
        "{\"timestamp\":1000,\"cpu_usage_percent\":42.,\"memory_used_kb\":4096,\"memory_total_kb\":8192,\"running_processes\":120}",
        "{\"timestamp\":1000,\"cpu_usage_percent\":,\"memory_used_kb\":4096,\"memory_total_kb\":8192,\"running_processes\":120}",
        // fields in another order
        "{\"cpu_usage_percent\":42.5,\"timestamp\":1000,\"memory_used_kb\":4096,\"memory_total_kb\":8192,\"running_processes\":120}",
        // a field missing
        "{\"timestamp\":1000,\"cpu_usage_percent\":42.5,\"memory_used_kb\":4096,\"running_processes\":120}",
        // a field renamed
        "{\"timestamp\":1000,\"cpu_usage\":42.5,\"memory_used_kb\":4096,\"memory_total_kb\":8192,\"running_processes\":120}",
    ];
    for text in broken {
        assert_eq!(deserialize(text), None, "{}", text);
    }
}

#[test]
fn deserialize_accepts_any_json_number_as_reading() {
    let text = "{\"timestamp\":1,\"cpu_usage_percent\":-1.25e+2,\"memory_used_kb\":2,\"memory_total_kb\":3,\"running_processes\":4}";
    let m = deserialize(text).unwrap();
    assert_eq!(m.cpu_usage_percent, "-1.25e+2");
    assert_eq!(serialize(&m).unwrap(), text);
}

#[test]
fn payload_is_what_serde_json_writes_for_the_record() {
    let readings = [0.0f32, 42.5, 100.0, 33.333332, 0.1, 1e-7, 2.5e10, -0.0, f32::MAX];
    for (i, cpu) in readings.into_iter().enumerate() {
        let record = Record {
            timestamp: 1_700_000_000 + i as u64,
            cpu_usage_percent: cpu,
            memory_used_kb: 4096 * i as u64,
            memory_total_kb: u64::MAX - i as u64,
            running_processes: 120 + i,
        };
        let m = metrics(
            record.timestamp,
            record.cpu_usage_percent,
            record.memory_used_kb,
            record.memory_total_kb,
            record.running_processes,
        );
        assert_eq!(serialize(&m).unwrap(), serde_json::to_string(&record).unwrap());
    }
}
