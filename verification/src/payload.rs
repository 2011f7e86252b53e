//! The payload of a published message: a snapshot as one JSON object, its
//! five fields in a fixed order and without white space.

use vstd::prelude::*;
use crate::decimal::{
    decimal, decimal_value, digits_end, is_digit, lemma_canonical_decimal, lemma_decimal_canonical,
    lemma_digits_end, lemma_digits_end_run, push_decimal, read_decimal, scan_digits,
};
use crate::metrics::{MetricsView, SystemMetrics};
use crate::number::{
    is_json_number, is_number_char, lemma_number_end_embedded, lemma_number_end_within, number_end,
    scan_number,
};
use crate::text::{match_word, to_chars, word_end};

verus! {

/// Opens the object and names the timestamp.
pub const KEY_TIMESTAMP: &'static str = "{\"timestamp\":";

/// Names the CPU utilisation.
pub const KEY_CPU_USAGE: &'static str = ",\"cpu_usage_percent\":";

/// Names the memory in use.
pub const KEY_MEMORY_USED: &'static str = ",\"memory_used_kb\":";

/// Names the memory installed.
pub const KEY_MEMORY_TOTAL: &'static str = ",\"memory_total_kb\":";

/// Names the process count.
pub const KEY_PROCESSES: &'static str = ",\"running_processes\":";

/// Closes the object.
pub const CLOSE: &'static str = "}";

/// Why a snapshot could not be encoded.
#[derive(Debug, Clone, Copy, PartialEq, Eq, Structural)]
pub enum SerializeError {
    /// The CPU utilisation is no JSON number: the reading was not finite, or
    /// the encoder gave no text for it.
    CpuUsageNotANumber,
}

/// What a log line says of a snapshot whose CPU utilisation is no JSON
/// number.
pub const CPU_USAGE_NOT_A_NUMBER: &'static str = "cpu_usage_percent is not a JSON number";

impl SerializeError {
    /// The text that describes the error.
    pub open spec fn description(self) -> Seq<char> {
        match self {
            SerializeError::CpuUsageNotANumber => CPU_USAGE_NOT_A_NUMBER@,
        }
    }

    /// Describes the error in words.
    pub fn describe(&self) -> (text: String)
        ensures
            text@ == self.description(),
    {
        match self {
            SerializeError::CpuUsageNotANumber => String::from_str(CPU_USAGE_NOT_A_NUMBER),
        }
    }
}

/// The payload of the snapshot `m`.
pub open spec fn payload_text(m: MetricsView) -> Seq<char> {
    KEY_TIMESTAMP@ + decimal(m.timestamp as nat) + KEY_CPU_USAGE@ + m.cpu_usage_percent
        + KEY_MEMORY_USED@ + decimal(m.memory_used_kb as nat) + KEY_MEMORY_TOTAL@ + decimal(
        m.memory_total_kb as nat,
    ) + KEY_PROCESSES@ + decimal(m.running_processes as nat) + CLOSE@
}

/// What encoding the snapshot `m` gives: its payload, or the reason why it
/// has none.
pub open spec fn serialize_spec(m: MetricsView) -> Result<Seq<char>, SerializeError> {
    if m.encodable() {
        Ok(payload_text(m))
    } else {
        Err(SerializeError::CpuUsageNotANumber)
    }
}

/// Encodes a snapshot as its payload. Fails, without a payload, exactly when
/// the CPU utilisation is no JSON number.
pub fn serialize(m: &SystemMetrics) -> (r: Result<String, SerializeError>)
    ensures
        match r {
            Ok(text) => serialize_spec(m@) == Ok::<Seq<char>, SerializeError>(text@),
            Err(e) => serialize_spec(m@) == Err::<Seq<char>, SerializeError>(e),
        },
{
    if !m.is_encodable() {
        return Err(SerializeError::CpuUsageNotANumber);
    }
    let mut out = String::new();
    out.append(KEY_TIMESTAMP);
    push_decimal(&mut out, m.timestamp);
    out.append(KEY_CPU_USAGE);
    out.append(m.cpu_usage_percent.as_str());
    out.append(KEY_MEMORY_USED);
    push_decimal(&mut out, m.memory_used_kb);
    out.append(KEY_MEMORY_TOTAL);
    push_decimal(&mut out, m.memory_total_kb);
    out.append(KEY_PROCESSES);
    push_decimal(&mut out, m.running_processes as u64);
    out.append(CLOSE);
    assert(out@ =~= payload_text(m@));
    Ok(out)
}

/// The integer field named by `key` that stands in `s` at `at`: its value
/// and where it ends.
pub open spec fn integer_field(s: Seq<char>, at: int, key: Seq<char>) -> Option<(u64, int)> {
    match word_end(s, at, key) {
        Some(start) => {
            let end = digits_end(s, start);
            match decimal_value(s.subrange(start, end)) {
                Some(value) => Some((value, end)),
                None => None,
            }
        },
        None => None,
    }
}

/// The number field named by `key` that stands in `s` at `at`: its text and
/// where it ends.
pub open spec fn number_field(s: Seq<char>, at: int, key: Seq<char>) -> Option<(Seq<char>, int)> {
    match word_end(s, at, key) {
        Some(start) => match number_end(s, start) {
            Some(end) => Some((s.subrange(start, end), end)),
            None => None,
        },
        None => None,
    }
}

/// The snapshot that `s` reads as, field by field from the left; `None`
/// where `s` departs from the payload format.
pub open spec fn deserialize_spec(s: Seq<char>) -> Option<MetricsView> {
    match integer_field(s, 0, KEY_TIMESTAMP@) {
        Some((timestamp, e1)) => match number_field(s, e1, KEY_CPU_USAGE@) {
            Some((cpu_usage_percent, e2)) => match integer_field(s, e2, KEY_MEMORY_USED@) {
                Some((memory_used_kb, e3)) => match integer_field(s, e3, KEY_MEMORY_TOTAL@) {
                    Some((memory_total_kb, e4)) => match integer_field(s, e4, KEY_PROCESSES@) {
                        Some((processes, e5)) => if word_end(s, e5, CLOSE@) == Some(s.len() as int)
                            && processes <= usize::MAX {
                            Some(
                                MetricsView {
                                    timestamp,
                                    cpu_usage_percent,
                                    memory_used_kb,
                                    memory_total_kb,
                                    running_processes: processes as usize,
                                },
                            )
                        } else {
                            None
                        },
                        None => None,
                    },
                    None => None,
                },
                None => None,
            },
            None => None,
        },
        None => None,
    }
}

/// An integer field that was read spells its key and the decimal text of
/// its value.
proof fn lemma_integer_field_sound(s: Seq<char>, at: int, key: Seq<char>, value: u64, end: int)
    requires
        0 <= at,
        integer_field(s, at, key) == Some((value, end)),
    ensures
        at <= end <= s.len(),
        s.subrange(at, end) == key + decimal(value as nat),
{
    let start = word_end(s, at, key)->0;
    lemma_digits_end_run(s, start);
    lemma_canonical_decimal(s.subrange(start, end));
    assert(s.subrange(at, end) =~= s.subrange(at, start) + s.subrange(start, end));
}

/// A number field that was read spells its key and a JSON number.
proof fn lemma_number_field_sound(s: Seq<char>, at: int, key: Seq<char>, t: Seq<char>, end: int)
    requires
        0 <= at,
        number_field(s, at, key) == Some((t, end)),
    ensures
        at <= end <= s.len(),
        is_json_number(t),
        s.subrange(at, end) == key + t,
{
    let start = word_end(s, at, key)->0;
    lemma_number_end_within(s, start);
    assert(s.subrange(at, end) =~= s.subrange(at, start) + s.subrange(start, end));
}

/// An integer field is read back from where it was written, when what
/// follows it does not start with a digit.
proof fn lemma_integer_field_written(a: Seq<char>, key: Seq<char>, value: u64, b: Seq<char>)
    requires
        b.len() == 0 || !is_digit(b[0]),
    ensures
        integer_field(a + key + decimal(value as nat) + b, a.len() as int, key) == Some(
            (value, (a.len() + key.len() + decimal(value as nat).len()) as int),
        ),
{
    let d = decimal(value as nat);
    let s = a + key + d + b;
    let start = (a.len() + key.len()) as int;
    let end = start + d.len();
    lemma_decimal_canonical(value as nat);
    assert(s.subrange(a.len() as int, start) =~= key);
    assert forall|i: int| start <= i < end implies is_digit(#[trigger] s[i]) by {
        assert(s[i] == d[i - start]);
    }
    if b.len() > 0 {
        assert(s[end] == b[0]);
    }
    lemma_digits_end(s, start, end);
    assert(s.subrange(start, end) =~= d);
}

/// A number field is read back from where it was written, when what follows
/// it does not start with a character of a number.
proof fn lemma_number_field_written(a: Seq<char>, key: Seq<char>, t: Seq<char>, b: Seq<char>)
    requires
        is_json_number(t),
        b.len() == 0 || !is_number_char(b[0]),
    ensures
        number_field(a + key + t + b, a.len() as int, key) == Some(
            (t, (a.len() + key.len() + t.len()) as int),
        ),
{
    let s = a + key + t + b;
    let start = (a.len() + key.len()) as int;
    assert(s.subrange(a.len() as int, start) =~= key);
    lemma_number_end_embedded(a + key, t, b);
    assert(s.subrange(start, start + t.len()) =~= t);
}

/// What the keys start with: none starts with a character that could
/// continue the value before it.
proof fn lemma_keys()
    ensures
        KEY_CPU_USAGE@.len() > 0 && KEY_CPU_USAGE@[0] == ',',
        KEY_MEMORY_USED@.len() > 0 && KEY_MEMORY_USED@[0] == ',',
        KEY_MEMORY_TOTAL@.len() > 0 && KEY_MEMORY_TOTAL@[0] == ',',
        KEY_PROCESSES@.len() > 0 && KEY_PROCESSES@[0] == ',',
        CLOSE@.len() == 1 && CLOSE@[0] == '}',
{
    reveal_strlit(",\"cpu_usage_percent\":");
    reveal_strlit(",\"memory_used_kb\":");
    reveal_strlit(",\"memory_total_kb\":");
    reveal_strlit(",\"running_processes\":");
    reveal_strlit("}");
}

/// Where the timestamp field ends in the payload of `m`.
spec fn timestamp_end(m: MetricsView) -> int {
    (KEY_TIMESTAMP@.len() + decimal(m.timestamp as nat).len()) as int
}

/// Where the CPU field ends in the payload of `m`.
spec fn cpu_usage_end(m: MetricsView) -> int {
    timestamp_end(m) + KEY_CPU_USAGE@.len() + m.cpu_usage_percent.len()
}

/// Where the field of the memory in use ends in the payload of `m`.
spec fn memory_used_end(m: MetricsView) -> int {
    cpu_usage_end(m) + KEY_MEMORY_USED@.len() + decimal(m.memory_used_kb as nat).len()
}

/// Where the field of the memory installed ends in the payload of `m`.
spec fn memory_total_end(m: MetricsView) -> int {
    memory_used_end(m) + KEY_MEMORY_TOTAL@.len() + decimal(m.memory_total_kb as nat).len()
}

/// Where the field of the process count ends in the payload of `m`.
spec fn processes_end(m: MetricsView) -> int {
    memory_total_end(m) + KEY_PROCESSES@.len() + decimal(m.running_processes as nat).len()
}

/// The timestamp is read back from a payload.
proof fn lemma_timestamp_written(m: MetricsView)
    ensures
        integer_field(payload_text(m), 0, KEY_TIMESTAMP@) == Some(
            (m.timestamp, timestamp_end(m)),
        ),
{
    lemma_keys();
    let a = Seq::<char>::empty();
    let b = KEY_CPU_USAGE@ + m.cpu_usage_percent + KEY_MEMORY_USED@ + decimal(
        m.memory_used_kb as nat,
    ) + KEY_MEMORY_TOTAL@ + decimal(m.memory_total_kb as nat) + KEY_PROCESSES@ + decimal(
        m.running_processes as nat,
    ) + CLOSE@;
    assert(b[0] == KEY_CPU_USAGE@[0]);
    assert(payload_text(m) =~= a + KEY_TIMESTAMP@ + decimal(m.timestamp as nat) + b);
    lemma_integer_field_written(a, KEY_TIMESTAMP@, m.timestamp, b);
}

/// The CPU utilisation is read back from a payload.
proof fn lemma_cpu_usage_written(m: MetricsView)
    requires
        m.encodable(),
    ensures
        number_field(payload_text(m), timestamp_end(m), KEY_CPU_USAGE@) == Some(
            (m.cpu_usage_percent, cpu_usage_end(m)),
        ),
{
    lemma_keys();
    let a = KEY_TIMESTAMP@ + decimal(m.timestamp as nat);
    let b = KEY_MEMORY_USED@ + decimal(m.memory_used_kb as nat) + KEY_MEMORY_TOTAL@ + decimal(
        m.memory_total_kb as nat,
    ) + KEY_PROCESSES@ + decimal(m.running_processes as nat) + CLOSE@;
    assert(b[0] == KEY_MEMORY_USED@[0]);
    assert(payload_text(m) =~= a + KEY_CPU_USAGE@ + m.cpu_usage_percent + b);
    lemma_number_field_written(a, KEY_CPU_USAGE@, m.cpu_usage_percent, b);
}

/// The memory in use is read back from a payload.
proof fn lemma_memory_used_written(m: MetricsView)
    ensures
        integer_field(payload_text(m), cpu_usage_end(m), KEY_MEMORY_USED@) == Some(
            (m.memory_used_kb, memory_used_end(m)),
        ),
{
    lemma_keys();
    let a = KEY_TIMESTAMP@ + decimal(m.timestamp as nat) + KEY_CPU_USAGE@ + m.cpu_usage_percent;
    let b = KEY_MEMORY_TOTAL@ + decimal(m.memory_total_kb as nat) + KEY_PROCESSES@ + decimal(
        m.running_processes as nat,
    ) + CLOSE@;
    assert(b[0] == KEY_MEMORY_TOTAL@[0]);
    assert(payload_text(m) =~= a + KEY_MEMORY_USED@ + decimal(m.memory_used_kb as nat) + b);
    lemma_integer_field_written(a, KEY_MEMORY_USED@, m.memory_used_kb, b);
}

/// The memory installed is read back from a payload.
proof fn lemma_memory_total_written(m: MetricsView)
    ensures
        integer_field(payload_text(m), memory_used_end(m), KEY_MEMORY_TOTAL@) == Some(
            (m.memory_total_kb, memory_total_end(m)),
        ),
{
    lemma_keys();
    let a = KEY_TIMESTAMP@ + decimal(m.timestamp as nat) + KEY_CPU_USAGE@ + m.cpu_usage_percent
        + KEY_MEMORY_USED@ + decimal(m.memory_used_kb as nat);
    let b = KEY_PROCESSES@ + decimal(m.running_processes as nat) + CLOSE@;
    assert(b[0] == KEY_PROCESSES@[0]);
    assert(payload_text(m) =~= a + KEY_MEMORY_TOTAL@ + decimal(m.memory_total_kb as nat) + b);
    lemma_integer_field_written(a, KEY_MEMORY_TOTAL@, m.memory_total_kb, b);
}

/// The process count is read back from a payload, and the closing brace
/// ends the payload.
proof fn lemma_processes_written(m: MetricsView)
    ensures
        integer_field(payload_text(m), memory_total_end(m), KEY_PROCESSES@) == Some(
            (m.running_processes as u64, processes_end(m)),
        ),
        word_end(payload_text(m), processes_end(m), CLOSE@) == Some(payload_text(m).len() as int),
{
    lemma_keys();
    let a = KEY_TIMESTAMP@ + decimal(m.timestamp as nat) + KEY_CPU_USAGE@ + m.cpu_usage_percent
        + KEY_MEMORY_USED@ + decimal(m.memory_used_kb as nat) + KEY_MEMORY_TOTAL@ + decimal(
        m.memory_total_kb as nat,
    );
    let s = payload_text(m);
    assert(s == a + KEY_PROCESSES@ + decimal(m.running_processes as nat) + CLOSE@);
    lemma_integer_field_written(a, KEY_PROCESSES@, m.running_processes as u64, CLOSE@);
    assert(s.len() == processes_end(m) + CLOSE@.len());
    assert(s.subrange(processes_end(m), processes_end(m) + CLOSE@.len()) =~= CLOSE@);
}

/// Reading a payload gives back the snapshot it was written from.
proof fn lemma_payload_read_back(m: MetricsView)
    requires
        m.encodable(),
    ensures
        deserialize_spec(payload_text(m)) == Some(m),
{
    lemma_timestamp_written(m);
    lemma_cpu_usage_written(m);
    lemma_memory_used_written(m);
    lemma_memory_total_written(m);
    lemma_processes_written(m);
}

/// Serialization followed by deserialization gives back an equal snapshot,
/// field for field: whenever `m` encodes as `text`, `text` decodes as `m`.
pub proof fn lemma_round_trip(m: MetricsView, text: Seq<char>)
    requires
        serialize_spec(m) == Ok::<Seq<char>, SerializeError>(text),
    ensures
        deserialize_spec(text) == Some(m),
{
    lemma_payload_read_back(m);
}

/// The payload reports the memory figures as the snapshot holds them: what
/// a consumer decodes has the memory in use within the memory installed
/// exactly when the snapshot has.
pub proof fn lemma_payload_keeps_memory_relation(m: MetricsView, text: Seq<char>)
    requires
        serialize_spec(m) == Ok::<Seq<char>, SerializeError>(text),
    ensures
        deserialize_spec(text) matches Some(decoded) && decoded.memory_used_kb == m.memory_used_kb
            && decoded.memory_total_kb == m.memory_total_kb && decoded.memory_consistent()
            == m.memory_consistent(),
{
    lemma_payload_read_back(m);
}

/// A text cut at five places is its six pieces put together again.
proof fn lemma_pieces(s: Seq<char>, e1: int, e2: int, e3: int, e4: int, e5: int)
    requires
        0 <= e1 <= e2 <= e3 <= e4 <= e5 <= s.len(),
    ensures
        s == s.subrange(0, e1) + s.subrange(e1, e2) + s.subrange(e2, e3) + s.subrange(e3, e4)
            + s.subrange(e4, e5) + s.subrange(e5, s.len() as int),
{
    assert(s =~= s.subrange(0, e1) + s.subrange(e1, e2) + s.subrange(e2, e3) + s.subrange(e3, e4)
        + s.subrange(e4, e5) + s.subrange(e5, s.len() as int));
}

/// Eleven texts in a row, read pair by pair.
proof fn lemma_pairs(
    k1: Seq<char>,
    v1: Seq<char>,
    k2: Seq<char>,
    v2: Seq<char>,
    k3: Seq<char>,
    v3: Seq<char>,
    k4: Seq<char>,
    v4: Seq<char>,
    k5: Seq<char>,
    v5: Seq<char>,
    k6: Seq<char>,
)
    ensures
        k1 + v1 + k2 + v2 + k3 + v3 + k4 + v4 + k5 + v5 + k6 == (k1 + v1) + (k2 + v2) + (k3 + v3)
            + (k4 + v4) + (k5 + v5) + k6,
{
    assert(k1 + v1 + k2 + v2 + k3 + v3 + k4 + v4 + k5 + v5 + k6 =~= (k1 + v1) + (k2 + v2) + (k3
        + v3) + (k4 + v4) + (k5 + v5) + k6);
}

/// A text that decodes as a snapshot is the payload of that snapshot, and
/// the snapshot can be encoded.
pub proof fn lemma_decoded_is_payload(s: Seq<char>, m: MetricsView)
    requires
        deserialize_spec(s) == Some(m),
    ensures
        m.encodable(),
        payload_text(m) == s,
{
    let k1 = KEY_TIMESTAMP@;
    let k2 = KEY_CPU_USAGE@;
    let k3 = KEY_MEMORY_USED@;
    let k4 = KEY_MEMORY_TOTAL@;
    let k5 = KEY_PROCESSES@;
    let k6 = CLOSE@;
    let (timestamp, e1) = integer_field(s, 0, k1).unwrap();
    lemma_integer_field_sound(s, 0, k1, timestamp, e1);
    let (cpu, e2) = number_field(s, e1, k2).unwrap();
    lemma_number_field_sound(s, e1, k2, cpu, e2);
    let (used, e3) = integer_field(s, e2, k3).unwrap();
    lemma_integer_field_sound(s, e2, k3, used, e3);
    let (total, e4) = integer_field(s, e3, k4).unwrap();
    lemma_integer_field_sound(s, e3, k4, total, e4);
    let (processes, e5) = integer_field(s, e4, k5).unwrap();
    lemma_integer_field_sound(s, e4, k5, processes, e5);
    assert(s.subrange(e5, s.len() as int) == k6);
    lemma_pieces(s, e1, e2, e3, e4, e5);
    lemma_pairs(
        k1,
        decimal(timestamp as nat),
        k2,
        cpu,
        k3,
        decimal(used as nat),
        k4,
        decimal(total as nat),
        k5,
        decimal(processes as nat),
        k6,
    );
}

/// Reads the integer field named by `key` at `at`.
fn read_integer_field(chars: &Vec<char>, at: usize, key: &str) -> (r: Option<(u64, usize)>)
    requires
        at <= chars.len(),
    ensures
        match r {
            Some((value, end)) => integer_field(chars@, at as int, key@) == Some(
                (value, end as int),
            ) && end <= chars.len(),
            None => integer_field(chars@, at as int, key@) is None,
        },
{
    match match_word(chars, at, key) {
        Some(start) => {
            let end = scan_digits(chars, start);
            match read_decimal(chars, start, end) {
                Some(value) => Some((value, end)),
                None => None,
            }
        },
        None => None,
    }
}

/// Reads the number field named by `key` at `at`: where its text starts and
/// where it ends.
fn read_number_field(chars: &Vec<char>, at: usize, key: &str) -> (r: Option<(usize, usize)>)
    requires
        at <= chars.len(),
    ensures
        match r {
            Some((start, end)) => number_field(chars@, at as int, key@) == Some(
                (chars@.subrange(start as int, end as int), end as int),
            ) && start <= end <= chars.len(),
            None => number_field(chars@, at as int, key@) is None,
        },
{
    match match_word(chars, at, key) {
        Some(start) => match scan_number(chars, start) {
            Some(end) => Some((start, end)),
            None => None,
        },
        None => None,
    }
}

/// Reads `text` field by field.
fn read_payload(text: &str) -> (r: Option<SystemMetrics>)
    ensures
        match r {
            Some(m) => deserialize_spec(text@) == Some(m@),
            None => deserialize_spec(text@) is None,
        },
{
    let chars = to_chars(text);
    let (timestamp, e1) = match read_integer_field(&chars, 0, KEY_TIMESTAMP) {
        Some(field) => field,
        None => return None,
    };
    let (cpu_start, e2) = match read_number_field(&chars, e1, KEY_CPU_USAGE) {
        Some(field) => field,
        None => return None,
    };
    let (memory_used_kb, e3) = match read_integer_field(&chars, e2, KEY_MEMORY_USED) {
        Some(field) => field,
        None => return None,
    };
    let (memory_total_kb, e4) = match read_integer_field(&chars, e3, KEY_MEMORY_TOTAL) {
        Some(field) => field,
        None => return None,
    };
    let (processes, e5) = match read_integer_field(&chars, e4, KEY_PROCESSES) {
        Some(field) => field,
        None => return None,
    };
    match match_word(&chars, e5, CLOSE) {
        Some(end) => {
            if end != chars.len() {
                return None;
            }
        },
        None => return None,
    }
    if processes > usize::MAX as u64 {
        return None;
    }
    let cpu_usage_percent = String::from_str(text.substring_char(cpu_start, e2));
    Some(
        SystemMetrics {
            timestamp,
            cpu_usage_percent,
            memory_used_kb,
            memory_total_kb,
            running_processes: processes as usize,
        },
    )
}

/// Decodes a payload. Gives the snapshot whose payload `text` is, and
/// `None` exactly when `text` is the payload of no snapshot.
pub fn deserialize(text: &str) -> (r: Option<SystemMetrics>)
    ensures
        match r {
            Some(m) => deserialize_spec(text@) == Some(m@) && m@.encodable() && payload_text(m@)
                == text@,
            None => deserialize_spec(text@) is None && forall|v: MetricsView|
                v.encodable() ==> payload_text(v) != text@,
        },
{
    let r = read_payload(text);
    proof {
        if r is Some {
            lemma_decoded_is_payload(text@, r.unwrap()@);
        } else {
            assert forall|v: MetricsView| v.encodable() implies payload_text(v) != text@ by {
                lemma_payload_read_back(v);
            }
        }
    }
    r
}

} // verus!
