use lognarrator_client::collector::cache::{
    cache_file, grow, is_listed, is_rotation_due, LocalCacheExporter,
};
use lognarrator_client::collector::wire::instant_of;
use lognarrator_client::json::{parse, render, Json};
use lognarrator_client::collector::clock::Clock;
use lognarrator_client::collector::cloud::{content_type, EncryptedData};
use lognarrator_client::collector::config::ExporterConfig;
use lognarrator_client::collector::entry::{LogEntry, Timestamp};
use lognarrator_client::collector::exporters::{
    create_exporter, DatabaseExporter, ExportAction, Exporter, ExporterError, LogExporter,
    LogNarratorExporter,
};
use lognarrator_client::collector::wire::severity_num;
use lognarrator_client::crypto::{generate_keypair, init, verify};
use lognarrator_client::string_map::StringMap;

fn clock(monotonic_millis: u64) -> Clock {
    Clock { monotonic_millis, wall: Timestamp::new(1_700_000_000, 0).unwrap() }
}

fn entry(message: &str, level: Option<&str>) -> LogEntry {
    let mut attributes = StringMap::new();
    attributes.insert("host".to_string(), "edge-1".to_string());
    LogEntry {
        timestamp: Timestamp::new(1_672_574_400, 123_000_000).unwrap(),
        source: "unit".to_string(),
        level: level.map(|l| l.to_string()),
        message: message.to_string(),
        attributes,
    }
}

fn cloud(batch_size: u32, interval: u64) -> LogNarratorExporter {
    LogNarratorExporter::new(
        "cloud".to_string(),
        "https://example.invalid/ingest".to_string(),
        "client-7".to_string(),
        "/keys/private.key".to_string(),
        batch_size,
        interval,
        Some(&vec![7u8; 64]),
        clock(0),
    )
    .unwrap()
}

#[test]
fn cloud_exporter_needs_its_key_file() {
    let result = LogNarratorExporter::new(
        "cloud".to_string(),
        "https://example.invalid".to_string(),
        "c".to_string(),
        "/missing.key".to_string(),
        2,
        30,
        None,
        clock(0),
    );
    match result {
        Err(ExporterError::KeyNotFound { path }) => assert_eq!(path, "/missing.key"),
        _ => panic!("the key file is missing"),
    }
}

#[test]
fn cloud_exporter_needs_a_key_of_the_right_length() {
    for length in [0usize, 32, 63, 65] {
        let result = LogNarratorExporter::new(
            "cloud".to_string(),
            "https://example.invalid".to_string(),
            "c".to_string(),
            "/short.key".to_string(),
            2,
            30,
            Some(&vec![1u8; length]),
            clock(0),
        );
        match result {
            Err(ExporterError::InvalidKey { path }) => assert_eq!(path, "/short.key"),
            _ => panic!("a file of {} bytes holds no signing key", length),
        }
    }
    let (_, secret_key) = generate_keypair();
    assert!(LogNarratorExporter::new(
        "cloud".to_string(),
        "https://example.invalid".to_string(),
        "c".to_string(),
        "/good.key".to_string(),
        2,
        30,
        Some(secret_key.as_bytes()),
        clock(0),
    )
    .is_ok());
}

#[test]
fn cloud_exporter_sends_one_batch_per_two_entries() {
    let mut exporter = cloud(2, 3600);
    assert!(matches!(exporter.export(entry("one", None), clock(10)), Ok(ExportAction::Nothing)));
    assert_eq!(exporter.buffered(), 1);
    match exporter.export(entry("two", None), clock(20)) {
        Ok(ExportAction::Transmit { batch }) => {
            assert_eq!(batch.len(), 2);
            assert_eq!(batch[0].message, "one");
            assert_eq!(batch[1].message, "two");
        }
        _ => panic!("the second entry fills the batch"),
    }
    assert_eq!(exporter.buffered(), 0);
    assert!(matches!(exporter.flush(), Ok(ExportAction::Nothing)));
    assert!(matches!(exporter.flush(), Ok(ExportAction::Nothing)));
    assert!(matches!(exporter.export(entry("three", None), clock(30)), Ok(ExportAction::Nothing)));
    match exporter.flush() {
        Ok(ExportAction::Transmit { batch }) => assert_eq!(batch.len(), 1),
        _ => panic!("a flush hands out what is buffered"),
    }
    assert_eq!(exporter.name(), "cloud");
    assert_eq!(exporter.endpoint(), "https://example.invalid/ingest");
    assert_eq!(exporter.key_path(), "/keys/private.key");
}

#[test]
fn cloud_exporter_sends_when_the_interval_has_passed() {
    let mut exporter = cloud(100, 30);
    assert!(matches!(exporter.export(entry("a", None), clock(29_999)), Ok(ExportAction::Nothing)));
    match exporter.export(entry("b", None), clock(30_000)) {
        Ok(ExportAction::Transmit { batch }) => assert_eq!(batch.len(), 2),
        _ => panic!("thirty seconds have passed"),
    }
    exporter.flush_succeeded(clock(30_000));
    assert!(matches!(exporter.export(entry("c", None), clock(59_999)), Ok(ExportAction::Nothing)));
    assert!(matches!(
        exporter.export(entry("d", None), clock(60_000)),
        Ok(ExportAction::Transmit { .. })
    ));
}

#[test]
fn cloud_exporter_with_batch_size_zero_sends_every_entry() {
    let mut exporter = cloud(0, 3600);
    assert!(matches!(
        exporter.export(entry("a", None), clock(1)),
        Ok(ExportAction::Transmit { .. })
    ));
}

#[test]
fn severity_numbers() {
    assert_eq!(severity_num("TRACE"), 1);
    assert_eq!(severity_num("DEBUG"), 5);
    assert_eq!(severity_num("INFO"), 9);
    assert_eq!(severity_num("WARN"), 13);
    assert_eq!(severity_num("ERROR"), 17);
    assert_eq!(severity_num("FATAL"), 21);
    assert_eq!(severity_num("NOTICE"), 9);
    assert_eq!(severity_num("error"), 9);
    assert_eq!(severity_num(""), 9);
}

#[test]
fn signed_batch_verifies_and_holds_the_wire_records() {
    init().unwrap();
    let (public_key, secret_key) = generate_keypair();
    let exporter = cloud(2, 30);
    let batch = vec![entry("disk full", Some("error")), entry("fine", None)];
    let signed = exporter.encrypt_batch(&batch, &secret_key).unwrap();
    let text = verify(&signed, &public_key).expect("the signature verifies");
    assert_eq!(signed.len(), text.len() + 64);
    assert_eq!(
        String::from_utf8(text.clone()).unwrap(),
        "{\"records\":[{\"attributes\":{\"host\":\"edge-1\"},\"body\":\"disk full\",\
         \"resource\":{\"source\":\"unit\"},\"severity\":\"ERROR\",\"severity_num\":17,\
         \"span_id\":null,\"timestamp\":1672574400123,\"trace_id\":null},\
         {\"attributes\":{\"host\":\"edge-1\"},\"body\":\"fine\",\
         \"resource\":{\"source\":\"unit\"},\"severity\":\"INFO\",\"severity_num\":9,\
         \"span_id\":null,\"timestamp\":1672574400123,\"trace_id\":null}]}"
    );
    let (other_public, _) = generate_keypair();
    assert!(verify(&signed, &other_public).is_none());
    let mut tampered = signed.clone();
    let last = tampered.len() - 1;
    tampered[last] ^= 1;
    assert!(verify(&tampered, &public_key).is_none());
}

#[test]
fn envelope_carries_the_signed_batch_in_base64() {
    init().unwrap();
    let (public_key, secret_key) = generate_keypair();
    let exporter = cloud(2, 30);
    let batch = vec![entry("m", Some("warn"))];
    let envelope = exporter.seal(&batch, &secret_key, clock(5)).unwrap();
    assert_eq!(envelope.client_id, "client-7");
    assert_eq!(envelope.timestamp, 1_700_000_000_000);
    assert_eq!(envelope.version, 1);
    assert_eq!(envelope.algorithm, "nacl.signing");
    assert_eq!(envelope.nonce, "");
    assert!(!envelope.compressed);
    let signed = base64::decode(&envelope.data).unwrap();
    assert_eq!(signed, exporter.encrypt_batch(&batch, &secret_key).unwrap());
    assert!(verify(&signed, &public_key).is_some());
    assert_eq!(content_type(), "application/json+encrypted");
}

#[test]
fn envelope_as_json() {
    let envelope = EncryptedData {
        client_id: "c".to_string(),
        timestamp: 5,
        version: 1,
        algorithm: "nacl.signing".to_string(),
        nonce: String::new(),
        data: "aGk=".to_string(),
        compressed: false,
    };
    assert_eq!(
        envelope.to_json(),
        "{\"algorithm\":\"nacl.signing\",\"client_id\":\"c\",\"compressed\":false,\
         \"data\":\"aGk=\",\"nonce\":\"\",\"timestamp\":5,\"version\":1}"
    );
}

#[test]
fn transport_failure_carries_the_response_text() {
    assert!(LogNarratorExporter::transport_outcome(true, "ignored").is_ok());
    match LogNarratorExporter::transport_outcome(false, "quota exceeded") {
        Err(ExporterError::Transport { message }) => {
            assert_eq!(message, "Failed to export logs: quota exceeded")
        }
        _ => panic!("a failure status is an error"),
    }
}

#[test]
fn cache_line_of_an_entry() {
    assert_eq!(
        entry("hello \"world\"", Some("INFO")).to_json_line(),
        "{\"attributes\":{\"host\":\"edge-1\"},\"level\":\"INFO\",\
         \"message\":\"hello \\\"world\\\"\",\"source\":\"unit\",\
         \"timestamp\":\"2023-01-01T12:00:00.123Z\"}"
    );
    let mut plain = entry("m", None);
    plain.timestamp = Timestamp::new(1_672_574_400, 0).unwrap();
    plain.attributes = StringMap::new();
    assert_eq!(
        plain.to_json_line(),
        "{\"attributes\":{},\"level\":null,\"message\":\"m\",\"source\":\"unit\",\
         \"timestamp\":\"2023-01-01T12:00:00Z\"}"
    );
}

#[test]
fn cache_line_round_trip() {
    let mut written = entry("line\nbreak and \"quotes\" and ünïcödé", Some("warn"));
    written.attributes.insert("k2".to_string(), "v \\ 2".to_string());
    written.timestamp = Timestamp::new(1_700_000_000, 999_999_999).unwrap();
    let line = written.to_json_line();
    assert!(!line.contains('\n'));
    let read = LogEntry::from_json_line(&line).unwrap();
    assert_eq!(read.timestamp, written.timestamp);
    assert_eq!(read.source, written.source);
    assert_eq!(read.level, written.level);
    assert_eq!(read.message, written.message);
    assert_eq!(read.attributes.len(), 2);
    assert_eq!(read.attributes.get("host"), Some(&"edge-1".to_string()));
    assert_eq!(read.attributes.get("k2"), Some(&"v \\ 2".to_string()));
    let without_level = entry("m", None);
    let read = LogEntry::from_json_line(&without_level.to_json_line()).unwrap();
    assert_eq!(read.level, None);
    assert_eq!(read.timestamp, without_level.timestamp);
}

#[test]
fn cache_line_that_is_no_entry_is_refused() {
    assert!(LogEntry::from_json_line("not json").is_none());
    assert!(LogEntry::from_json_line("[]").is_none());
    assert!(LogEntry::from_json_line("{}").is_none());
    let no_attributes =
        "{\"timestamp\":\"2023-01-01T12:00:00Z\",\"source\":\"s\",\"message\":\"m\"}";
    assert!(LogEntry::from_json_line(no_attributes).is_none());
    let number_attribute = "{\"timestamp\":\"2023-01-01T12:00:00Z\",\"source\":\"s\",\
                            \"message\":\"m\",\"attributes\":{\"a\":1}}";
    assert!(LogEntry::from_json_line(number_attribute).is_none());
    let bad_time = "{\"timestamp\":\"yesterday\",\"source\":\"s\",\"message\":\"m\",\
                    \"attributes\":{}}";
    assert!(LogEntry::from_json_line(bad_time).is_none());
    let good = "{\"timestamp\":\"2023-01-01T13:00:00+01:00\",\"source\":\"s\",\"message\":\"m\",\
                \"attributes\":{\"a\":\"1\"},\"extra\":[1.5]}";
    assert!(LogEntry::from_json_line(good).is_none());
    let good = "{\"timestamp\":\"2023-01-01T13:00:00+01:00\",\"source\":\"s\",\"message\":\"m\",\
                \"attributes\":{\"a\":\"1\"},\"extra\":[1]}";
    let read = LogEntry::from_json_line(good).unwrap();
    assert_eq!(read.timestamp, Timestamp::new(1_672_574_400, 0).unwrap());
    assert_eq!(read.level, None);
    assert_eq!(read.attributes.get("a"), Some(&"1".to_string()));
}

#[test]
fn rotation_threshold_is_megabytes_times_1024_squared() {
    assert!(!is_rotation_due(1_048_575, 1));
    assert!(is_rotation_due(1_048_576, 1));
    assert!(is_rotation_due(0, 0));
    assert!(!is_rotation_due(3 * 1_048_576 - 1, 3));
    assert!(is_rotation_due(3 * 1_048_576, 3));
    assert!(!is_rotation_due(u64::MAX, u64::MAX));
    assert_eq!(grow(10, 5), 16);
    assert_eq!(grow(u64::MAX - 1, 5), u64::MAX);
}

#[test]
fn cache_creates_its_first_file_and_appends_to_it() {
    let mut cache = LocalCacheExporter::new("cache".to_string(), "/tmp/cache".to_string(), 1).unwrap();
    assert!(cache.current_file().is_none());
    let now = Timestamp::new(1_700_000_000, 0).unwrap();
    let log = entry("first", Some("INFO"));
    let expected_line = log.to_json_line();
    match cache.write_log(&log, now).unwrap() {
        ExportAction::Append { create, path, line, rotate_to } => {
            assert!(create);
            assert_eq!(path, "/tmp/cache/logs_20231114221320.jsonl");
            assert_eq!(line, expected_line);
            assert!(rotate_to.is_none());
        }
        _ => panic!("a write appends"),
    }
    assert_eq!(cache.current_file(), Some(&"/tmp/cache/logs_20231114221320.jsonl".to_string()));
    assert_eq!(cache.current_size(), expected_line.len() as u64 + 1);
    let later = Timestamp::new(1_700_000_060, 0).unwrap();
    match cache.write_log(&log, later).unwrap() {
        ExportAction::Append { create, path, rotate_to, .. } => {
            assert!(!create);
            assert_eq!(path, "/tmp/cache/logs_20231114221320.jsonl");
            assert!(rotate_to.is_none());
        }
        _ => panic!("a write appends"),
    }
    assert_eq!(cache.current_size(), 2 * (expected_line.len() as u64 + 1));
    assert_eq!(cache.name(), "cache");
    assert_eq!(cache.directory(), "/tmp/cache");
    assert!(matches!(cache.flush(), Ok(ExportAction::Nothing)));
}

#[test]
fn cache_rotates_once_the_file_has_reached_its_size() {
    let mut cache = LocalCacheExporter::new("cache".to_string(), "dir".to_string(), 1).unwrap();
    let big = entry(&"x".repeat(600_000), None);
    let first = Timestamp::new(1_700_000_000, 0).unwrap();
    match cache.write_log(&big, first).unwrap() {
        ExportAction::Append { create, rotate_to, .. } => {
            assert!(create);
            assert!(rotate_to.is_none());
        }
        _ => panic!("a write appends"),
    }
    assert!(cache.current_size() < 1_048_576);
    let second = Timestamp::new(1_700_000_001, 0).unwrap();
    match cache.write_log(&big, second).unwrap() {
        ExportAction::Append { create, path, rotate_to, .. } => {
            assert!(!create);
            assert_eq!(path, "dir/logs_20231114221320.jsonl");
            assert_eq!(rotate_to, Some("dir/logs_20231114221321.jsonl".to_string()));
        }
        _ => panic!("a write appends"),
    }
    assert_eq!(cache.current_size(), 0);
    assert_eq!(cache.current_file(), Some(&"dir/logs_20231114221321.jsonl".to_string()));
    let third = Timestamp::new(1_700_000_002, 0).unwrap();
    match cache.write_log(&entry("small", None), third).unwrap() {
        ExportAction::Append { create, path, rotate_to, .. } => {
            assert!(!create);
            assert_eq!(path, "dir/logs_20231114221321.jsonl");
            assert!(rotate_to.is_none());
        }
        _ => panic!("a write appends"),
    }
}

#[test]
fn cache_with_size_zero_turns_to_a_new_file_on_every_write() {
    let mut cache = LocalCacheExporter::new("cache".to_string(), "d".to_string(), 0).unwrap();
    let now = Timestamp::new(0, 0).unwrap();
    match cache.export(entry("m", None), Clock { monotonic_millis: 0, wall: now }).unwrap() {
        ExportAction::Append { create, path, rotate_to, .. } => {
            assert!(create);
            assert_eq!(path, "d/logs_19700101000000.jsonl");
            assert_eq!(rotate_to, Some("d/logs_19700101000001.jsonl".to_string()));
        }
        _ => panic!("a write appends"),
    }
    assert_eq!(cache.current_size(), 0);
    match cache.export(entry("m", None), Clock { monotonic_millis: 1, wall: now }).unwrap() {
        ExportAction::Append { create, path, rotate_to, .. } => {
            assert!(!create);
            assert_eq!(path, "d/logs_19700101000001.jsonl");
            assert_eq!(rotate_to, Some("d/logs_19700101000002.jsonl".to_string()));
        }
        _ => panic!("a write appends"),
    }
    let later = Timestamp::new(60, 0).unwrap();
    match cache.export(entry("m", None), Clock { monotonic_millis: 2, wall: later }).unwrap() {
        ExportAction::Append { create, path, rotate_to, .. } => {
            assert!(!create);
            assert_eq!(path, "d/logs_19700101000002.jsonl");
            assert_eq!(rotate_to, Some("d/logs_19700101000100.jsonl".to_string()));
        }
        _ => panic!("a write appends"),
    }
    assert_eq!(cache.current_size(), 0);
    assert_eq!(cache.current_file(), Some(&"d/logs_19700101000100.jsonl".to_string()));
}

#[test]
fn cache_never_hands_out_a_file_twice() {
    let mut cache = LocalCacheExporter::new("cache".to_string(), "d".to_string(), 0).unwrap();
    let mut made: Vec<String> = Vec::new();
    let seconds = [5i64, 5, 6, 6, 5, 7, 6, 5, 30, 30, 9];
    for (i, secs) in seconds.iter().enumerate() {
        let now = Clock { monotonic_millis: i as u64, wall: Timestamp::new(*secs, 0).unwrap() };
        match cache.export(entry("m", None), now).unwrap() {
            ExportAction::Append { create, path, rotate_to, .. } => {
                assert_eq!(create, i == 0);
                if create {
                    assert!(!made.contains(&path));
                    made.push(path.clone());
                }
                assert_eq!(made.last(), Some(&path));
                let next = rotate_to.expect("a full file is left");
                assert_ne!(next, path);
                assert!(!made.contains(&next));
                made.push(next);
            }
            _ => panic!("a write appends"),
        }
        assert_eq!(cache.current_file(), made.last());
    }
    let names: Vec<String> = [5, 6, 7, 8, 9, 10, 11, 12, 13, 30, 31, 32]
        .iter()
        .map(|s| format!("d/logs_197001010000{:02}.jsonl", s))
        .collect();
    assert_eq!(made, names);
}

#[test]
fn cache_fills_two_files_within_one_second() {
    let mut cache = LocalCacheExporter::new("cache".to_string(), "dir".to_string(), 1).unwrap();
    let big = entry(&"x".repeat(1_100_000), None);
    let now = Timestamp::new(1_700_000_000, 0).unwrap();
    match cache.write_log(&big, now).unwrap() {
        ExportAction::Append { create, path, rotate_to, .. } => {
            assert!(create);
            assert_eq!(path, "dir/logs_20231114221320.jsonl");
            assert_eq!(rotate_to, Some("dir/logs_20231114221321.jsonl".to_string()));
        }
        _ => panic!("a write appends"),
    }
    match cache.write_log(&big, now).unwrap() {
        ExportAction::Append { create, path, rotate_to, .. } => {
            assert!(!create);
            assert_eq!(path, "dir/logs_20231114221321.jsonl");
            assert_eq!(rotate_to, Some("dir/logs_20231114221322.jsonl".to_string()));
        }
        _ => panic!("a write appends"),
    }
    match cache.write_log(&entry("small", None), now).unwrap() {
        ExportAction::Append { create, path, rotate_to, .. } => {
            assert!(!create);
            assert_eq!(path, "dir/logs_20231114221322.jsonl");
            assert_eq!(rotate_to, None);
        }
        _ => panic!("a write appends"),
    }
}

#[test]
fn cache_rotation_steps() {
    let mut cache = LocalCacheExporter::new("cache".to_string(), "d".to_string(), 1).unwrap();
    let now = Timestamp::new(86_400, 0).unwrap();
    assert_eq!(cache.check_rotation(now).unwrap(), None);
    assert_eq!(cache.create_new_file(now).unwrap(), "d/logs_19700102000000.jsonl");
    assert_eq!(cache.current_size(), 0);
    assert_eq!(cache.check_rotation(now).unwrap(), None);
    assert_eq!(cache.create_new_file(now).unwrap(), "d/logs_19700102000001.jsonl");
    assert_eq!(cache.current_file(), Some(&"d/logs_19700102000001.jsonl".to_string()));
    let earlier = Timestamp::new(3_600, 0).unwrap();
    assert_eq!(cache.create_new_file(earlier).unwrap(), "d/logs_19700102000002.jsonl");
    let later = Timestamp::new(86_500, 0).unwrap();
    assert_eq!(cache.create_new_file(later).unwrap(), "d/logs_19700102000140.jsonl");
    assert_eq!(cache.current_file(), Some(&"d/logs_19700102000140.jsonl".to_string()));
}

#[test]
fn check_rotation_leaves_a_full_file() {
    let mut cache = LocalCacheExporter::new("cache".to_string(), "d".to_string(), 0).unwrap();
    let now = Timestamp::new(86_400, 0).unwrap();
    assert_eq!(cache.check_rotation(now).unwrap(), Some("d/logs_19700102000000.jsonl".to_string()));
    assert_eq!(cache.check_rotation(now).unwrap(), Some("d/logs_19700102000001.jsonl".to_string()));
    let later = Timestamp::new(86_410, 0).unwrap();
    assert_eq!(cache.check_rotation(later).unwrap(), Some("d/logs_19700102000010.jsonl".to_string()));
}

#[test]
fn cache_at_the_last_second_of_the_calendar_keeps_its_file() {
    let mut cache = LocalCacheExporter::new("cache".to_string(), "d".to_string(), 0).unwrap();
    let last = Timestamp::new(8_210_266_876_799, 0).unwrap();
    let made = cache.create_new_file(last).unwrap();
    match cache.create_new_file(last) {
        Err(ExporterError::FileExists { path }) => assert_eq!(path, made),
        _ => panic!("no second follows the last"),
    }
    assert_eq!(cache.current_file(), Some(&made));
    assert_eq!(cache.check_rotation(last).unwrap(), None);
    match cache.write_log(&entry("m", None), last).unwrap() {
        ExportAction::Append { create, path, rotate_to, .. } => {
            assert!(!create);
            assert_eq!(path, made);
            assert_eq!(rotate_to, None);
        }
        _ => panic!("a write appends"),
    }
    assert_eq!(cache.current_file(), Some(&made));
}

#[test]
fn is_listed_finds_a_path_among_the_files() {
    let files = vec!["a".to_string(), "b".to_string()];
    assert!(is_listed(&files, "a"));
    assert!(is_listed(&files, "b"));
    assert!(!is_listed(&files, "c"));
    assert!(!is_listed(&Vec::new(), "a"));
}

#[test]
fn cache_times_at_the_ends_of_the_calendar_have_files() {
    let mut cache = LocalCacheExporter::new("cache".to_string(), "d".to_string(), 1).unwrap();
    let first = Timestamp::new(-8_334_601_228_800, 0).unwrap();
    let last = Timestamp::new(8_210_266_876_799, 999_999_999).unwrap();
    assert!(cache.create_new_file(first).is_ok());
    assert!(cache.create_new_file(last).is_ok());
    let mut log = entry("m", None);
    log.timestamp = first;
    assert!(LogEntry::from_json_line(&log.to_json_line()).is_some());
    log.timestamp = last;
    assert!(LogEntry::from_json_line(&log.to_json_line()).is_some());
}

#[test]
fn cache_line_round_trip_over_the_calendar() {
    let instants = [
        (-8_334_601_228_800i64, 0u32),
        (-8_334_601_228_800, 999_999_999),
        (-62_167_219_201, 1),
        (-62_167_219_200, 0),
        (-1, 999_999_999),
        (0, 0),
        (0, 1),
        (1, 1_000),
        (951_782_400, 120_000_000),
        (1_700_000_000, 123_456_789),
        (253_402_300_799, 999_000_000),
        (253_402_300_800, 0),
        (8_210_266_876_799, 0),
        (8_210_266_876_799, 999_999_999),
    ];
    for (secs, nanos) in instants {
        let mut written = entry("m \u{0} \t \" {}[]", Some(""));
        written.attributes.insert("".to_string(), "".to_string());
        written.attributes.insert("attributes".to_string(), "{\"a\":1}".to_string());
        written.timestamp = Timestamp::new(secs, nanos).unwrap();
        let read = LogEntry::from_json_line(&written.to_json_line()).unwrap();
        assert_eq!(read.timestamp, written.timestamp, "{} {}", secs, nanos);
        assert_eq!(read.source, written.source);
        assert_eq!(read.level, written.level);
        assert_eq!(read.message, written.message);
        assert_eq!(read.attributes.len(), written.attributes.len());
        for i in 0..written.attributes.len() {
            assert_eq!(
                read.attributes.get(written.attributes.key_at(i)),
                Some(written.attributes.value_at(i))
            );
        }
    }
}

#[test]
fn database_exporter_hands_out_records_per_batch() {
    let mut exporter = DatabaseExporter::new("db".to_string(), "/data/logs.db".to_string(), 2).unwrap();
    assert!(matches!(exporter.export(entry("one", None)), Ok(ExportAction::Nothing)));
    match exporter.export(entry("two", Some("debug"))) {
        Ok(ExportAction::Persist { records }) => {
            assert_eq!(records.len(), 2);
            assert_eq!(records[0].id, None);
            assert_eq!(records[0].timestamp, 1_672_574_400_123);
            assert_eq!(records[0].source, "unit");
            assert_eq!(records[0].content, entry("one", None).to_json_line());
            assert!(!records[0].encrypted);
            assert!(!records[0].sent);
            assert_eq!(records[1].content, entry("two", Some("debug")).to_json_line());
        }
        _ => panic!("the second entry fills the batch"),
    }
    assert!(matches!(exporter.flush(), Ok(ExportAction::Nothing)));
    assert!(matches!(exporter.export(entry("three", None)), Ok(ExportAction::Nothing)));
    match exporter.flush() {
        Ok(ExportAction::Persist { records }) => assert_eq!(records.len(), 1),
        _ => panic!("a flush hands out what is buffered"),
    }
    assert!(matches!(exporter.flush(), Ok(ExportAction::Nothing)));
    assert_eq!(exporter.name(), "db");
    assert_eq!(exporter.db_path(), "/data/logs.db");
}

#[test]
fn create_exporter_applies_the_defaults() {
    let config = ExporterConfig::LogNarrator {
        name: "cloud".to_string(),
        endpoint: "https://example.invalid".to_string(),
        client_id: "c".to_string(),
        key_path: "/k".to_string(),
        batch_size: None,
        flush_interval_seconds: None,
    };
    let mut exporter = create_exporter(&config, Some(&vec![0u8; 64]), clock(0)).unwrap();
    assert!(matches!(exporter, Exporter::LogNarrator(_)));
    for i in 0..99 {
        let action = exporter.export(entry("m", None), clock(i)).unwrap();
        assert!(matches!(action, ExportAction::Nothing));
    }
    match exporter.export(entry("m", None), clock(99)).unwrap() {
        ExportAction::Transmit { batch } => assert_eq!(batch.len(), 100),
        _ => panic!("a hundred entries fill the default batch"),
    }
    assert!(matches!(exporter.export(entry("m", None), clock(29_999)), Ok(ExportAction::Nothing)));
    assert!(matches!(
        exporter.export(entry("m", None), clock(30_000)),
        Ok(ExportAction::Transmit { .. })
    ));
    assert!(matches!(
        create_exporter(&config, None, clock(0)),
        Err(ExporterError::KeyNotFound { .. })
    ));
    match create_exporter(&config, Some(&vec![0u8; 10]), clock(0)) {
        Err(ExporterError::InvalidKey { path }) => assert_eq!(path, "/k"),
        _ => panic!("ten bytes are no signing key"),
    }
}

#[test]
fn create_exporter_makes_each_kind() {
    let cache = create_exporter(
        &ExporterConfig::LocalCache {
            name: "cache".to_string(),
            directory: "d".to_string(),
            max_size_mb: 5,
        },
        None,
        clock(0),
    )
    .unwrap();
    assert!(matches!(cache, Exporter::LocalCache(_)));
    assert_eq!(cache.name(), "cache");
    let mut db = create_exporter(
        &ExporterConfig::Database { name: "db".to_string(), db_path: "p".to_string(), batch_size: Some(1) },
        None,
        clock(0),
    )
    .unwrap();
    assert!(matches!(db, Exporter::Database(_)));
    assert!(matches!(db.export(entry("m", None), clock(0)), Ok(ExportAction::Persist { .. })));
    assert!(matches!(LogExporter::flush(&mut db_inner(db)), Ok(ExportAction::Nothing)));
}

fn db_inner(exporter: Exporter) -> DatabaseExporter {
    match exporter {
        Exporter::Database(e) => e,
        _ => panic!("a database exporter"),
    }
}

#[test]
fn cache_file_is_named_after_its_second() {
    assert_eq!(cache_file("20231114221320"), "logs_20231114221320.jsonl");
}

#[test]
fn envelope_around_encoded_data() {
    let exporter = cloud(2, 30);
    let envelope = exporter.envelope("AAAA".to_string(), clock(9));
    assert_eq!(envelope.client_id, "client-7");
    assert_eq!(envelope.timestamp, 1_700_000_000_000);
    assert_eq!(envelope.version, 1);
    assert_eq!(envelope.algorithm, "nacl.signing");
    assert_eq!(envelope.nonce, "");
    assert_eq!(envelope.data, "AAAA");
    assert!(!envelope.compressed);
}

#[test]
fn line_document_holds_the_fields_of_the_entry() {
    let document = entry("m", Some("INFO")).line_document("stamp".to_string());
    assert_eq!(
        render(&document),
        "{\"attributes\":{\"host\":\"edge-1\"},\"level\":\"INFO\",\"message\":\"m\",\
         \"source\":\"unit\",\"timestamp\":\"stamp\"}"
    );
}

#[test]
fn json_documents_are_written_and_read() {
    let document = Json::Object(vec![
        ("b".to_string(), Json::Array(vec![Json::Int(-7), Json::Bool(true), Json::Null])),
        ("a".to_string(), Json::Text("x\ty".to_string())),
    ]);
    let text = render(&document);
    assert_eq!(text, "{\"a\":\"x\\ty\",\"b\":[-7,true,null]}");
    match parse(&text).unwrap() {
        Json::Object(members) => {
            assert_eq!(members.len(), 2);
            assert_eq!(members[0].0, "a");
            assert!(matches!(&members[0].1, Json::Text(t) if t == "x\ty"));
            match &members[1].1 {
                Json::Array(items) => {
                    assert!(matches!(items[0], Json::Int(-7)));
                    assert!(matches!(items[1], Json::Bool(true)));
                    assert!(matches!(items[2], Json::Null));
                }
                _ => panic!("an array"),
            }
        }
        _ => panic!("an object"),
    }
    assert!(parse("{\"a\":1.5}").is_none());
    assert!(parse("{\"a\":18446744073709551615}").is_none());
    assert!(parse("{").is_none());
    assert!(matches!(parse("9223372036854775807"), Some(Json::Int(i64::MAX))));
}

#[test]
fn instant_of_what_was_read() {
    assert_eq!(instant_of(None), None);
    assert_eq!(instant_of(Some((1_672_574_400, 5))), Timestamp::new(1_672_574_400, 5));
    assert!(instant_of(Some((1_672_574_400, 5))).is_some());
    assert_eq!(instant_of(Some((0, 1_500_000_000))), None);
    assert_eq!(instant_of(Some((i64::MAX, 0))), None);
}

#[test]
fn entry_of_a_document() {
    let document = Json::Object(vec![
        ("timestamp".to_string(), Json::Text("2023-01-01T12:00:00.5Z".to_string())),
        ("source".to_string(), Json::Text("s".to_string())),
        ("level".to_string(), Json::Null),
        ("message".to_string(), Json::Text("m".to_string())),
        ("attributes".to_string(), Json::Object(vec![("a".to_string(), Json::Text("1".to_string()))])),
        ("extra".to_string(), Json::Int(3)),
    ]);
    let read = LogEntry::from_document(&document).unwrap();
    assert_eq!(read.timestamp, Timestamp::new(1_672_574_400, 500_000_000).unwrap());
    assert_eq!(read.source, "s");
    assert_eq!(read.level, None);
    assert_eq!(read.message, "m");
    assert_eq!(read.attributes.len(), 1);
    assert_eq!(read.attributes.get("a"), Some(&"1".to_string()));
    assert!(LogEntry::from_document(&Json::Array(vec![])).is_none());
    assert!(LogEntry::from_document(&Json::Object(vec![])).is_none());
    let wrong_level = Json::Object(vec![
        ("timestamp".to_string(), Json::Text("2023-01-01T12:00:00Z".to_string())),
        ("source".to_string(), Json::Text("s".to_string())),
        ("level".to_string(), Json::Int(3)),
        ("message".to_string(), Json::Text("m".to_string())),
        ("attributes".to_string(), Json::Object(vec![])),
    ]);
    assert!(LogEntry::from_document(&wrong_level).is_none());
}

#[test]
fn exporters_answer_through_the_common_interface() {
    let mut exporter = cloud(2, 3600);
    assert_eq!(LogExporter::name(&exporter), "cloud");
    assert!(matches!(
        LogExporter::export(&mut exporter, entry("a", None), clock(1)),
        Ok(ExportAction::Nothing)
    ));
    assert!(matches!(
        LogExporter::export(&mut exporter, entry("b", None), clock(2)),
        Ok(ExportAction::Transmit { .. })
    ));
    assert!(matches!(LogExporter::flush(&mut exporter), Ok(ExportAction::Nothing)));
    let mut cache = LocalCacheExporter::new("cache".to_string(), "d".to_string(), 1).unwrap();
    assert_eq!(LogExporter::name(&cache), "cache");
    assert!(matches!(LogExporter::flush(&mut cache), Ok(ExportAction::Nothing)));
    assert!(matches!(
        LogExporter::export(&mut cache, entry("a", None), clock(1)),
        Ok(ExportAction::Append { .. })
    ));
    let mut store = DatabaseExporter::new("db".to_string(), "p".to_string(), 1).unwrap();
    assert_eq!(LogExporter::name(&store), "db");
    assert!(matches!(
        LogExporter::export(&mut store, entry("a", None), clock(1)),
        Ok(ExportAction::Persist { .. })
    ));
}
