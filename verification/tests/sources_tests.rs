use lognarrator_client::collector::config::{SourceConfig, StartAt};
use lognarrator_client::collector::entry::{Timestamp, MAX_TIMESTAMP_SECS, MIN_TIMESTAMP_SECS};
use lognarrator_client::collector::receiver::{
    handle_otlp_request, health_reply, listen_address, logs_reply, not_found_reply,
    process_otlp_logs, start_otlp_server, OtlpOutcome, OtlpRoute,
};
use lognarrator_client::collector::tail::{
    file_entry, line_entries, FileObservation, LineBuffer, TailCursor, TailStep,
};
use lognarrator_client::collector::sources::{
    create_source, DockerSource, FileSource, JournaldSource, LogSource, OtlpSource, Source,
    SourceError, SourceTask,
};

fn now() -> Timestamp {
    Timestamp::new(1_700_000_000, 5).unwrap()
}

#[test]
fn timestamps_hold_what_the_calendar_holds() {
    assert!(Timestamp::new(0, 0).is_some());
    assert!(Timestamp::new(0, 999_999_999).is_some());
    assert!(Timestamp::new(0, 1_000_000_000).is_none());
    assert!(Timestamp::new(8_210_266_876_799, 0).is_some());
    assert!(Timestamp::new(8_210_266_876_800, 0).is_none());
    assert!(Timestamp::new(-8_334_601_228_800, 0).is_some());
    assert!(Timestamp::new(-8_334_601_228_801, 0).is_none());
    let t = Timestamp::new(-1, 999_000_000).unwrap();
    assert_eq!(t.secs(), -1);
    assert_eq!(t.subsec_nanos(), 999_000_000);
    assert_eq!(t.timestamp_millis(), -1);
    assert_eq!(Timestamp::new(1_672_574_400, 123_456_789).unwrap().timestamp_millis(), 1_672_574_400_123);
    assert_eq!(Timestamp::epoch().timestamp_millis(), 0);
}

#[test]
fn file_source_skips_excluded_file_names() {
    let mut source = FileSource::new(
        "files".to_string(),
        vec![
            "/var/log/syslog".to_string(),
            "/var/log/archive.gz".to_string(),
            "/var/gz/messages".to_string(),
            "relative.log".to_string(),
        ],
        Some("gz".to_string()),
        StartAt::Beginning,
    )
    .unwrap();
    let tasks = source.start(now()).unwrap();
    assert_eq!(tasks.len(), 3);
    let paths: Vec<String> = tasks
        .iter()
        .map(|t| match t {
            SourceTask::MonitorFile { path, .. } => path.clone(),
            _ => panic!("a file task"),
        })
        .collect();
    assert_eq!(paths, vec!["/var/log/syslog", "/var/gz/messages", "relative.log"]);
    match &tasks[2] {
        SourceTask::MonitorFile { start_at, startup, .. } => {
            assert_eq!(*start_at, StartAt::Beginning);
            assert_eq!(startup.message, "Started monitoring file: \"relative.log\"");
            assert_eq!(startup.level, Some("INFO".to_string()));
            assert_eq!(startup.source, "files");
            assert_eq!(startup.timestamp, now());
            assert_eq!(startup.attributes.len(), 0);
        }
        _ => panic!("a file task"),
    }
}

#[test]
fn file_source_without_pattern_reads_every_path() {
    let mut source =
        FileSource::new("f".to_string(), vec!["a".to_string(), "b".to_string()], None, StartAt::End).unwrap();
    assert_eq!(source.start(now()).unwrap().len(), 2);
    assert_eq!(source.name(), "f");
}

#[test]
fn file_source_refuses_a_pattern_that_does_not_compile() {
    let result = FileSource::new("f".to_string(), vec![], Some("*".to_string()), StartAt::End);
    match result {
        Err(SourceError::InvalidPattern { pattern }) => assert_eq!(pattern, "*"),
        _ => panic!("the pattern does not compile"),
    }
}

#[test]
fn sources_refuse_a_second_start_and_a_stop_before_start() {
    let mut file = FileSource::new("f".to_string(), vec![], None, StartAt::End).unwrap();
    assert!(matches!(file.stop(), Err(SourceError::NotRunning)));
    assert!(file.start(now()).is_ok());
    assert!(matches!(file.start(now()), Err(SourceError::AlreadyRunning)));
    assert!(file.stop().is_ok());
    assert!(matches!(file.stop(), Err(SourceError::NotRunning)));
    assert!(file.start(now()).is_ok());

    let mut journal = JournaldSource::new("j".to_string(), None, vec![]).unwrap();
    assert!(matches!(journal.stop(), Err(SourceError::NotRunning)));
    assert!(journal.start(now()).is_ok());
    assert!(matches!(journal.start(now()), Err(SourceError::AlreadyRunning)));
    assert!(journal.stop().is_ok());

    let mut docker = DockerSource::new("d".to_string(), vec![], true).unwrap();
    assert!(matches!(docker.stop(), Err(SourceError::NotRunning)));
    assert!(docker.start(now()).is_ok());
    assert!(matches!(docker.start(now()), Err(SourceError::AlreadyRunning)));
    assert!(docker.stop().is_ok());

    let mut otlp = OtlpSource::new("o".to_string(), 4318, "127.0.0.1".to_string()).unwrap();
    assert!(matches!(otlp.stop(), Err(SourceError::NotRunning)));
    assert!(otlp.start().is_ok());
    assert!(matches!(otlp.start(), Err(SourceError::AlreadyRunning)));
    assert!(otlp.stop().is_ok());
}

#[test]
fn journald_source_announces_its_units() {
    let mut source = JournaldSource::new(
        "journal".to_string(),
        Some("/var/log/journal".to_string()),
        vec!["ssh.service".to_string(), "nginx.service".to_string()],
    )
    .unwrap();
    match source.start(now()).unwrap() {
        SourceTask::MonitorJournal { directory, units, startup } => {
            assert_eq!(directory, Some("/var/log/journal".to_string()));
            assert_eq!(units, vec!["ssh.service", "nginx.service"]);
            assert_eq!(
                startup.message,
                "Started monitoring journald for units: [\"ssh.service\", \"nginx.service\"]"
            );
            assert_eq!(startup.source, "journal");
        }
        _ => panic!("a journal task"),
    }
    assert_eq!(source.name(), "journal");
}

#[test]
fn docker_source_announces_its_containers() {
    let mut source = DockerSource::new("docker".to_string(), vec!["web".to_string()], true).unwrap();
    match source.start(now()).unwrap() {
        SourceTask::MonitorContainers { containers, all_containers, startup } => {
            assert_eq!(containers, vec!["web"]);
            assert!(all_containers);
            assert_eq!(startup.message, "Started monitoring Docker containers: [\"web\"]");
        }
        _ => panic!("a container task"),
    }
    assert_eq!(source.name(), "docker");
}

#[test]
fn otlp_source_asks_for_its_server() {
    let mut source = OtlpSource::new("otlp".to_string(), 4318, "0.0.0.0".to_string()).unwrap();
    match source.start().unwrap() {
        SourceTask::ServeHttp { interface, port, source_name } => {
            assert_eq!(interface, "0.0.0.0");
            assert_eq!(port, 4318);
            assert_eq!(source_name, "otlp");
        }
        _ => panic!("a server task"),
    }
    assert_eq!(source.name(), "otlp");
}

#[test]
fn create_source_makes_each_kind() {
    let file = create_source(&SourceConfig::File {
        name: "f".to_string(),
        included: vec!["a".to_string()],
        exclude_filename_pattern: None,
        start_at: StartAt::End,
    })
    .unwrap();
    assert!(matches!(file, Source::File(_)));
    assert_eq!(file.name(), "f");
    let journal = create_source(&SourceConfig::Journald {
        name: "j".to_string(),
        directory: None,
        units: vec![],
    })
    .unwrap();
    assert!(matches!(journal, Source::Journald(_)));
    let docker = create_source(&SourceConfig::Docker {
        name: "d".to_string(),
        containers: vec![],
        all_containers: true,
    })
    .unwrap();
    assert!(matches!(docker, Source::Docker(_)));
    let mut otlp = create_source(&SourceConfig::Otlp {
        name: "o".to_string(),
        port: 1,
        interface: "::1".to_string(),
    })
    .unwrap();
    assert!(matches!(otlp, Source::Otlp(_)));
    assert_eq!(otlp.start(now()).unwrap().len(), 1);
    assert!(matches!(otlp.start(now()), Err(SourceError::AlreadyRunning)));
    assert!(otlp.stop().is_ok());
    let bad = create_source(&SourceConfig::File {
        name: "f".to_string(),
        included: vec![],
        exclude_filename_pattern: Some("(".to_string()),
        start_at: StartAt::End,
    });
    assert!(matches!(bad, Err(SourceError::InvalidPattern { .. })));
}

#[test]
fn sources_answer_through_the_common_interface() {
    let mut docker = DockerSource::new("d".to_string(), vec![], false).unwrap();
    assert_eq!(LogSource::start(&mut docker, now()).unwrap().len(), 1);
    assert_eq!(LogSource::name(&docker), "d");
    assert!(LogSource::stop(&mut docker).is_ok());
    let file = FileSource::new("f".to_string(), vec![], None, StartAt::End).unwrap();
    assert_eq!(LogSource::name(&file), "f");
    let journal = JournaldSource::new("j".to_string(), None, vec![]).unwrap();
    assert_eq!(LogSource::name(&journal), "j");
    let otlp = OtlpSource::new("o".to_string(), 1, "::1".to_string()).unwrap();
    assert_eq!(LogSource::name(&otlp), "o");
}

#[test]
fn receiver_routes() {
    assert_eq!(handle_otlp_request("POST", "/v1/logs"), OtlpRoute::Logs);
    assert_eq!(handle_otlp_request("GET", "/health"), OtlpRoute::Health);
    assert_eq!(handle_otlp_request("GET", "/v1/logs"), OtlpRoute::NotFound);
    assert_eq!(handle_otlp_request("POST", "/health"), OtlpRoute::NotFound);
    assert_eq!(handle_otlp_request("post", "/v1/logs"), OtlpRoute::NotFound);
    assert_eq!(handle_otlp_request("GET", "/"), OtlpRoute::NotFound);
    assert_eq!(handle_otlp_request("POST", "/v1/logs/"), OtlpRoute::NotFound);
}

#[test]
fn receiver_replies() {
    let health = health_reply();
    assert_eq!((health.status, health.body.as_str()), (200, "OK"));
    let missing = not_found_reply();
    assert_eq!((missing.status, missing.body.as_str()), (404, "Not found"));
    let ok = logs_reply(OtlpOutcome::Forwarded);
    assert_eq!((ok.status, ok.body.as_str()), (200, ""));
    let failed = logs_reply(OtlpOutcome::ForwardFailed);
    assert_eq!((failed.status, failed.body.as_str()), (500, "Failed to process log"));
    let unread = logs_reply(OtlpOutcome::ReadFailed);
    assert_eq!((unread.status, unread.body.as_str()), (500, "Internal server error"));
}

#[test]
fn received_batch_becomes_an_entry_with_its_size() {
    let entry = process_otlp_logs("otlp".to_string(), 1234, now());
    assert_eq!(entry.message, "Received OTLP log data (1234 bytes)");
    assert_eq!(entry.source, "otlp");
    assert_eq!(entry.level, Some("INFO".to_string()));
    assert_eq!(entry.timestamp, now());
    assert_eq!(entry.attributes.len(), 2);
    assert_eq!(entry.attributes.get("otlp_size"), Some(&"1234".to_string()));
    assert_eq!(entry.attributes.get("content_type"), Some(&"application/x-protobuf".to_string()));
    let empty = process_otlp_logs("otlp".to_string(), 0, now());
    assert_eq!(empty.message, "Received OTLP log data (0 bytes)");
}

#[test]
fn receiver_address_and_announcement() {
    assert_eq!(listen_address("0.0.0.0", 4318), "0.0.0.0:4318");
    assert_eq!(listen_address("127.0.0.1", 0), "127.0.0.1:0");
    assert_eq!(listen_address("10.0.0.1", 65535), "10.0.0.1:65535");
    let entry = start_otlp_server("otlp", "0.0.0.0:4318", now());
    assert_eq!(entry.message, "OTLP receiver started on 0.0.0.0:4318");
    assert_eq!(entry.source, "otlp");
    assert_eq!(entry.level, Some("INFO".to_string()));
}

fn seen(identity: u64, len: u64) -> Option<FileObservation> {
    Some(FileObservation { identity, len })
}

#[test]
fn tail_from_the_end_reads_only_what_is_appended() {
    let mut cursor = TailCursor::new();
    assert_eq!(cursor.observe(seen(7, 100), StartAt::End), TailStep::Wait);
    assert_eq!(cursor.observe(seen(7, 100), StartAt::End), TailStep::Wait);
    assert_eq!(
        cursor.observe(seen(7, 130), StartAt::End),
        TailStep::Read { from: 100, to: 130, reopen: false }
    );
    assert_eq!(
        cursor.observe(seen(7, 131), StartAt::End),
        TailStep::Read { from: 130, to: 131, reopen: false }
    );
    assert_eq!(cursor.observe(seen(7, 131), StartAt::End), TailStep::Wait);
}

#[test]
fn tail_from_the_beginning_reads_the_whole_file_first() {
    let mut cursor = TailCursor::new();
    assert_eq!(
        cursor.observe(seen(7, 100), StartAt::Beginning),
        TailStep::Read { from: 0, to: 100, reopen: true }
    );
    assert_eq!(cursor.observe(seen(7, 100), StartAt::Beginning), TailStep::Wait);
    let mut empty = TailCursor::new();
    assert_eq!(empty.observe(seen(7, 0), StartAt::Beginning), TailStep::Wait);
    assert_eq!(
        empty.observe(seen(7, 5), StartAt::Beginning),
        TailStep::Read { from: 0, to: 5, reopen: false }
    );
}

#[test]
fn tail_starts_over_after_rotation_and_truncation() {
    let mut cursor = TailCursor::new();
    assert_eq!(cursor.observe(seen(7, 100), StartAt::End), TailStep::Wait);
    assert_eq!(
        cursor.observe(seen(8, 40), StartAt::End),
        TailStep::Read { from: 0, to: 40, reopen: true }
    );
    assert_eq!(
        cursor.observe(seen(8, 10), StartAt::End),
        TailStep::Read { from: 0, to: 10, reopen: true }
    );
    assert_eq!(cursor.observe(None, StartAt::End), TailStep::Wait);
    assert_eq!(
        cursor.observe(seen(8, 10), StartAt::End),
        TailStep::Read { from: 0, to: 10, reopen: true }
    );
    assert_eq!(cursor.observe(seen(9, 0), StartAt::End), TailStep::Wait);
    assert_eq!(cursor, TailCursor { looked: true, identity: Some(9), offset: 0 });
}

#[test]
fn tail_of_a_path_that_appears_later_reads_from_the_start() {
    let mut cursor = TailCursor::new();
    assert_eq!(cursor.observe(None, StartAt::End), TailStep::Wait);
    assert_eq!(
        cursor.observe(seen(3, 12), StartAt::End),
        TailStep::Read { from: 0, to: 12, reopen: true }
    );
}

#[test]
fn line_buffer_hands_out_complete_lines() {
    let mut buffer = LineBuffer::new();
    assert_eq!(buffer.push(b"first\nsec"), vec![b"first".to_vec()]);
    assert!(buffer.push(b"ond").is_empty());
    assert_eq!(buffer.push(b" line\n\nthird\nrest"), vec![
        b"second line".to_vec(),
        b"".to_vec(),
        b"third".to_vec(),
    ]);
    assert!(buffer.push(b"").is_empty());
    assert_eq!(buffer.push(b"\n"), vec![b"rest".to_vec()]);
    assert!(buffer.push(b"open").is_empty());
    buffer.reset();
    assert_eq!(buffer.push(b"new\n"), vec![b"new".to_vec()]);
}

#[test]
fn lines_of_a_file_become_entries() {
    let entry = file_entry("files", "disk full".to_string(), now());
    assert_eq!(entry.source, "files");
    assert_eq!(entry.message, "disk full");
    assert_eq!(entry.level, None);
    assert_eq!(entry.timestamp, now());
    assert_eq!(entry.attributes.len(), 0);
    let entries = line_entries("files", &vec![b"one".to_vec(), vec![0xff, b'x']], now());
    assert_eq!(entries.len(), 2);
    assert_eq!(entries[0].message, "one");
    assert_eq!(entries[1].message, "\u{fffd}x");
}

#[test]
fn timestamps_cover_what_the_calendar_can_represent() {
    assert!(chrono::DateTime::from_timestamp(MAX_TIMESTAMP_SECS, 999_999_999).is_some());
    assert!(chrono::DateTime::from_timestamp(MAX_TIMESTAMP_SECS + 1, 0).is_none());
    assert!(chrono::DateTime::from_timestamp(MIN_TIMESTAMP_SECS, 0).is_some());
    assert!(chrono::DateTime::from_timestamp(MIN_TIMESTAMP_SECS - 1, 999_999_999).is_none());
    assert_eq!(chrono::DateTime::<chrono::Utc>::MAX_UTC.timestamp(), MAX_TIMESTAMP_SECS);
    assert_eq!(chrono::DateTime::<chrono::Utc>::MIN_UTC.timestamp(), MIN_TIMESTAMP_SECS);
    let millis = chrono::DateTime::from_timestamp(1_672_574_400, 123_456_789).unwrap().timestamp_millis();
    assert_eq!(Timestamp::new(1_672_574_400, 123_456_789).unwrap().timestamp_millis(), millis);
    let before_epoch = chrono::DateTime::from_timestamp(-1, 999_000_000).unwrap().timestamp_millis();
    assert_eq!(Timestamp::new(-1, 999_000_000).unwrap().timestamp_millis(), before_epoch);
}
