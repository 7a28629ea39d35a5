use lognarrator_client::collector::clock::Clock;
use lognarrator_client::collector::config::{
    ActionType, AttributeAction, CollectorConfig, ExporterConfig, FilterConfig, MatchConfig,
    MatchType, ProcessorConfig, SourceConfig, StartAt,
};
use lognarrator_client::collector::entry::{LogEntry, Timestamp};
use lognarrator_client::collector::exporters::{find_key, ExportAction, ExporterError, KeyFile};
use lognarrator_client::collector::processors::ProcessorError;
use lognarrator_client::crypto::CryptoError;
use lognarrator_client::collector::pipeline::{
    Pipeline, PipelineError, CHANNEL_CAPACITY, MAX_CONCURRENT_EXPORTS,
};
use lognarrator_client::collector::sources::{SourceError, SourceTask};
use lognarrator_client::collector::LogCollector;
use lognarrator_client::string_map::StringMap;

fn clock(monotonic_millis: u64) -> Clock {
    Clock { monotonic_millis, wall: Timestamp::new(1_700_000_000, 0).unwrap() }
}

fn entry(message: &str) -> LogEntry {
    LogEntry {
        timestamp: Timestamp::new(1_672_574_400, 0).unwrap(),
        source: "test".to_string(),
        level: None,
        message: message.to_string(),
        attributes: StringMap::new(),
    }
}

fn file_source(name: &str) -> SourceConfig {
    SourceConfig::File {
        name: name.to_string(),
        included: vec!["/var/log/syslog".to_string(), "/var/log/old.gz".to_string()],
        exclude_filename_pattern: Some(".*\\.gz$".to_string()),
        start_at: StartAt::End,
    }
}

fn docker_source() -> SourceConfig {
    SourceConfig::Docker {
        name: "docker".to_string(),
        containers: vec!["web".to_string()],
        all_containers: false,
    }
}

fn cache_exporter() -> ExporterConfig {
    ExporterConfig::LocalCache { name: "cache".to_string(), directory: "d".to_string(), max_size_mb: 1 }
}

fn cloud_exporter(batch_size: u32) -> ExporterConfig {
    ExporterConfig::LogNarrator {
        name: "cloud".to_string(),
        endpoint: "https://example.invalid".to_string(),
        client_id: "c".to_string(),
        key_path: "/keys/private.key".to_string(),
        batch_size: Some(batch_size),
        flush_interval_seconds: Some(3600),
    }
}

fn db_exporter(batch_size: u32) -> ExporterConfig {
    ExporterConfig::Database {
        name: "db".to_string(),
        db_path: "/data/logs.db".to_string(),
        batch_size: Some(batch_size),
    }
}

fn processors() -> Vec<ProcessorConfig> {
    vec![
        ProcessorConfig::Filter {
            name: "drop-debug".to_string(),
            logs: FilterConfig {
                included: None,
                exclude: Some(MatchConfig {
                    match_type: MatchType::Exact,
                    exact: Some(vec!["debug".to_string()]),
                    regexp: None,
                }),
            },
        },
        ProcessorConfig::Resource {
            name: "tag".to_string(),
            attributes: vec![AttributeAction {
                action: ActionType::Upsert,
                key: "env".to_string(),
                value: "${ENV_TEST}".to_string(),
            }],
        },
    ]
}

fn keys() -> Vec<KeyFile> {
    vec![KeyFile { path: "/keys/private.key".to_string(), bytes: vec![9u8; 64] }]
}

#[test]
fn limits_of_the_pipeline() {
    assert_eq!(CHANNEL_CAPACITY, 1000);
    assert_eq!(MAX_CONCURRENT_EXPORTS, 10);
}

#[test]
fn start_without_sources_is_refused() {
    let config = CollectorConfig { sources: vec![], processors: processors(), exporters: vec![cache_exporter()] };
    let mut pipeline = Pipeline::new(config).unwrap();
    assert!(!pipeline.running());
    assert!(matches!(pipeline.start(&keys(), clock(0)), Err(PipelineError::NoSources)));
    assert!(!pipeline.running());
    assert!(matches!(pipeline.start(&keys(), clock(1)), Err(PipelineError::NoSources)));
    assert!(matches!(pipeline.stop(), Err(PipelineError::NotRunning)));
}

#[test]
fn start_without_exporters_is_refused() {
    let config = CollectorConfig { sources: vec![docker_source()], processors: vec![], exporters: vec![] };
    let mut pipeline = Pipeline::new(config).unwrap();
    assert!(matches!(pipeline.start(&keys(), clock(0)), Err(PipelineError::NoExporters)));
    assert!(!pipeline.running());
}

#[test]
fn start_twice_is_refused_and_changes_nothing() {
    let config = CollectorConfig {
        sources: vec![docker_source()],
        processors: processors(),
        exporters: vec![db_exporter(2)],
    };
    let mut pipeline = Pipeline::new(config).unwrap();
    let tasks = pipeline.start(&keys(), clock(0)).unwrap();
    assert_eq!(tasks.len(), 1);
    assert!(pipeline.running());
    let first = pipeline.export_entry(&entry("one"), clock(1));
    assert!(matches!(first[0], Ok(ExportAction::Nothing)));
    assert!(matches!(pipeline.start(&keys(), clock(2)), Err(PipelineError::AlreadyRunning)));
    assert!(pipeline.running());
    let second = pipeline.export_entry(&entry("two"), clock(3));
    match &second[0] {
        Ok(ExportAction::Persist { records }) => assert_eq!(records.len(), 2),
        _ => panic!("the buffered entry is still there"),
    }
}

#[test]
fn start_reports_components_that_cannot_be_made() {
    let bad_source = SourceConfig::File {
        name: "f".to_string(),
        included: vec![],
        exclude_filename_pattern: Some("(".to_string()),
        start_at: StartAt::Beginning,
    };
    let config = CollectorConfig { sources: vec![bad_source], processors: vec![], exporters: vec![] };
    let mut pipeline = Pipeline::new(config).unwrap();
    match pipeline.start(&keys(), clock(0)) {
        Err(PipelineError::Source(SourceError::InvalidPattern { pattern })) => assert_eq!(pattern, "("),
        _ => panic!("the exclude pattern does not compile"),
    }
    let bad_processor = ProcessorConfig::Filter {
        name: "f".to_string(),
        logs: FilterConfig {
            included: Some(MatchConfig {
                match_type: MatchType::Regexp,
                exact: None,
                regexp: Some(vec!["[".to_string()]),
            }),
            exclude: None,
        },
    };
    let config = CollectorConfig {
        sources: vec![docker_source()],
        processors: vec![bad_processor],
        exporters: vec![cache_exporter()],
    };
    let mut pipeline = Pipeline::new(config).unwrap();
    assert!(matches!(pipeline.start(&keys(), clock(0)), Err(PipelineError::Processor(_))));
    let config = CollectorConfig {
        sources: vec![docker_source()],
        processors: vec![],
        exporters: vec![cache_exporter(), cloud_exporter(2)],
    };
    let mut pipeline = Pipeline::new(config).unwrap();
    assert_eq!(pipeline.key_paths(), vec!["/keys/private.key".to_string()]);
    match pipeline.start(&Vec::new(), clock(0)) {
        Err(PipelineError::Exporter(ExporterError::KeyNotFound { path })) => {
            assert_eq!(path, "/keys/private.key")
        }
        _ => panic!("the key file is missing"),
    }
    assert!(!pipeline.running());
    let other = vec![KeyFile { path: "/keys/other.key".to_string(), bytes: vec![9u8; 64] }];
    assert!(matches!(
        pipeline.start(&other, clock(0)),
        Err(PipelineError::Exporter(ExporterError::KeyNotFound { .. }))
    ));
    let short = vec![KeyFile { path: "/keys/private.key".to_string(), bytes: vec![9u8; 63] }];
    match pipeline.start(&short, clock(0)) {
        Err(PipelineError::Exporter(ExporterError::InvalidKey { path })) => {
            assert_eq!(path, "/keys/private.key")
        }
        _ => panic!("the key file holds no signing key"),
    }
    assert!(!pipeline.running());
    assert!(pipeline.start(&keys(), clock(0)).is_ok());
}

#[test]
fn start_lists_the_tasks_of_the_sources() {
    let config = CollectorConfig {
        sources: vec![file_source("files"), docker_source()],
        processors: vec![],
        exporters: vec![cache_exporter()],
    };
    let mut pipeline = Pipeline::new(config).unwrap();
    let tasks = pipeline.start(&keys(), clock(0)).unwrap();
    assert_eq!(tasks.len(), 2);
    match &tasks[0] {
        SourceTask::MonitorFile { path, start_at, startup } => {
            assert_eq!(path, "/var/log/syslog");
            assert_eq!(*start_at, StartAt::End);
            assert_eq!(startup.source, "files");
            assert_eq!(startup.message, "Started monitoring file: \"/var/log/syslog\"");
            assert_eq!(startup.timestamp, Timestamp::new(1_700_000_000, 0).unwrap());
        }
        _ => panic!("a file task"),
    }
    assert!(matches!(tasks[1], SourceTask::MonitorContainers { .. }));
}

#[test]
fn entries_run_through_the_chain_and_reach_every_exporter() {
    let config = CollectorConfig {
        sources: vec![docker_source()],
        processors: processors(),
        exporters: vec![cloud_exporter(2), cache_exporter(), db_exporter(1)],
    };
    let mut pipeline = Pipeline::new(config).unwrap();
    pipeline.start(&keys(), clock(0)).unwrap();
    let mut env = StringMap::new();
    env.insert("ENV_TEST".to_string(), "prod".to_string());
    assert!(pipeline.process_entry(entry("debug noise"), &env).is_none());
    let processed = pipeline.process_entry(entry("payment failed"), &env).unwrap();
    assert_eq!(processed.attributes.get("env"), Some(&"prod".to_string()));
    let results = pipeline.export_entry(&processed, clock(10));
    assert_eq!(results.len(), 3);
    assert!(matches!(results[0], Ok(ExportAction::Nothing)));
    match &results[1] {
        Ok(ExportAction::Append { create, path, line, rotate_to }) => {
            assert!(*create);
            assert_eq!(path, "d/logs_20231114221320.jsonl");
            assert_eq!(line, &processed.to_json_line());
            assert!(rotate_to.is_none());
        }
        _ => panic!("the cache appends"),
    }
    match &results[2] {
        Ok(ExportAction::Persist { records }) => assert_eq!(records.len(), 1),
        _ => panic!("the database stores"),
    }
    let results = pipeline.export_entry(&processed, clock(20));
    match &results[0] {
        Ok(ExportAction::Transmit { batch }) => assert_eq!(batch.len(), 2),
        _ => panic!("the cloud batch is full"),
    }
}

#[test]
fn stop_flushes_every_exporter() {
    let config = CollectorConfig {
        sources: vec![docker_source()],
        processors: vec![],
        exporters: vec![cloud_exporter(10), cache_exporter(), db_exporter(10)],
    };
    let mut pipeline = Pipeline::new(config).unwrap();
    pipeline.start(&keys(), clock(0)).unwrap();
    pipeline.export_entry(&entry("one"), clock(1));
    pipeline.export_entry(&entry("two"), clock(2));
    let results = pipeline.stop().unwrap();
    assert!(!pipeline.running());
    assert_eq!(results.len(), 3);
    match &results[0] {
        Ok(ExportAction::Transmit { batch }) => assert_eq!(batch.len(), 2),
        _ => panic!("the cloud buffer is flushed"),
    }
    assert!(matches!(results[1], Ok(ExportAction::Nothing)));
    match &results[2] {
        Ok(ExportAction::Persist { records }) => assert_eq!(records.len(), 2),
        _ => panic!("the database buffer is flushed"),
    }
    assert!(matches!(pipeline.stop(), Err(PipelineError::NotRunning)));
    assert!(pipeline.start(&keys(), clock(3)).is_ok());
    assert!(pipeline.running());
    let results = pipeline.stop().unwrap();
    assert!(matches!(results[0], Ok(ExportAction::Nothing)));
}

#[test]
fn collector_starts_and_stops_its_pipeline() {
    let config = CollectorConfig {
        sources: vec![docker_source()],
        processors: vec![],
        exporters: vec![cache_exporter()],
    };
    let mut collector = LogCollector::new(config).unwrap();
    assert!(matches!(collector.stop(), Err(PipelineError::NotRunning)));
    assert_eq!(collector.start(&keys(), clock(0)).unwrap().len(), 1);
    assert!(collector.pipeline().running());
    assert!(matches!(collector.start(&keys(), clock(0)), Err(PipelineError::AlreadyRunning)));
    let results = collector.pipeline_mut().export_entry(&entry("m"), clock(1));
    assert_eq!(results.len(), 1);
    assert_eq!(collector.stop().unwrap().len(), 1);
    assert!(!collector.pipeline().running());
}

#[test]
fn errors_in_words() {
    assert_eq!(PipelineError::AlreadyRunning.message(), "Pipeline already running");
    assert_eq!(PipelineError::NotRunning.message(), "Pipeline not running");
    assert_eq!(PipelineError::NoSources.message(), "No log sources configured");
    assert_eq!(PipelineError::NoExporters.message(), "No log exporters configured");
    assert_eq!(
        PipelineError::Source(SourceError::AlreadyRunning).message(),
        "Source already running"
    );
    assert_eq!(SourceError::NotRunning.message(), "Source not running");
    assert_eq!(
        SourceError::InvalidPattern { pattern: "(".to_string() }.message(),
        "Invalid regular expression: ("
    );
    assert_eq!(
        PipelineError::Processor(ProcessorError::InvalidPattern { pattern: "[".to_string() })
            .message(),
        "Invalid regular expression: ["
    );
    assert_eq!(
        PipelineError::Exporter(ExporterError::KeyNotFound { path: "/k".to_string() }).message(),
        "Private key file not found: /k"
    );
    assert_eq!(
        ExporterError::InvalidKey { path: "/k".to_string() }.message(),
        "Invalid secret key: /k"
    );
    assert_eq!(
        ExporterError::FileExists { path: "d/f".to_string() }.message(),
        "Cache file already written: d/f"
    );
    assert_eq!(ExporterError::Transport { message: "m".to_string() }.message(), "m");
    assert_eq!(CryptoError::InitializationFailed.message(), "Failed to initialize sodium library");
    assert_eq!(CryptoError::InvalidKey.message(), "Invalid private key format");
    assert_eq!(CryptoError::TooShort.message(), "Data too short to contain nonce");
    assert_eq!(CryptoError::DecryptionFailed.message(), "Decryption failed");
}

#[test]
fn find_key_gives_the_first_file_of_a_path() {
    let files = vec![
        KeyFile { path: "/a".to_string(), bytes: vec![1] },
        KeyFile { path: "/b".to_string(), bytes: vec![2, 2] },
        KeyFile { path: "/a".to_string(), bytes: vec![3, 3, 3] },
    ];
    assert_eq!(find_key(&files, "/a"), Some(&vec![1u8]));
    assert_eq!(find_key(&files, "/b"), Some(&vec![2u8, 2]));
    assert_eq!(find_key(&files, "/c"), None);
    assert_eq!(find_key(&Vec::new(), "/a"), None);
}
