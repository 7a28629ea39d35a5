use lognarrator_client::collector::config::{
    default_interface, default_start_at, ActionType, AttributeAction, FilterConfig, MatchConfig,
    MatchType, ProcessorConfig, StartAt, TransformAction, TransformType,
};
use lognarrator_client::collector::entry::{LogEntry, Timestamp};
use lognarrator_client::collector::filter::filter_verdict;
use lognarrator_client::collector::processors::{
    create_processor, run_chain, BatchProcessor, FilterProcessor, LogProcessor, Processor,
    ProcessorError, ResourceProcessor, TransformProcessor,
};
use lognarrator_client::string_map::StringMap;

fn entry(message: &str) -> LogEntry {
    LogEntry {
        timestamp: Timestamp::new(1_672_574_400, 0).unwrap(),
        source: "test".to_string(),
        level: Some("INFO".to_string()),
        message: message.to_string(),
        attributes: StringMap::new(),
    }
}

fn exact(patterns: &[&str]) -> Option<MatchConfig> {
    Some(MatchConfig {
        match_type: MatchType::Exact,
        exact: Some(patterns.iter().map(|p| p.to_string()).collect()),
        regexp: None,
    })
}

fn regexp(patterns: &[&str]) -> Option<MatchConfig> {
    Some(MatchConfig {
        match_type: MatchType::Regexp,
        exact: None,
        regexp: Some(patterns.iter().map(|p| p.to_string()).collect()),
    })
}

fn params(pairs: &[(&str, &str)]) -> StringMap {
    let mut map = StringMap::new();
    for (k, v) in pairs {
        map.insert(k.to_string(), v.to_string());
    }
    map
}

fn action(action: ActionType, key: &str, value: &str) -> AttributeAction {
    AttributeAction { action, key: key.to_string(), value: value.to_string() }
}

fn transform(kind: TransformType, field: &str, pairs: &[(&str, &str)]) -> TransformAction {
    TransformAction { transform_type: kind, field: field.to_string(), parameters: params(pairs) }
}

#[test]
fn defaults_of_the_configuration() {
    assert_eq!(default_start_at(), StartAt::End);
    assert_eq!(default_interface(), "0.0.0.0");
}

#[test]
fn filter_with_include_patterns_drops_what_matches_none() {
    let filter = FilterProcessor::new(
        "f".to_string(),
        FilterConfig { included: exact(&["error", "warn"]), exclude: None },
    )
    .unwrap();
    assert!(filter.process(entry("All good")).unwrap().is_none());
    let kept = filter.process(entry("an error occurred")).unwrap().unwrap();
    assert_eq!(kept.message, "an error occurred");
    assert_eq!(kept.source, "test");
    assert_eq!(kept.level, Some("INFO".to_string()));
    assert_eq!(kept.timestamp, Timestamp::new(1_672_574_400, 0).unwrap());
    assert_eq!(kept.attributes.len(), 0);
    assert!(filter.process(entry("a warning")).unwrap().is_some());
}

#[test]
fn filter_exclude_takes_precedence_over_include() {
    let filter = FilterProcessor::new(
        "f".to_string(),
        FilterConfig { included: exact(&["error"]), exclude: exact(&["debug", "error"]) },
    )
    .unwrap();
    assert!(filter.process(entry("an error occurred")).unwrap().is_none());
    assert!(filter.process(entry("debug output")).unwrap().is_none());
    assert!(filter.process(entry("nothing")).unwrap().is_none());
}

#[test]
fn filter_without_include_patterns_keeps_what_is_not_excluded() {
    let filter = FilterProcessor::new(
        "f".to_string(),
        FilterConfig { included: None, exclude: exact(&["secret"]) },
    )
    .unwrap();
    assert!(filter.process(entry("plain")).unwrap().is_some());
    assert!(filter.process(entry("a secret")).unwrap().is_none());
    let open = FilterProcessor::new("g".to_string(), FilterConfig { included: None, exclude: None })
        .unwrap();
    assert!(open.process(entry("anything")).unwrap().is_some());
    assert_eq!(open.name(), "g");
}

#[test]
fn filter_with_regular_expressions_searches_the_message() {
    let filter = FilterProcessor::new(
        "f".to_string(),
        FilterConfig { included: regexp(&["^ERR[0-9]+", "warn(ing)?$"]), exclude: regexp(&["\\bskip\\b"]) },
    )
    .unwrap();
    assert!(filter.process(entry("ERR42 disk full")).unwrap().is_some());
    assert!(filter.process(entry("only a warning")).unwrap().is_some());
    assert!(filter.process(entry("an ERR42")).unwrap().is_none());
    assert!(filter.process(entry("ERR42 skip this")).unwrap().is_none());
}

#[test]
fn filter_uses_only_the_list_of_its_match_type() {
    let config = Some(MatchConfig {
        match_type: MatchType::Exact,
        exact: None,
        regexp: Some(vec!["(".to_string()]),
    });
    let filter =
        FilterProcessor::new("f".to_string(), FilterConfig { included: config, exclude: None })
            .unwrap();
    assert!(filter.process(entry("anything")).unwrap().is_some());
}

#[test]
fn filter_reports_the_first_pattern_that_does_not_compile() {
    let result = FilterProcessor::new(
        "f".to_string(),
        FilterConfig { included: regexp(&["ok", "(unclosed", "[also"]), exclude: regexp(&["("]) },
    );
    match result {
        Err(ProcessorError::InvalidPattern { pattern }) => assert_eq!(pattern, "(unclosed"),
        Ok(_) => panic!("the pattern does not compile"),
    }
    let result = FilterProcessor::new(
        "f".to_string(),
        FilterConfig { included: regexp(&["ok"]), exclude: regexp(&["[oops"]) },
    );
    match result {
        Err(ProcessorError::InvalidPattern { pattern }) => assert_eq!(pattern, "[oops"),
        Ok(_) => panic!("the pattern does not compile"),
    }
}

#[test]
fn resource_upsert_sets_the_attribute_from_the_environment() {
    let processor = ResourceProcessor::new(
        "r".to_string(),
        vec![action(ActionType::Upsert, "env", "${ENV_TEST}")],
    )
    .unwrap();
    let env = params(&[("ENV_TEST", "prod")]);
    let fresh = processor.process(entry("m"), &env).unwrap().unwrap();
    assert_eq!(fresh.attributes.get("env"), Some(&"prod".to_string()));
    let mut with_old = entry("m");
    with_old.attributes.insert("env".to_string(), "dev".to_string());
    let updated = processor.process(with_old, &env).unwrap().unwrap();
    assert_eq!(updated.attributes.get("env"), Some(&"prod".to_string()));
    assert_eq!(updated.attributes.len(), 1);
    assert_eq!(updated.message, "m");
}

#[test]
fn resource_actions_apply_in_order() {
    let processor = ResourceProcessor::new(
        "r".to_string(),
        vec![
            action(ActionType::Insert, "a", "1"),
            action(ActionType::Insert, "a", "2"),
            action(ActionType::Update, "b", "3"),
            action(ActionType::Update, "a", "4"),
            action(ActionType::Upsert, "c", "5"),
            action(ActionType::Delete, "d", ""),
            action(ActionType::Delete, "missing", ""),
        ],
    )
    .unwrap();
    let mut log = entry("m");
    log.attributes.insert("d".to_string(), "old".to_string());
    let out = processor.process(log, &StringMap::new()).unwrap().unwrap();
    assert_eq!(out.attributes.get("a"), Some(&"4".to_string()));
    assert_eq!(out.attributes.get("b"), None);
    assert_eq!(out.attributes.get("c"), Some(&"5".to_string()));
    assert_eq!(out.attributes.get("d"), None);
    assert_eq!(out.attributes.len(), 2);
    assert_eq!(processor.name(), "r");
}

#[test]
fn resource_interpolation_resolves_references() {
    let processor = ResourceProcessor::new("r".to_string(), vec![]).unwrap();
    let env = params(&[("HOST", "edge-1"), ("ZONE", "eu"), ("LOOP", "${HOST}")]);
    assert_eq!(processor.replace_env_vars("node ${HOST} in ${ZONE}", &env), "node edge-1 in eu");
    assert_eq!(processor.replace_env_vars("${HOST}${HOST}", &env), "edge-1edge-1");
    assert_eq!(processor.replace_env_vars("${MISSING} stays", &env), "${MISSING} stays");
    assert_eq!(processor.replace_env_vars("${} and $HOST and ${HOST", &env), "${} and $HOST and ${HOST");
    assert_eq!(processor.replace_env_vars("plain", &env), "plain");
    assert_eq!(processor.replace_env_vars("", &env), "");
    assert_eq!(processor.replace_env_vars("${LOOP} ${HOST}", &env), "edge-1 edge-1");
    assert_eq!(processor.replace_env_vars("${LOOP}", &env), "${HOST}");
}

#[test]
fn batch_processor_passes_entries_on() {
    let batch = BatchProcessor::new("b".to_string(), 5, 10).unwrap();
    assert_eq!(batch.name(), "b");
    assert_eq!(batch.timeout_seconds(), 5);
    assert_eq!(batch.batch_size(), 10);
    let out = batch.process(entry("kept")).unwrap().unwrap();
    assert_eq!(out.message, "kept");
}

#[test]
fn transform_mask_replaces_matches_with_asterisks() {
    let processor = TransformProcessor::new(
        "t".to_string(),
        vec![
            transform(TransformType::Mask, "message", &[("pattern", "[0-9]{4}")]),
            transform(TransformType::Mask, "card", &[("pattern", "[0-9]+"), ("replacement", "#")]),
            transform(TransformType::Mask, "absent", &[("pattern", "x")]),
        ],
    )
    .unwrap();
    let mut log = entry("pin 1234 and 56789");
    log.attributes.insert("card".to_string(), "no 42-17".to_string());
    let out = processor.process(log).unwrap().unwrap();
    assert_eq!(out.message, "pin ***** and *****9");
    assert_eq!(out.attributes.get("card"), Some(&"no #-#".to_string()));
    assert_eq!(out.attributes.get("absent"), None);
}

#[test]
fn transform_mask_without_pattern_changes_nothing() {
    let processor = TransformProcessor::new(
        "t".to_string(),
        vec![transform(TransformType::Mask, "message", &[])],
    )
    .unwrap();
    let out = processor.process(entry("pin 1234")).unwrap().unwrap();
    assert_eq!(out.message, "pin 1234");
}

#[test]
fn transform_extract_adds_named_groups() {
    let processor = TransformProcessor::new(
        "t".to_string(),
        vec![transform(
            TransformType::Extract,
            "message",
            &[("pattern", "user=(?P<user>\\w+)( role=(?P<role>\\w+))? (\\d+)")],
        )],
    )
    .unwrap();
    let out = processor.process(entry("login user=alice 200")).unwrap().unwrap();
    assert_eq!(out.attributes.get("user"), Some(&"alice".to_string()));
    assert_eq!(out.attributes.get("role"), None);
    assert_eq!(out.attributes.len(), 1);
    let out = processor.process(entry("login user=bob role=admin 200")).unwrap().unwrap();
    assert_eq!(out.attributes.get("user"), Some(&"bob".to_string()));
    assert_eq!(out.attributes.get("role"), Some(&"admin".to_string()));
    let out = processor.process(entry("no match here")).unwrap().unwrap();
    assert_eq!(out.attributes.len(), 0);
}

#[test]
fn transform_extract_reads_an_attribute() {
    let processor = TransformProcessor::new(
        "t".to_string(),
        vec![transform(TransformType::Extract, "path", &[("pattern", "^/(?P<root>[^/]+)/")])],
    )
    .unwrap();
    let mut log = entry("m");
    log.attributes.insert("path".to_string(), "/var/log/syslog".to_string());
    let out = processor.process(log).unwrap().unwrap();
    assert_eq!(out.attributes.get("root"), Some(&"var".to_string()));
    let out = processor.process(entry("m")).unwrap().unwrap();
    assert_eq!(out.attributes.len(), 0);
}

#[test]
fn transform_rename_moves_an_attribute() {
    let processor = TransformProcessor::new(
        "t".to_string(),
        vec![
            transform(TransformType::Rename, "old", &[("new_name", "new")]),
            transform(TransformType::Rename, "kept", &[]),
            transform(TransformType::Rename, "absent", &[("new_name", "other")]),
            transform(TransformType::Convert, "kept", &[("to", "int")]),
        ],
    )
    .unwrap();
    let mut log = entry("m");
    log.attributes.insert("old".to_string(), "v".to_string());
    log.attributes.insert("kept".to_string(), "k".to_string());
    let out = processor.process(log).unwrap().unwrap();
    assert_eq!(out.attributes.get("old"), None);
    assert_eq!(out.attributes.get("new"), Some(&"v".to_string()));
    assert_eq!(out.attributes.get("kept"), Some(&"k".to_string()));
    assert_eq!(out.attributes.get("other"), None);
    assert_eq!(out.attributes.len(), 2);
    assert_eq!(processor.name(), "t");
}

#[test]
fn transform_steps_on_one_field_use_their_own_patterns() {
    let processor = TransformProcessor::new(
        "t".to_string(),
        vec![
            transform(TransformType::Mask, "message", &[("pattern", "\\d+")]),
            transform(TransformType::Mask, "message", &[("pattern", "[a-z]+"), ("replacement", "#")]),
        ],
    )
    .unwrap();
    let out = processor.process(entry("abc 123")).unwrap().unwrap();
    assert_eq!(out.message, "# *****");
    let processor = TransformProcessor::new(
        "t".to_string(),
        vec![
            transform(TransformType::Mask, "message", &[("pattern", "a")]),
            transform(TransformType::Mask, "message", &[("pattern", "b")]),
        ],
    )
    .unwrap();
    let out = processor.process(entry("aabb")).unwrap().unwrap();
    assert_eq!(out.message, "********************");
}

#[test]
fn transform_step_without_a_pattern_leaves_a_masked_field_alone() {
    let processor = TransformProcessor::new(
        "t".to_string(),
        vec![
            transform(TransformType::Mask, "message", &[("pattern", "a")]),
            transform(TransformType::Mask, "message", &[]),
        ],
    )
    .unwrap();
    let out = processor.process(entry("banana")).unwrap().unwrap();
    assert_eq!(out.message, "b*****n*****n*****");
}

#[test]
fn transform_reports_a_pattern_that_does_not_compile() {
    let result = TransformProcessor::new(
        "t".to_string(),
        vec![
            transform(TransformType::Rename, "a", &[("pattern", "(")]),
            transform(TransformType::Extract, "b", &[("pattern", "(bad")]),
        ],
    );
    match result {
        Err(ProcessorError::InvalidPattern { pattern }) => assert_eq!(pattern, "(bad"),
        Ok(_) => panic!("the pattern does not compile"),
    }
}

#[test]
fn create_processor_makes_each_kind() {
    let resource = create_processor(&ProcessorConfig::Resource {
        name: "r".to_string(),
        attributes: vec![action(ActionType::Upsert, "k", "v")],
    })
    .unwrap();
    assert!(matches!(resource, Processor::Resource(_)));
    assert_eq!(resource.name(), "r");
    let filter = create_processor(&ProcessorConfig::Filter {
        name: "f".to_string(),
        logs: FilterConfig { included: exact(&["x"]), exclude: None },
    })
    .unwrap();
    assert!(matches!(filter, Processor::Filter(_)));
    let batch = create_processor(&ProcessorConfig::Batch {
        name: "b".to_string(),
        timeout: 1,
        send_batch_size: 2,
    })
    .unwrap();
    assert!(matches!(batch, Processor::Batch(_)));
    let transform = create_processor(&ProcessorConfig::Transform {
        name: "t".to_string(),
        transforms: vec![transform(TransformType::Convert, "f", &[])],
    })
    .unwrap();
    assert!(matches!(transform, Processor::Transform(_)));
    let bad = create_processor(&ProcessorConfig::Filter {
        name: "f".to_string(),
        logs: FilterConfig { included: None, exclude: regexp(&["("]) },
    });
    assert!(matches!(bad, Err(ProcessorError::InvalidPattern { .. })));
}

#[test]
fn chain_applies_processors_in_order_and_stops_at_a_drop() {
    let chain = vec![
        create_processor(&ProcessorConfig::Resource {
            name: "r".to_string(),
            attributes: vec![action(ActionType::Upsert, "seen", "yes")],
        })
        .unwrap(),
        create_processor(&ProcessorConfig::Filter {
            name: "f".to_string(),
            logs: FilterConfig { included: exact(&["keep"]), exclude: None },
        })
        .unwrap(),
        create_processor(&ProcessorConfig::Transform {
            name: "t".to_string(),
            transforms: vec![transform(TransformType::Rename, "seen", &[("new_name", "marked")])],
        })
        .unwrap(),
    ];
    let env = StringMap::new();
    let out = run_chain(&chain, entry("keep me"), &env).unwrap();
    assert_eq!(out.attributes.get("marked"), Some(&"yes".to_string()));
    assert_eq!(out.attributes.get("seen"), None);
    assert!(run_chain(&chain, entry("drop me"), &env).is_none());
    let empty: Vec<Processor> = Vec::new();
    assert_eq!(run_chain(&empty, entry("as is"), &env).unwrap().message, "as is");
}

#[test]
fn processors_answer_through_the_common_interface() {
    let filter = FilterProcessor::new(
        "f".to_string(),
        FilterConfig { included: None, exclude: exact(&["no"]) },
    )
    .unwrap();
    let env = StringMap::new();
    assert!(LogProcessor::process(&filter, entry("no"), &env).unwrap().is_none());
    assert!(LogProcessor::process(&filter, entry("yes"), &env).unwrap().is_some());
    assert_eq!(LogProcessor::name(&filter), "f");
    let batch = BatchProcessor::new("b".to_string(), 1, 1).unwrap();
    assert_eq!(LogProcessor::name(&batch), "b");
    assert_eq!(LogProcessor::process(&batch, entry("kept"), &env).unwrap().unwrap().message, "kept");
    let resource = ResourceProcessor::new(
        "r".to_string(),
        vec![action(ActionType::Upsert, "k", "v")],
    )
    .unwrap();
    assert_eq!(LogProcessor::name(&resource), "r");
    let tagged = LogProcessor::process(&resource, entry("m"), &env).unwrap().unwrap();
    assert_eq!(tagged.attributes.get("k"), Some(&"v".to_string()));
    let renamer = TransformProcessor::new(
        "t".to_string(),
        vec![transform(TransformType::Mask, "message", &[("pattern", "m")])],
    )
    .unwrap();
    assert_eq!(LogProcessor::name(&renamer), "t");
    assert_eq!(
        LogProcessor::process(&renamer, entry("m"), &env).unwrap().unwrap().message,
        "*****"
    );
}

#[test]
fn filter_verdict_from_what_the_rules_said() {
    assert!(filter_verdict(false, 0, false));
    assert!(filter_verdict(false, 2, true));
    assert!(!filter_verdict(false, 2, false));
    assert!(!filter_verdict(true, 0, false));
    assert!(!filter_verdict(true, 2, true));
}
