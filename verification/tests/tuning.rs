use ario::aria2::{finetune_to_options, parse_global_options, Aria2AddMode};
use ario::enums::{AllocStrategy, StreamPieceSelector};
use ario::finetune::FineTune;
use ario::queue::{resolve_finetune, QueueSettings};

fn option(options: &[(String, String)], key: &str) -> Option<String> {
    options
        .iter()
        .find(|(k, _)| k == key)
        .map(|(_, v)| v.clone())
}

#[test]
fn overrides_merge_one_field_at_a_time_and_preserve_explicit_zero() {
    let mut value = FineTune {
        connections_per_download: Some(4),
        max_connections_per_server: Some(2),
        max_retries: Some(3),
        retry_wait_seconds: Some(5),
        ..FineTune::default()
    };

    value.apply_override(FineTune {
        max_retries: Some(0),
        ..FineTune::default()
    });

    assert_eq!(value.connections_per_download, Some(4));
    assert_eq!(value.max_connections_per_server, Some(2));
    assert_eq!(value.max_retries, Some(0));
    assert_eq!(value.retry_wait_seconds, Some(5));
}

#[test]
fn unset_download_fields_inherit_individual_queue_defaults() {
    let settings = QueueSettings {
        max_concurrent_downloads: 2,
        max_retries: 3,
        retry_wait_seconds: 5,
        default_finetune: FineTune {
            connections_per_download: Some(4),
            max_connections_per_server: Some(2),
            ..FineTune::default()
        },
    };

    let resolved = resolve_finetune(
        &settings,
        Some(FineTune {
            max_retries: Some(0),
            ..FineTune::default()
        }),
    );

    assert_eq!(resolved.connections_per_download, Some(4));
    assert_eq!(resolved.max_connections_per_server, Some(2));
    assert_eq!(resolved.max_retries, Some(0));
    assert_eq!(resolved.retry_wait_seconds, Some(5));
}

#[test]
fn add_mode_sets_continue_or_overwrite() {
    let finetune = FineTune::default();

    let fresh = finetune_to_options(&finetune, "/tmp", Aria2AddMode::Fresh);
    assert_eq!(option(&fresh, "continue"), None);
    assert_eq!(option(&fresh, "allow-overwrite"), None);

    let retry = finetune_to_options(&finetune, "/tmp", Aria2AddMode::Retry);
    assert_eq!(option(&retry, "continue").as_deref(), Some("true"));
    assert_eq!(option(&retry, "allow-overwrite"), None);

    let restart = finetune_to_options(&finetune, "/tmp", Aria2AddMode::Restart);
    assert_eq!(option(&restart, "allow-overwrite").as_deref(), Some("true"));
    assert_eq!(option(&restart, "continue"), None);
}

#[test]
fn retry_options_are_translated_for_aria2() {
    let finetune = FineTune {
        max_retries: Some(3),
        retry_wait_seconds: Some(5),
        ..FineTune::default()
    };
    let options = finetune_to_options(&finetune, "/tmp", Aria2AddMode::Fresh);

    assert_eq!(option(&options, "max-tries").as_deref(), Some("4"));
    assert_eq!(option(&options, "retry-wait").as_deref(), Some("5"));

    let no_retries = FineTune {
        max_retries: Some(0),
        retry_wait_seconds: Some(0),
        ..FineTune::default()
    };
    let options = finetune_to_options(&no_retries, "/tmp", Aria2AddMode::Fresh);
    assert_eq!(option(&options, "max-tries").as_deref(), Some("1"));
    assert_eq!(option(&options, "retry-wait").as_deref(), Some("0"));

    let defaults = finetune_to_options(&FineTune::default(), "/tmp", Aria2AddMode::Fresh);
    assert_eq!(option(&defaults, "max-tries"), None);
    assert_eq!(option(&defaults, "retry-wait"), None);
}

#[test]
fn every_tuning_field_becomes_its_aria2_option_in_order() {
    let finetune = FineTune {
        connections_per_download: Some(8),
        max_connections_per_server: Some(3),
        alloc_strategy: Some(AllocStrategy::NoAllocation),
        stream_piece_selector: Some(StreamPieceSelector::InOrder),
        max_retries: Some(u32::MAX),
        retry_wait_seconds: Some(12),
    };
    let options = finetune_to_options(&finetune, "/data", Aria2AddMode::Retry);
    let keys: Vec<&str> = options.iter().map(|(k, _)| k.as_str()).collect();
    assert_eq!(
        keys,
        vec![
            "dir",
            "continue",
            "split",
            "max-connection-per-server",
            "file-allocation",
            "stream-piece-selector",
            "max-tries",
            "retry-wait"
        ]
    );
    assert_eq!(option(&options, "dir").as_deref(), Some("/data"));
    assert_eq!(option(&options, "split").as_deref(), Some("8"));
    assert_eq!(option(&options, "file-allocation").as_deref(), Some("none"));
    assert_eq!(option(&options, "stream-piece-selector").as_deref(), Some("inorder"));
    assert_eq!(option(&options, "max-tries").as_deref(), Some("4294967295"));
}

#[test]
fn parses_global_options_and_tolerates_bad_individual_values() {
    let parsed = parse_global_options(Some("5"), Some("1"), Some("prealloc"), Some("default"));
    assert_eq!(parsed.connections_per_download, Some(5));
    assert_eq!(parsed.max_connections_per_server, Some(1));
    assert_eq!(parsed.alloc_strategy, Some(AllocStrategy::Prealloc));
    assert_eq!(
        parsed.stream_piece_selector,
        Some(StreamPieceSelector::Default)
    );

    let parsed = parse_global_options(Some("invalid"), None, Some("unknown"), None);
    assert_eq!(parsed.connections_per_download, None);
    assert_eq!(parsed.max_connections_per_server, None);
    assert_eq!(parsed.alloc_strategy, None);
    assert_eq!(parsed.stream_piece_selector, None);
}
