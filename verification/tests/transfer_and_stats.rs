use fsbench::config::{check_config, plan_iteration, ConfigError, RunConfig};
use fsbench::hashing::{digest_bytes, StreamingDigest};
use fsbench::stats::DurationStats;
use fsbench::transfer::{
    classify_download, delete_url, download_url, upload_url, DownloadError, OperationKind,
};

#[test]
fn digest_of_known_bytes() {
    // SHA-256 of b"abc".
    let bytes = vec![b'a', b'b', b'c'];
    assert_eq!(
        digest_bytes(&bytes),
        "ba7816bf8f01cfea414140de5dae2223b00361a396177a9cb410ff61f20015ad"
    );
}

#[test]
fn streaming_digest_matches_one_shot() {
    let mut streaming = StreamingDigest::new();
    streaming.update(b"hello ");
    streaming.update(b"world");
    let raw = streaming.finalize();
    let whole: Vec<u8> = b"hello world".to_vec();
    let mut one_shot = StreamingDigest::new();
    one_shot.update(&whole);
    assert_eq!(raw, one_shot.finalize());
    assert_eq!(raw.len(), 32);
}

#[test]
fn urls_are_assembled_exactly() {
    assert_eq!(upload_url("https://host:8443"), "https://host:8443/upload");
    assert_eq!(
        download_url("https://host:8443", "t.bin", false),
        "https://host:8443/download/t.bin"
    );
    assert_eq!(
        download_url("https://host:8443", "t.bin", true),
        "https://host:8443/download-chunked/t.bin"
    );
    assert_eq!(delete_url("https://host:8443", "t.bin"), "https://host:8443/t.bin");
}

#[test]
fn successful_download_reports_size_and_digest() {
    let body = vec![1u8, 2, 3, 15, 16];
    let summary = classify_download(200, &body).unwrap();
    assert_eq!(summary.size, 5);
    assert_eq!(summary.digest, digest_bytes(&body));
}

#[test]
fn download_missing_file_is_a_failure_and_leaves_no_duration() {
    let body = b"not found".to_vec();
    let result = classify_download(404, &body);
    assert_eq!(result.unwrap_err(), DownloadError::Network(404));

    // The failed iteration records nothing; the remaining iterations still run.
    let mut stats = DurationStats::new();
    stats.record_outcome(Some(1_000));
    stats.record_outcome(None);
    stats.record_outcome(Some(3_000));
    assert_eq!(stats.count(), 2);
    assert_eq!(stats.average(), Some(2_000));
}

#[test]
fn chunked_and_plain_downloads_of_same_body_agree() {
    let body = b"the same bytes either way".to_vec();
    let plain = classify_download(200, &body).unwrap();
    let chunked = classify_download(200, &body).unwrap();
    assert_eq!(plain.size, chunked.size);
    assert_eq!(plain.digest, chunked.digest);
}

#[test]
fn average_is_mean_of_recorded_durations_only() {
    let mut stats = DurationStats::new();
    let outcomes = vec![Some(10u64), Some(20), None, Some(31)];
    stats.record_outcomes(&outcomes);
    assert_eq!(stats.count(), 3);
    assert_eq!(stats.average(), Some(20));
}

#[test]
fn average_of_no_successes_is_not_reported() {
    let mut stats = DurationStats::new();
    stats.record_outcome(None);
    stats.record_outcome(None);
    assert_eq!(stats.count(), 0);
    assert_eq!(stats.average(), None);
}

#[test]
fn all_calls_succeeding_records_one_duration_per_iteration() {
    let mut stats = DurationStats::new();
    let outcomes = vec![Some(5u64); 7];
    stats.record_outcomes(&outcomes);
    assert_eq!(stats.count(), 7);
}

#[test]
fn transfer_without_server_url_is_a_fatal_config_error() {
    let config = RunConfig {
        server_url: None,
        upload_path: Some("t.bin".to_string()),
        download_name: None,
        chunked: false,
        timeout_secs: 30,
        iterations: 1,
    };
    assert_eq!(check_config(&config), Err(ConfigError::MissingServerUrl));

    let download_only = RunConfig { upload_path: None, download_name: Some("t.bin".to_string()), ..config };
    assert_eq!(check_config(&download_only), Err(ConfigError::MissingServerUrl));
}

#[test]
fn config_with_server_url_or_no_transfers_is_accepted() {
    let idle = RunConfig {
        server_url: None,
        upload_path: None,
        download_name: None,
        chunked: false,
        timeout_secs: 30,
        iterations: 1,
    };
    assert_eq!(check_config(&idle), Ok(()));

    let with_server = RunConfig {
        server_url: Some("https://host".to_string()),
        upload_path: Some("t.bin".to_string()),
        download_name: Some("t.bin".to_string()),
        ..idle
    };
    assert_eq!(check_config(&with_server), Ok(()));
}

#[test]
fn iteration_plan_deletes_then_uploads_then_downloads() {
    let config = RunConfig {
        server_url: Some("https://host".to_string()),
        upload_path: Some("t.bin".to_string()),
        download_name: Some("t.bin".to_string()),
        chunked: true,
        timeout_secs: 45,
        iterations: 3,
    };
    let plan = plan_iteration(&config);
    assert_eq!(plan.len(), 3);
    assert_eq!(plan[0].kind, OperationKind::Delete);
    assert_eq!(plan[0].url, "https://host/t.bin");
    assert!(plan[0].best_effort);
    assert_eq!(plan[1].kind, OperationKind::Upload);
    assert_eq!(plan[1].url, "https://host/upload");
    assert_eq!(plan[1].timeout_secs, Some(45));
    assert_eq!(plan[2].kind, OperationKind::Download);
    assert_eq!(plan[2].url, "https://host/download-chunked/t.bin");
    assert_eq!(plan[2].timeout_secs, None);
}

#[test]
fn download_only_plan_has_a_single_request() {
    let config = RunConfig {
        server_url: Some("https://host".to_string()),
        upload_path: None,
        download_name: Some("data.bin".to_string()),
        chunked: false,
        timeout_secs: 30,
        iterations: 1,
    };
    let plan = plan_iteration(&config);
    assert_eq!(plan.len(), 1);
    assert_eq!(plan[0].kind, OperationKind::Download);
    assert_eq!(plan[0].url, "https://host/download/data.bin");
    assert!(!plan[0].best_effort);
}
