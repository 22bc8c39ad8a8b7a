use arbisepolia::errors::FlowError;
use arbisepolia::flow::{
    decode_saved, detail_report_line, detail_reports, output_dir, output_file_path, plan_persist,
    saved_notice, DetailOutcome,
};
use arbisepolia::scanner::ArbiSepScanner;

const SAMPLE_LIST: &str = r#"{
    "status": "1",
    "message": "OK",
    "result": [
        {"hash": "0xA", "blockNumber": "1"},
        {"hash": "0xB", "blockNumber": "2"},
        {"hash": "0xC", "blockNumber": "3"}
    ]
}"#;

#[test]
fn address_url_has_fixed_query() {
    let scanner = ArbiSepScanner::new(String::from("k123"), String::from("https://api.example"));
    let url = scanner.transaction_address_url("0x346Ac3698f6a1Ed8B78C9594284406A4506d0d68");
    assert_eq!(
        url,
        "https://api.example?module=account&action=txlist&address=0x346Ac3698f6a1Ed8B78C9594284406A4506d0d68&startblock=0&endblock=99999999&page=1&offset=10&sort=asc&apikey=k123"
    );
}

#[test]
fn hash_url_has_fixed_query() {
    let scanner = ArbiSepScanner::new(String::from("k123"), String::from("https://api.example"));
    let url = scanner.transaction_hash_url("0xABC");
    assert_eq!(
        url,
        "https://api.example?module=account&action=txlistinternal&txhash=0xABC&apikey=k123"
    );
}

#[test]
fn config_with_both_values_builds_scanner() {
    let r = ArbiSepScanner::from_config(Some(String::from("k")), Some(String::from("u")));
    let s = r.ok().unwrap();
    assert_eq!(s.key, "k");
    assert_eq!(s.url, "u");
}

#[test]
fn config_missing_key_is_fatal() {
    let r = ArbiSepScanner::from_config(None, Some(String::from("u")));
    assert!(matches!(r, Err(FlowError::ConfigMissing)));
}

#[test]
fn config_missing_url_is_fatal() {
    let r = ArbiSepScanner::from_config(Some(String::from("k")), None);
    assert!(matches!(r, Err(FlowError::ConfigMissing)));
}

#[test]
fn output_path_is_named_after_address() {
    assert_eq!(output_dir(), "data");
    assert_eq!(output_file_path("0xAB"), "data/0xAB.json");
    assert_eq!(
        saved_notice("data/0xAB.json"),
        "Response saved to data/0xAB.json"
    );
}

#[test]
fn rerun_with_same_address_targets_same_file() {
    let first = output_file_path("0x346Ac3698f6a1Ed8B78C9594284406A4506d0d68");
    let second = output_file_path("0x346Ac3698f6a1Ed8B78C9594284406A4506d0d68");
    assert_eq!(first, second);
}

#[test]
fn persisted_content_parses_back_to_the_fetched_document() {
    let pretty = plan_persist(SAMPLE_LIST).ok().unwrap();
    let original: serde_json::Value = serde_json::from_str(SAMPLE_LIST).unwrap();
    let reparsed: serde_json::Value = serde_json::from_str(&pretty).unwrap();
    assert_eq!(original, reparsed);
}

#[test]
fn persist_reformats_rather_than_echoing() {
    let body = "{\"result\":[]}";
    let pretty = plan_persist(body).ok().unwrap();
    assert_ne!(pretty, body);
    let reparsed: serde_json::Value = serde_json::from_str(&pretty).unwrap();
    let original: serde_json::Value = serde_json::from_str(body).unwrap();
    assert_eq!(original, reparsed);
}

#[test]
fn malformed_body_is_rejected_before_any_write() {
    let r = plan_persist("not json at all {{{");
    assert!(matches!(r, Err(FlowError::DecodeError)));
}

#[test]
fn decode_saved_returns_hashes_in_order() {
    let hashes = decode_saved(SAMPLE_LIST).ok().unwrap();
    assert_eq!(hashes, vec!["0xA", "0xB", "0xC"]);
}

#[test]
fn decode_saved_of_empty_result_list_is_empty() {
    let hashes = decode_saved("{\"result\": []}").ok().unwrap();
    assert_eq!(hashes.len(), 0);
}

#[test]
fn decode_saved_rejects_malformed_text() {
    let r = decode_saved("][");
    assert!(matches!(r, Err(FlowError::DecodeError)));
}

#[test]
fn decode_saved_rejects_missing_result_field() {
    let r = decode_saved("{\"status\": \"1\"}");
    assert!(matches!(r, Err(FlowError::DecodeError)));
}

#[test]
fn decode_saved_rejects_non_array_result() {
    let r = decode_saved("{\"result\": \"0xA\"}");
    assert!(matches!(r, Err(FlowError::DecodeError)));
}

#[test]
fn decode_saved_rejects_entry_without_hash() {
    let r = decode_saved("{\"result\": [{\"hash\": \"0xA\"}, {\"blockNumber\": \"2\"}]}");
    assert!(matches!(r, Err(FlowError::DecodeError)));
}

#[test]
fn decode_saved_rejects_non_string_hash() {
    let r = decode_saved("{\"result\": [{\"hash\": 7}]}");
    assert!(matches!(r, Err(FlowError::DecodeError)));
}

#[test]
fn success_line_carries_hash_and_body() {
    let line = detail_report_line("0xA", &DetailOutcome::Success(String::from("{}")));
    assert!(!line.is_error);
    assert_eq!(line.text, "Response for hash 0xA: {}");
}

#[test]
fn failure_line_carries_hash_and_message() {
    let line = detail_report_line("0xB", &DetailOutcome::Failure(String::from("timed out")));
    assert!(line.is_error);
    assert_eq!(line.text, "Error for hash 0xB: timed out");
}

#[test]
fn one_failed_hash_does_not_abort_the_others() {
    let hashes = vec![String::from("0xA"), String::from("0xB"), String::from("0xC")];
    let outcomes = vec![
        DetailOutcome::Success(String::from("{\n  \"a\": 1\n}")),
        DetailOutcome::Failure(String::from("connection refused")),
        DetailOutcome::Success(String::from("{\n  \"c\": 3\n}")),
    ];
    let reports = detail_reports(&hashes, &outcomes);
    assert_eq!(reports.len(), 3);
    assert!(!reports[0].is_error);
    assert_eq!(reports[0].text, "Response for hash 0xA: {\n  \"a\": 1\n}");
    assert!(reports[1].is_error);
    assert!(reports[1].text.contains("0xB"));
    assert_eq!(reports[1].text, "Error for hash 0xB: connection refused");
    assert!(!reports[2].is_error);
    assert_eq!(reports[2].text, "Response for hash 0xC: {\n  \"c\": 3\n}");
}

#[test]
fn error_kinds_have_distinct_messages() {
    assert_eq!(
        FlowError::ConfigMissing.describe(),
        "required environment variable not set"
    );
    assert_eq!(FlowError::NetworkError.describe(), "network request failed");
    assert_eq!(FlowError::DecodeError.describe(), "JSON was not well-formatted");
    assert_eq!(
        FlowError::FilesystemError.describe(),
        "file system operation failed"
    );
}
