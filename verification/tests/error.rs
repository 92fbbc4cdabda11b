use jot_sync::error::ErrorKind;
use jot_sync::error::SyncError;
use jot_sync::error::TransportFailure;

#[test]
fn each_kind_has_its_own_description() {
    assert_eq!(SyncError::Request("a".to_string()).describe(), "Request error: a");
    assert_eq!(SyncError::Response("b".to_string()).describe(), "Response error: b");
    assert_eq!(SyncError::FileSystem("c".to_string()).describe(), "File system error: c");
    assert_eq!(SyncError::WebDav("d".to_string()).describe(), "WebDAV error: d");
    assert_eq!(SyncError::Configuration("e".to_string()).describe(), "Configuration error: e");
}

#[test]
fn kind_and_message_are_read_back() {
    let error = SyncError::WebDav("folder is gone".to_string());
    assert_eq!(error.kind(), ErrorKind::WebDav);
    assert_eq!(error.message(), "folder is gone");
    assert_eq!(SyncError::Request(String::new()).kind(), ErrorKind::Request);
    assert_eq!(SyncError::Response(String::new()).kind(), ErrorKind::Response);
    assert_eq!(SyncError::FileSystem(String::new()).kind(), ErrorKind::FileSystem);
    assert_eq!(SyncError::Configuration(String::new()).kind(), ErrorKind::Configuration);
}

#[test]
fn with_detail_joins_prefix_and_detail() {
    let error = SyncError::with_detail(ErrorKind::Request, "Failed to upload note: ", "timed out");
    assert_eq!(error.kind(), ErrorKind::Request);
    assert_eq!(error.message(), "Failed to upload note: timed out");
    assert_eq!(error.describe(), "Request error: Failed to upload note: timed out");
}

#[test]
fn of_kind_builds_each_variant() {
    assert!(matches!(SyncError::of_kind(ErrorKind::Request, "m".to_string()), SyncError::Request(m) if m == "m"));
    assert!(matches!(SyncError::of_kind(ErrorKind::Response, "m".to_string()), SyncError::Response(m) if m == "m"));
    assert!(matches!(SyncError::of_kind(ErrorKind::FileSystem, "m".to_string()), SyncError::FileSystem(m) if m == "m"));
    assert!(matches!(SyncError::of_kind(ErrorKind::WebDav, "m".to_string()), SyncError::WebDav(m) if m == "m"));
    assert!(matches!(SyncError::of_kind(ErrorKind::Configuration, "m".to_string()), SyncError::Configuration(m) if m == "m"));
}

#[test]
fn failed_requests_are_classified_in_order() {
    let all = TransportFailure { timeout: true, connect: true, status: true };
    assert_eq!(
        SyncError::from_transport_failure(all, "x").describe(),
        "Request error: Request timeout: x"
    );
    let connect = TransportFailure { timeout: false, connect: true, status: true };
    assert_eq!(
        SyncError::from_transport_failure(connect, "x").describe(),
        "Request error: Connection error: x"
    );
    let status = TransportFailure { timeout: false, connect: false, status: true };
    let error = SyncError::from_transport_failure(status, "404");
    assert_eq!(error.kind(), ErrorKind::Response);
    assert_eq!(error.describe(), "Response error: HTTP error: 404");
    let other = TransportFailure { timeout: false, connect: false, status: false };
    assert_eq!(
        SyncError::from_transport_failure(other, "x").describe(),
        "Request error: Request error: x"
    );
}

#[test]
fn outside_failures_become_errors_of_their_kind() {
    let error = SyncError::from_io_failure("permission denied");
    assert_eq!(error.kind(), ErrorKind::FileSystem);
    assert_eq!(error.message(), "permission denied");
    let error = SyncError::from_json_failure("expected value at line 1 column 1");
    assert_eq!(error.kind(), ErrorKind::Configuration);
    assert_eq!(error.message(), "JSON parsing error: expected value at line 1 column 1");
    let error = SyncError::from_url_failure("empty host");
    assert_eq!(error.kind(), ErrorKind::Configuration);
    assert_eq!(error.message(), "URL parsing error: empty host");
}
