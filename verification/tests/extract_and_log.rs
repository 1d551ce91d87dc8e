use tron::extract::extract_request_line;
use tron::greeting_response;
use tron::logging::format_log_line;

#[test]
fn well_formed_request_line() {
    let (method, path) = extract_request_line(b"GET / HTTP/1.1\r\nHost: x\r\n\r\n");
    assert_eq!(method, "GET");
    assert_eq!(path, "/");
}

#[test]
fn scenario_get_root_gets_full_greeting() {
    // A client sends a well-formed request; the response starts with the
    // status line, the Content-Length matches the greeting body, and that
    // exact body follows the header block.
    let request = b"GET / HTTP/1.1\r\nHost: x\r\n\r\n";
    let (method, path) = extract_request_line(request);
    assert_eq!((method.as_str(), path.as_str()), ("GET", "/"));
    let resp = greeting_response();
    assert!(resp.starts_with(b"HTTP/1.1 200 OK"));
    let body = b"Hello, World!";
    assert!(resp.ends_with(body));
    let head = &resp[..resp.len() - body.len()];
    let head = std::str::from_utf8(head).unwrap();
    assert!(head.contains(&format!("Content-Length: {}\r\n", body.len())));
    assert!(head.ends_with("\r\n\r\n"));
}

#[test]
fn empty_input_yields_sentinels() {
    let (method, path) = extract_request_line(b"");
    assert_eq!(method, "UNKNOWN");
    assert_eq!(path, "UNKNOWN");
}

#[test]
fn scenario_silent_client_same_response() {
    // A client that sends nothing still gets the same fixed response.
    let silent = greeting_response();
    let talkative = greeting_response();
    assert_eq!(silent, talkative);
    assert!(silent.starts_with(b"HTTP/1.1 200 OK\r\n"));
    assert!(silent.ends_with(b"Hello, World!"));
}

#[test]
fn scenario_immediate_close_logs_sentinels() {
    // A client that closed before any byte arrived is logged as
    // "UNKNOWN UNKNOWN" and nothing fails.
    let (method, path) = extract_request_line(b"");
    let line = format_log_line(0, 0, method.as_str(), path.as_str());
    assert_eq!(line, "[1970-01-01T00:00:00Z] UNKNOWN UNKNOWN");
}

#[test]
fn missing_path_yields_sentinel() {
    let (method, path) = extract_request_line(b"GET\r\n");
    assert_eq!(method, "GET");
    assert_eq!(path, "UNKNOWN");
}

#[test]
fn truncated_line_without_cr() {
    let (method, path) = extract_request_line(b"GET /partial");
    assert_eq!(method, "GET");
    assert_eq!(path, "/partial");
}

#[test]
fn leading_cr_yields_sentinels() {
    let (method, path) = extract_request_line(b"\r\nGET / HTTP/1.1");
    assert_eq!(method, "UNKNOWN");
    assert_eq!(path, "UNKNOWN");
}

#[test]
fn non_utf8_bytes_are_replaced_not_rejected() {
    let (method, path) = extract_request_line(b"G\xffT /p\xfe HTTP/1.1\r\n");
    assert_eq!(method, "G\u{fffd}T");
    assert_eq!(path, "/p\u{fffd}");
}

#[test]
fn extractor_is_total_on_arbitrary_bytes() {
    let inputs: Vec<Vec<u8>> = vec![
        vec![],
        vec![13],
        vec![32],
        vec![32, 32, 32],
        vec![0xff; 64],
        vec![0, 1, 2, 3, 13, 10],
        b"POST /submit HTTP/1.0\r\n".to_vec(),
        b"   leading spaces".to_vec(),
    ];
    for b in inputs {
        let (method, path) = extract_request_line(&b);
        assert!(!method.is_empty());
        assert!(!path.is_empty());
    }
}

#[test]
fn log_line_has_timestamp_method_path() {
    let line = format_log_line(1_700_000_000, 0, "GET", "/");
    assert_eq!(line, "[2023-11-14T22:13:20Z] GET /");
}

#[test]
fn log_line_with_fractional_seconds() {
    let line = format_log_line(0, 5_000_000, "GET", "/x");
    assert_eq!(line, "[1970-01-01T00:00:00.005000000Z] GET /x");
}

#[test]
fn log_timestamp_clamps_past_year_9999() {
    let line = format_log_line(u64::MAX, 0, "GET", "/");
    assert_eq!(line, "[9999-12-31T23:59:59Z] GET /");
}

#[test]
fn log_request_returns_the_line() {
    let line = tron::logging::log_request(b"GET /audit HTTP/1.1\r\n");
    assert!(line.starts_with('['));
    assert!(line.ends_with("] GET /audit"));
}
