use istinit::http::{is_success, parse_status_code, response_succeeded, split_http_url, READINESS_PATH, TERMINATION_PATH};

#[test]
fn status_codes_are_read() {
    assert_eq!(parse_status_code(b"HTTP/1.1 200 OK\r\n\r\n"), Some(200));
    assert_eq!(parse_status_code(b"HTTP/1.0 503 Service Unavailable\r\n"), Some(503));
    assert_eq!(parse_status_code(b"HTTP/1.1 204\r\n"), Some(204));
    assert_eq!(parse_status_code(b"HTTP/1.1 404"), Some(404));
}

#[test]
fn malformed_status_lines_are_refused() {
    assert_eq!(parse_status_code(b""), None);
    assert_eq!(parse_status_code(b"HTTP/1.1 20"), None);
    assert_eq!(parse_status_code(b"HTTP/1.1 2000"), None);
    assert_eq!(parse_status_code(b"HTTX/1.1 200 OK"), None);
    assert_eq!(parse_status_code(b"HTTP/1.1 2a0 OK"), None);
}

#[test]
fn only_2xx_is_success() {
    assert!(is_success(200));
    assert!(is_success(299));
    assert!(!is_success(199));
    assert!(!is_success(300));
    assert!(response_succeeded(b"HTTP/1.1 200 OK\r\n"));
    assert!(!response_succeeded(b"HTTP/1.1 503 Unavailable\r\n"));
    assert!(!response_succeeded(b"garbage"));
}

#[test]
fn base_urls_are_split() {
    assert_eq!(split_http_url(b"http://127.0.0.1:15021"), Some(22));
    assert_eq!(split_http_url(b"http://localhost:15000/admin"), Some(22));
    assert_eq!(split_http_url(b"http:///x"), None);
    assert_eq!(split_http_url(b"https://host"), None);
    assert_eq!(split_http_url(b"http://"), None);
}

#[test]
fn endpoint_paths() {
    assert_eq!(READINESS_PATH, "/healthz/ready");
    assert_eq!(TERMINATION_PATH, "/quitquitquit");
}
