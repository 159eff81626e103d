use unitctl::request::{
    check_flags, compose_request, method_for, needs_json_advisory, payload_headers,
    select_payload, status_line, ComposeError, Method,
};
use unitctl::text::{has_prefix, has_suffix, labelled_number, push_decimal};

#[test]
fn no_payload_reads() {
    assert_eq!(method_for(false, false, false), Method::Get);
    assert_eq!(method_for(false, false, true), Method::Get);
    let req = compose_request("http://localhost/config".to_string(), None, None, false, false, false)
        .unwrap();
    assert_eq!(req.method, Method::Get);
    assert!(req.body.is_none());
    assert!(req.headers.is_empty());
    assert_eq!(req.uri, "http://localhost/config");
}

#[test]
fn put_flag_without_payload_still_reads() {
    let req = compose_request("http://localhost/config".to_string(), None, None, false, true, true)
        .unwrap();
    assert_eq!(req.method, Method::Get);
    assert!(req.verbose);
}

#[test]
fn delete_without_payload() {
    let req = compose_request(
        "http://localhost/config/listeners".to_string(),
        Some("/var/run/control.unit.sock".to_string()),
        None,
        true,
        false,
        false,
    )
    .unwrap();
    assert_eq!(req.method, Method::Delete);
    assert!(req.body.is_none());
    assert_eq!(req.socket.as_deref(), Some("/var/run/control.unit.sock"));
}

#[test]
fn delete_with_payload_is_rejected() {
    let r = compose_request("http://localhost/config".to_string(), None, Some(b"{}".to_vec()), true, false, false);
    assert_eq!(r.unwrap_err(), ComposeError::DeleteWithPayload);
    assert_eq!(check_flags(true, true, false), Err(ComposeError::DeleteWithPayload));
}

#[test]
fn delete_with_put_is_rejected() {
    let r = compose_request("http://localhost/config".to_string(), None, None, true, true, false);
    assert_eq!(r.unwrap_err(), ComposeError::DeleteWithPut);
    assert_eq!(check_flags(false, true, true), Err(ComposeError::DeleteWithPut));
    assert_eq!(check_flags(true, false, true), Ok(()));
}

#[test]
fn payload_is_posted_with_exact_length() {
    let body = br#"{"listeners":{}}"#.to_vec();
    let req = compose_request("http://localhost/config".to_string(), None, Some(body.clone()), false, false, false)
        .unwrap();
    assert_eq!(req.method, Method::Post);
    assert_eq!(req.body, Some(body));
    assert_eq!(
        req.headers,
        vec!["Content-Type: application/json".to_string(), "Content-Length: 16".to_string()]
    );
}

#[test]
fn content_length_counts_bytes_not_chars() {
    let body = select_payload(None, Some("\"é\"".to_string())).unwrap().unwrap();
    assert_eq!(body.len(), 4);
    let req = compose_request("http://localhost/config".to_string(), None, Some(body), false, false, false)
        .unwrap();
    assert_eq!(req.headers[1], "Content-Length: 4");
}

#[test]
fn payload_with_put_flag_is_put_unchanged() {
    let body = b"{\"a\":1}".to_vec();
    let req = compose_request("http://localhost/config".to_string(), None, Some(body.clone()), false, true, false)
        .unwrap();
    assert_eq!(req.method, Method::Put);
    assert_eq!(req.body, Some(body));
    assert_eq!(req.headers[1], "Content-Length: 7");
}

#[test]
fn payload_sources() {
    assert_eq!(select_payload(None, None), Ok(None));
    assert_eq!(select_payload(Some(vec![1, 2, 3]), None), Ok(Some(vec![1, 2, 3])));
    assert_eq!(select_payload(None, Some("{}".to_string())), Ok(Some(b"{}".to_vec())));
    assert_eq!(
        select_payload(Some(vec![1]), Some("{}".to_string())),
        Err(ComposeError::PayloadConflict)
    );
}

#[test]
fn json_extension_advisory() {
    assert!(!needs_json_advisory("conf.json"));
    assert!(needs_json_advisory("conf.yaml"));
    assert!(needs_json_advisory("json"));
    assert!(needs_json_advisory(""));
}

#[test]
fn header_lines() {
    assert_eq!(
        payload_headers(0),
        vec!["Content-Type: application/json".to_string(), "Content-Length: 0".to_string()]
    );
    assert_eq!(payload_headers(1024)[1], "Content-Length: 1024");
}

#[test]
fn status_line_only_when_quiet() {
    assert_eq!(status_line(200, false), Some("Response code: 200".to_string()));
    assert_eq!(status_line(404, true), None);
}

#[test]
fn decimal_rendering() {
    assert_eq!(labelled_number("", 0), "0");
    assert_eq!(labelled_number("n=", 10), "n=10");
    assert_eq!(labelled_number("", u64::MAX), "18446744073709551615");
    let mut s = "x".to_string();
    push_decimal(&mut s, 907);
    assert_eq!(s, "x907");
}

#[test]
fn file_contents_reach_the_body_unchanged() {
    let contents = vec![0xff, 0x00, b'{', b'}'];
    let payload = select_payload(Some(contents.clone()), None).unwrap();
    assert_eq!(payload, Some(contents.clone()));
    let req = compose_request("http://localhost/config".to_string(), None, payload, false, false, false)
        .unwrap();
    assert_eq!(req.body, Some(contents));
    assert_eq!(req.headers[1], "Content-Length: 4");
}

#[test]
fn prefix_and_suffix_by_characters() {
    assert!(has_prefix("/certificates/{id}", "/certificates"));
    assert!(has_prefix("/é/x", "/é"));
    assert!(has_prefix("abc", ""));
    assert!(!has_prefix("/cert", "/certificates"));
    assert!(!has_prefix("/config", "/certificates"));
    assert!(has_suffix("conf.json", ".json"));
    assert!(has_suffix("é.json", ".json"));
    assert!(!has_suffix("conf.jsonx", ".json"));
    assert!(!has_suffix("son", ".json"));
}
