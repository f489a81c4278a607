use mio_webserver::addr::bind_address;
use mio_webserver::parser::parse_request;
use mio_webserver::response::{
    create_msg_from_code, finish_get_response, plan_response, resolve_path, ResponsePlan,
};

const HEAD_200: &[u8] = b"HTTP/1.0 200 OK\r\nServer: mio webserver\r\n\r\n";
const HEAD_400: &[u8] = b"HTTP/1.0 400 Bad Request\r\nServer: mio webserver\r\n\r\n";
const HEAD_404: &[u8] = b"HTTP/1.0 404 Not Found\r\nServer: mio webserver\r\n\r\n";
const HEAD_501: &[u8] = b"HTTP/1.0 501 Not Implemented\r\nServer: mio webserver\r\n\r\n";

fn ready_bytes(plan: ResponsePlan) -> Vec<u8> {
    match plan {
        ResponsePlan::Ready(v) => v,
        ResponsePlan::FetchFile(p) => panic!("expected a finished response, got a fetch of {:?}", p),
    }
}

fn fetched_path(plan: ResponsePlan) -> Vec<u8> {
    match plan {
        ResponsePlan::Ready(v) => panic!("expected a file fetch, got a finished response {:?}", v),
        ResponsePlan::FetchFile(p) => p,
    }
}

#[test]
fn parse_well_formed_get() {
    let req = parse_request(b"GET /index.html HTTP/1.0\r\nHost: x\r\n\r\n").unwrap();
    assert_eq!(req.method, b"GET".to_vec());
    assert_eq!(req.path, b"/index.html".to_vec());
    assert_eq!(req.version, 0);
}

#[test]
fn parse_version_one() {
    let req = parse_request(b"HEAD /a HTTP/1.1\r\n").unwrap();
    assert_eq!(req.method, b"HEAD".to_vec());
    assert_eq!(req.version, 1);
}

#[test]
fn parse_failures_report_status_400() {
    let malformed: &[&[u8]] = &[
        b"",
        b"\r\n",
        b"GET\r\n",
        b"GET /index.html\r\n",
        b"GET /index.html HTTP/1.0",
        b"GET /index.html HTTP/1.2\r\n",
        b"GET /index.html HTTP/2.0\r\n",
        b"GET /index.html http/1.0\r\n",
        b" GET /index.html HTTP/1.0\r\n",
        b"GET  /index.html HTTP/1.0\r\n",
        b"G\xffT /index.html HTTP/1.0\r\n",
        b"GARBAGE\r\n\r\n",
    ];
    for buf in malformed {
        let err = parse_request(buf).expect_err("malformed request line must not parse");
        assert_eq!(err.status_code(), 400);
    }
}

#[test]
fn get_existing_file_is_200_with_exact_body() {
    let path = fetched_path(plan_response(b"GET /f HTTP/1.0\r\n\r\n"));
    assert_eq!(path, b"/f".to_vec());
    let contents = b"the exact file bytes \x00\x01\x02".to_vec();
    let response = finish_get_response(Some(contents.clone()));
    let mut expected = HEAD_200.to_vec();
    expected.extend_from_slice(&contents);
    assert_eq!(response, expected);
}

#[test]
fn get_missing_file_is_404_with_empty_body() {
    let response = finish_get_response(None);
    assert_eq!(response, HEAD_404.to_vec());
}

#[test]
fn non_get_methods_are_501() {
    for line in [
        &b"POST /index.html HTTP/1.0\r\n\r\n"[..],
        &b"PUT /index.html HTTP/1.0\r\n\r\n"[..],
        &b"DELETE /index.html HTTP/1.0\r\n\r\n"[..],
        &b"get /index.html HTTP/1.0\r\n\r\n"[..],
    ] {
        let response = ready_bytes(plan_response(line));
        assert_eq!(response, HEAD_501.to_vec());
    }
}

#[test]
fn malformed_request_is_400() {
    let response = ready_bytes(plan_response(b"GARBAGE\r\n\r\n"));
    assert_eq!(response, HEAD_400.to_vec());
}

#[test]
fn scenario_get_index_html_hello() {
    let path = fetched_path(plan_response(b"GET /index.html HTTP/1.0\r\n\r\n"));
    assert_eq!(path, b"/index.html".to_vec());
    let response = finish_get_response(Some(b"hello".to_vec()));
    assert_eq!(response, b"HTTP/1.0 200 OK\r\nServer: mio webserver\r\n\r\nhello".to_vec());
}

#[test]
fn scenario_delete_is_literal_501() {
    let response = ready_bytes(plan_response(b"DELETE /index.html HTTP/1.0\r\n\r\n"));
    assert_eq!(
        response,
        b"HTTP/1.0 501 Not Implemented\r\nServer: mio webserver\r\n\r\n".to_vec()
    );
}

#[test]
fn identical_requests_identical_responses() {
    let request: &[u8] = b"GET /index.html HTTP/1.0\r\n\r\n";
    let file = b"unchanged".to_vec();
    let first = finish_get_response(Some(file.clone()));
    let _ = fetched_path(plan_response(request));
    let _ = fetched_path(plan_response(request));
    let second = finish_get_response(Some(file));
    assert_eq!(first, second);
}

#[test]
fn create_msg_appends_body_only_for_200() {
    let with_body = create_msg_from_code(200, Some(b"abc".to_vec())).unwrap();
    let mut expected = HEAD_200.to_vec();
    expected.extend_from_slice(b"abc");
    assert_eq!(with_body, expected);
    assert_eq!(create_msg_from_code(200, None).unwrap(), HEAD_200.to_vec());
    assert_eq!(create_msg_from_code(400, None).unwrap(), HEAD_400.to_vec());
    assert_eq!(create_msg_from_code(404, None).unwrap(), HEAD_404.to_vec());
    assert_eq!(create_msg_from_code(501, None).unwrap(), HEAD_501.to_vec());
}

#[test]
fn create_msg_refuses_unknown_status() {
    let err = create_msg_from_code(302, None).expect_err("302 is not a known status");
    assert_eq!(err.code, 302);
}

#[test]
fn resolve_path_concatenates_verbatim() {
    let joined = resolve_path(b"/srv/webroot", b"/index.html");
    assert_eq!(joined, b"/srv/webroot/index.html".to_vec());
    let traversal = resolve_path(b"/srv/webroot", b"/../etc/passwd");
    assert_eq!(traversal, b"/srv/webroot/../etc/passwd".to_vec());
}

#[test]
fn bind_address_formats_port_in_decimal() {
    assert_eq!(bind_address(8080), b"0.0.0.0:8080".to_vec());
    assert_eq!(bind_address(0), b"0.0.0.0:0".to_vec());
    assert_eq!(bind_address(65535), b"0.0.0.0:65535".to_vec());
    assert_eq!(bind_address(4294967295), b"0.0.0.0:4294967295".to_vec());
}

#[test]
fn parse_error_message_is_stable() {
    let err = parse_request(b"nonsense").expect_err("no request line at all");
    assert_eq!(err.message(), "failed to parse http request");
}
