use request_pipeline::{
    execute_request, AuthorizationToken, ContainerClient, Error, Method, RawResponse,
    RequestDescription, Transport,
};
use std::cell::RefCell;

const STAMP: &str = "Tue, 01 Jan 2030 00:00:00 GMT";

struct Echo {
    status: u16,
    headers: Vec<(String, String)>,
    body: String,
    sent: RefCell<Vec<RequestDescription>>,
}

impl Echo {
    fn new(status: u16, headers: Vec<(String, String)>, body: &str) -> Echo {
        Echo { status, headers, body: body.to_string(), sent: RefCell::new(Vec::new()) }
    }
}

impl Transport for Echo {
    fn send(&self, request: &RequestDescription) -> Result<RawResponse, String> {
        self.sent.borrow_mut().push(request.clone());
        Ok(RawResponse { status: self.status, headers: self.headers.clone(), body: self.body.clone() })
    }
}

struct Down;

impl Transport for Down {
    fn send(&self, _request: &RequestDescription) -> Result<RawResponse, String> {
        Err("connection refused".to_string())
    }
}

fn h(name: &str, value: &str) -> (String, String) {
    (name.to_string(), value.to_string())
}

fn four_headers() -> Vec<(String, String)> {
    vec![
        h("etag", "\"0x8DA\""),
        h("last-modified", "Tue, 01 Jan 2030 00:00:00 GMT"),
        h("x-ms-request-id", "req-42"),
        h("date", "Tue, 15 Jun 2021 08:30:05 GMT"),
    ]
}

fn client() -> ContainerClient {
    ContainerClient::new(
        "https://acct.blob.core.windows.net".to_string(),
        "photos".to_string(),
        AuthorizationToken::primary_from_base64("aGVsbG8=").unwrap(),
    )
}

#[test]
fn builder_end_to_end() {
    let client = client();
    let echo = Echo::new(200, four_headers(), "");
    let rec = client
        .get_acl()
        .timeout(30)
        .client_request_id("trace-7".to_string())
        .execute(&echo, STAMP)
        .unwrap();
    assert_eq!(rec.etag, "\"0x8DA\"");
    assert_eq!(rec.last_modified, 1893456000);
    assert_eq!(rec.request_id, "req-42");
    assert_eq!(rec.date, 1623745805);
    let sent = echo.sent.borrow();
    assert_eq!(sent.len(), 1);
    let req = &sent[0];
    assert_eq!(req.method, Method::Get);
    assert_eq!(
        req.url,
        "https://acct.blob.core.windows.net/photos?restype=container&comp=acl&timeout=30"
    );
    assert!(req.url.contains("timeout=30"));
    assert!(req.headers.contains(&h("x-ms-client-request-id", "trace-7")));
    assert!(req.headers.contains(&h("x-ms-date", STAMP)));
    let sig = client.credential.sign(Method::Get, "/photos", STAMP).unwrap();
    assert!(req.headers.contains(&("authorization".to_string(), sig)));
    assert_eq!(req.headers.len(), 3);
    assert!(req.body.is_none());
}

#[test]
fn unset_parameters_add_nothing() {
    let client = client();
    let req = client.get_acl().prepare(STAMP).unwrap();
    assert_eq!(req.url, "https://acct.blob.core.windows.net/photos?restype=container&comp=acl");
    let names: Vec<&str> = req.headers.iter().map(|(n, _)| n.as_str()).collect();
    assert_eq!(names, vec!["x-ms-date", "authorization"]);
}

#[test]
fn every_parameter_is_applied_once() {
    let client = client();
    let req = client
        .get_acl()
        .lease_id("lease-1".to_string())
        .timeout(5)
        .timeout(0)
        .client_request_id("old".to_string())
        .client_request_id("new".to_string())
        .prepare(STAMP)
        .unwrap();
    assert!(req.url.ends_with("&timeout=0"));
    let names: Vec<&str> = req.headers.iter().map(|(n, _)| n.as_str()).collect();
    assert_eq!(names, vec!["x-ms-client-request-id", "x-ms-lease-id", "x-ms-date", "authorization"]);
    assert_eq!(req.headers[0].1, "new");
    assert_eq!(req.headers[1].1, "lease-1");
}

#[test]
fn largest_timeout_is_written_in_full() {
    let client = client();
    let req = client.get_acl().timeout(u64::MAX).prepare(STAMP).unwrap();
    assert!(req.url.ends_with("&timeout=18446744073709551615"));
}

#[test]
fn endpoint_with_trailing_slash() {
    let client = ContainerClient::new(
        "https://acct.blob.core.windows.net/".to_string(),
        "c".to_string(),
        AuthorizationToken::new_resource("tok".to_string()),
    );
    assert_eq!(client.url_with_segments().unwrap(), "https://acct.blob.core.windows.net/c");
}

#[test]
fn endpoint_is_normalised_by_the_url_parser() {
    let client = ContainerClient::new(
        "HTTPS://Acct.Blob.Core.Windows.Net".to_string(),
        "c".to_string(),
        AuthorizationToken::new_resource("tok".to_string()),
    );
    assert_eq!(client.url_with_segments().unwrap(), "https://acct.blob.core.windows.net/c");
}

#[test]
fn bad_endpoint_fails_before_sending() {
    let client = ContainerClient::new(
        "not a url".to_string(),
        "c".to_string(),
        AuthorizationToken::new_resource("tok".to_string()),
    );
    let echo = Echo::new(200, four_headers(), "");
    let r = client.get_acl().execute(&echo, STAMP);
    assert_eq!(r, Err(Error::UrlParse("relative URL without a base".to_string())));
    assert_eq!(echo.sent.borrow().len(), 0);
}

#[test]
fn unexpected_status_is_not_retried() {
    let client = client();
    let echo = Echo::new(404, four_headers(), "<Error>ContainerNotFound</Error>");
    let r = client.get_acl().execute(&echo, STAMP);
    assert_eq!(
        r,
        Err(Error::UnexpectedStatus {
            status: 404,
            body: "<Error>ContainerNotFound</Error>".to_string()
        })
    );
    assert_eq!(echo.sent.borrow().len(), 1);
}

#[test]
fn transport_failure_is_wrapped() {
    let client = client();
    let r = client.get_acl().execute(&Down, STAMP);
    assert_eq!(r, Err(Error::Transport("connection refused".to_string())));
    let req = client.get_acl().prepare(STAMP).unwrap();
    assert_eq!(
        execute_request(&Down, &req, &vec![200]).unwrap_err(),
        Error::Transport("connection refused".to_string())
    );
}

#[test]
fn missing_header_in_response() {
    let client = client();
    let headers: Vec<(String, String)> =
        four_headers().into_iter().filter(|(n, _)| n != "date").collect();
    let echo = Echo::new(200, headers, "");
    let r = client.get_acl().execute(&echo, STAMP);
    assert_eq!(r, Err(Error::HeaderMissing("date".to_string())));
}

fn client_of(endpoint: &str, container: &str) -> ContainerClient {
    ContainerClient::new(
        endpoint.to_string(),
        container.to_string(),
        AuthorizationToken::new_resource("tok".to_string()),
    )
}

#[test]
fn container_name_is_escaped() {
    let client = client_of("https://acct.blob.core.windows.net", "a b/c");
    assert_eq!(client.url_with_segments().unwrap(), "https://acct.blob.core.windows.net/a%20b%2Fc");
}

#[test]
fn endpoint_query_is_kept() {
    let client = client_of("https://acct.blob.core.windows.net/?sv=1", "c");
    let req = client.get_acl().timeout(7).prepare(STAMP).unwrap();
    assert_eq!(
        req.url,
        "https://acct.blob.core.windows.net/c?sv=1&restype=container&comp=acl&timeout=7"
    );
}

#[test]
fn endpoint_that_takes_no_path_fails() {
    let client = client_of("mailto:someone@example.com", "c");
    assert_eq!(
        client.get_acl().prepare(STAMP).unwrap_err(),
        Error::UrlParse("URL cannot be a base".to_string())
    );
}
