use rustcracker::http::{serialize_request, HttpRequest};

fn example_request(body: Option<String>) -> HttpRequest {
    HttpRequest {
        method: "GET".to_string(),
        path: "/".to_string(),
        version: "HTTP/1.1".to_string(),
        headers: vec![
            ("Host".to_string(), "example.com".to_string()),
            ("Connection".to_string(), "keep-alive".to_string()),
        ],
        body,
    }
}

#[test]
fn test_request_without_body() {
    let request = example_request(None);

    let serialized_request = serialize_request(&request);
    let expected_request =
        "GET / HTTP/1.1\r\nHost: example.com\r\nConnection: keep-alive\r\n\r\n".to_string();

    let expected_request_anothor_possibility =
        "GET / HTTP/1.1\r\nConnection: keep-alive\r\nHost: example.com\r\n\r\n".to_string();

    assert!(
        (serialized_request == expected_request)
            || (serialized_request == expected_request_anothor_possibility)
    );

    let mut headers = [httparse::EMPTY_HEADER; 64];
    let mut req = httparse::Request::new(&mut headers);
    let result = req.parse(serialized_request.as_bytes()).unwrap();
    assert!(result.is_complete());
}

#[test]
fn test_request_with_body() {
    let body = "this is body".to_string();
    let request = example_request(Some(body));

    let serialized_request = serialize_request(&request);
    let expected_request =
        "GET / HTTP/1.1\r\nHost: example.com\r\nConnection: keep-alive\r\nContent-Length: 12\r\n\r\nthis is body".to_string();
    let expected_request_anothor_possibility =
        "GET / HTTP/1.1\r\nConnection: keep-alive\r\nHost: example.com\r\nContent-Length: 12\r\n\r\nthis is body".to_string();

    assert!(
        (serialized_request == expected_request)
            || (serialized_request == expected_request_anothor_possibility)
    );

    let mut headers = [httparse::EMPTY_HEADER; 64];
    let mut req = httparse::Request::new(&mut headers);
    let result = req.parse(serialized_request.as_bytes()).unwrap();
    assert!(result.is_complete());
    assert_eq!(result.unwrap(), 81);
}

#[test]
fn new_request_carries_content_length_header() {
    let r = HttpRequest::new("PUT", "/actions", Some(17), None);
    assert_eq!(r.method, "PUT");
    assert_eq!(r.path, "/actions");
    assert_eq!(r.version, "HTTP/1.1");
    assert_eq!(r.headers, vec![("Content-Length".to_string(), "17".to_string())]);
    assert_eq!(serialize_request(&r), "PUT /actions HTTP/1.1\r\nContent-Length: 17\r\n\r\n");
}

#[test]
fn serialized_body_length_counts_bytes() {
    let r = HttpRequest::new("PUT", "/mmds", None, Some("é".to_string()));
    assert_eq!(serialize_request(&r), "PUT /mmds HTTP/1.1\r\nContent-Length: 2\r\n\r\né");
}
