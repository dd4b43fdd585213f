use rustcracker::http::{
    http_request, process_header_line, process_res_line, res_into_parts, status_lines_ok,
    status_text_of, Command, HttpMethod,
};

#[test]
fn framed_request_without_body() {
    let s = http_request("GET", "/version", None);
    assert_eq!(s, "GET /version HTTP/1.1\r\nContent-Type: application/json\r\n\r\n");
}

#[test]
fn framed_request_with_body_declares_byte_length() {
    let s = http_request("PUT", "/actions", Some("{\"action_type\":\"InstanceStart\"}".to_string()));
    assert_eq!(
        s,
        "PUT /actions HTTP/1.1\r\nContent-Type: application/json\r\nContent-Length: 31\r\n\r\n{\"action_type\":\"InstanceStart\"}"
    );
}

#[test]
fn response_parts_of_a_reply() {
    let res = "HTTP/1.1 204 \r\nServer: Firecracker API\r\nConnection: keep-alive\r\n\r\n".to_string();
    assert!(status_lines_ok(&res));
    let (code, text, body) = res_into_parts(res);
    assert_eq!(code, "204");
    assert_eq!(text, "No Content");
    assert_eq!(body, "");
}

#[test]
fn response_parts_with_body() {
    let res = "HTTP/1.1 400 Bad Request\r\nContent-Type: application/json\r\n\r\n{\"fault_message\":\"bad\"}".to_string();
    let (code, text, body) = res_into_parts(res);
    assert_eq!(code, "400");
    assert_eq!(text, "Bad Request");
    assert_eq!(body, "{\"fault_message\":\"bad\"}");
}

#[test]
fn unknown_status_reads_as_not_found() {
    let (code, text, _) = res_into_parts("HTTP/1.1 418 Teapot\r\n\r\n".to_string());
    assert_eq!(code, "418");
    assert_eq!(text, "Not Found");
    assert_eq!(status_text_of(&"500".to_string()), "Internal Server Error");
    assert_eq!(status_text_of(&"200".to_string()), "OK");
}

#[test]
fn status_line_without_code_is_refused_by_the_check() {
    assert!(!status_lines_ok(&"HTTP/1.1\r\n\r\nbody".to_string()));
    assert!(status_lines_ok(&"no status line at all".to_string()));
}

#[test]
fn status_and_header_lines_split() {
    assert_eq!(process_res_line("HTTP/1.1 200 OK"), ("HTTP/1.1".to_string(), "200".to_string()));
    assert_eq!(
        process_header_line("Content-Type: application/json"),
        ("Content-Type".to_string(), "application/json".to_string())
    );
}

#[test]
fn command_encoding() {
    let c = Command { method: HttpMethod::Patch, url: "/vm".to_string(), data: "{}".to_string() };
    assert_eq!(
        c.encode(),
        "PATCH /vm HTTP/1.1\r\nContent-Length: 2\r\nContent-Type: application/json\r\nAccept: application/json\r\n\r\n{}"
    );
    assert_eq!(HttpMethod::Get.to_str(), "GET");
    assert_eq!(HttpMethod::Put.to_str(), "PUT");
}
