use http_server::request::{split_lines, split_whitespace};
use http_server::text::{same_bytes, starts_with, strip_prefix, to_decimal, to_wire};
use http_server::{DecodeError, HttpMethod, HttpRequest, HttpResponse};

fn lines_of(data: &[u8]) -> Vec<Vec<u8>> {
    split_lines(data)
}

#[test]
fn decimal_of_small_and_large_numbers() {
    assert_eq!(to_decimal(0), b"0".to_vec());
    assert_eq!(to_decimal(7), b"7".to_vec());
    assert_eq!(to_decimal(10), b"10".to_vec());
    assert_eq!(to_decimal(404), b"404".to_vec());
    assert_eq!(to_decimal(1234567890), b"1234567890".to_vec());
    assert_eq!(to_decimal(usize::MAX), format!("{}", usize::MAX).into_bytes());
}

#[test]
fn text_helpers_compare_bytes() {
    assert_eq!(to_wire("GET"), vec![71u8, 69, 84]);
    assert!(same_bytes(b"abc", b"abc"));
    assert!(!same_bytes(b"abc", b"abd"));
    assert!(!same_bytes(b"abc", b"ab"));
    assert!(same_bytes(b"", b""));
    assert!(starts_with(b"/echo/x", b"/echo/"));
    assert!(starts_with(b"/echo/", b"/echo/"));
    assert!(!starts_with(b"/echo", b"/echo/"));
    assert!(starts_with(b"anything", b""));
    assert_eq!(strip_prefix(b"/echo/abc", b"/echo/"), b"abc".to_vec());
    assert_eq!(strip_prefix(b"/other", b"/echo/"), b"/other".to_vec());
}

#[test]
fn lines_end_at_line_feeds_and_drop_the_carriage_return() {
    assert_eq!(lines_of(b""), Vec::<Vec<u8>>::new());
    assert_eq!(lines_of(b"a"), vec![b"a".to_vec()]);
    assert_eq!(lines_of(b"a\n"), vec![b"a".to_vec()]);
    assert_eq!(lines_of(b"a\r\n"), vec![b"a".to_vec()]);
    assert_eq!(lines_of(b"a\r\nb\nc"), vec![b"a".to_vec(), b"b".to_vec(), b"c".to_vec()]);
    assert_eq!(lines_of(b"\n"), vec![b"".to_vec()]);
    assert_eq!(lines_of(b"\r\n\r\n"), vec![b"".to_vec(), b"".to_vec()]);
}

#[test]
fn last_line_without_line_feed_keeps_its_carriage_return() {
    assert_eq!(
        lines_of(b"foo\nbar\n\r\nbaz\r"),
        vec![b"foo".to_vec(), b"bar".to_vec(), b"".to_vec(), b"baz\r".to_vec()]
    );
    assert_eq!(lines_of(b"a\rb\n"), vec![b"a\rb".to_vec()]);
    assert_eq!(lines_of(b"a\r\r\n"), vec![b"a\r".to_vec()]);
}

#[test]
fn tokens_are_runs_between_whitespace() {
    assert_eq!(split_whitespace(b""), Vec::<Vec<u8>>::new());
    assert_eq!(split_whitespace(b"   \t "), Vec::<Vec<u8>>::new());
    assert_eq!(
        split_whitespace(b"GET / HTTP/1.1"),
        vec![b"GET".to_vec(), b"/".to_vec(), b"HTTP/1.1".to_vec()]
    );
    assert_eq!(
        split_whitespace(b"  a\t\tb \x0b c\x0c\rd "),
        vec![b"a".to_vec(), b"b".to_vec(), b"c".to_vec(), b"d".to_vec()]
    );
    assert_eq!(split_whitespace(b"a\x08b\x0ec"), vec![b"a\x08b\x0ec".to_vec()]);
}

#[test]
fn decodes_a_plain_get() {
    let request = HttpRequest::parse_request(b"GET /echo/abc HTTP/1.1\r\n\r\n").unwrap();
    assert_eq!(request.method, HttpMethod::GET);
    assert_eq!(request.path, b"/echo/abc".to_vec());
    assert!(request.headers.is_empty());
    assert!(request.content.is_empty());
}

#[test]
fn decodes_headers_and_body() {
    let data = b"POST /files/report.txt HTTP/1.1\r\nHost: localhost:4221\r\nUser-Agent: curl/8.0\r\nContent-Length: 5\r\n\r\nhello";
    let request = HttpRequest::parse_request(data).unwrap();
    assert_eq!(request.method, HttpMethod::POST);
    assert_eq!(request.path, b"/files/report.txt".to_vec());
    assert_eq!(
        request.headers,
        vec![
            b"Host: localhost:4221".to_vec(),
            b"User-Agent: curl/8.0".to_vec(),
            b"Content-Length: 5".to_vec()
        ]
    );
    assert_eq!(request.content, b"hello".to_vec());
}

#[test]
fn decodes_with_bare_line_feeds() {
    let request = HttpRequest::parse_request(b"GET / HTTP/1.1\nAccept: */*\n\nbody").unwrap();
    assert_eq!(request.path, b"/".to_vec());
    assert_eq!(request.headers, vec![b"Accept: */*".to_vec()]);
    assert_eq!(request.content, b"body".to_vec());
}

#[test]
fn body_lines_are_joined_without_their_line_breaks() {
    let request =
        HttpRequest::parse_request(b"POST /files/a HTTP/1.1\r\n\r\none\r\ntwo\nthree").unwrap();
    assert_eq!(request.content, b"onetwothree".to_vec());
    assert!(request.headers.is_empty());
}

#[test]
fn lines_after_a_second_blank_line_are_headers_again() {
    let request =
        HttpRequest::parse_request(b"POST /x HTTP/1.1\r\nA: 1\r\n\r\nbody\r\n\r\nB: 2\r\n\r\nC: 3")
            .unwrap();
    assert_eq!(request.headers, vec![b"A: 1".to_vec(), b"B: 2".to_vec(), b"C: 3".to_vec()]);
    assert_eq!(request.content, b"body".to_vec());
}

#[test]
fn request_line_may_have_more_than_three_tokens() {
    let request = HttpRequest::parse_request(b"GET\t/a   HTTP/1.1 extra\r\n").unwrap();
    assert_eq!(request.method, HttpMethod::GET);
    assert_eq!(request.path, b"/a".to_vec());
}

#[test]
fn every_recognised_method_decodes() {
    let cases: Vec<(&[u8], HttpMethod)> = vec![
        (b"GET / HTTP/1.1\r\n", HttpMethod::GET),
        (b"POST / HTTP/1.1\r\n", HttpMethod::POST),
        (b"PUT / HTTP/1.1\r\n", HttpMethod::PUT),
        (b"DELETE / HTTP/1.1\r\n", HttpMethod::DELETE),
        (b"UPDATE / HTTP/1.1\r\n", HttpMethod::UPDATE),
    ];
    for (data, method) in cases {
        assert_eq!(HttpRequest::parse_request(data).unwrap().method, method);
    }
}

#[test]
fn parse_method_reads_the_token() {
    assert_eq!(HttpMethod::parse_method(b"GET"), Ok(HttpMethod::GET));
    assert_eq!(HttpMethod::parse_method(b"POST"), Ok(HttpMethod::POST));
    assert_eq!(HttpMethod::parse_method(b"get"), Err(DecodeError::UnsupportedMethod));
    assert_eq!(HttpMethod::parse_method(b"GETS"), Err(DecodeError::UnsupportedMethod));
    assert_eq!(HttpMethod::parse_method(b""), Err(DecodeError::UnsupportedMethod));
    assert_eq!(HttpMethod::parse_method(b"PATCH"), Err(DecodeError::UnsupportedMethod));
}

#[test]
fn unknown_method_is_unsupported() {
    let r = HttpRequest::parse_request(b"PATCH / HTTP/1.1\r\n\r\n");
    assert_eq!(r.err(), Some(DecodeError::UnsupportedMethod));
    let r = HttpRequest::parse_request(b"get / HTTP/1.1\r\n\r\n");
    assert_eq!(r.err(), Some(DecodeError::UnsupportedMethod));
}

#[test]
fn fewer_than_three_tokens_is_a_decode_failure() {
    let short: Vec<&[u8]> = vec![
        b"",
        b"\r\n",
        b"\r\nGET / HTTP/1.1\r\n",
        b"GET",
        b"GET /",
        b"GET / \r\nHTTP/1.1",
        b"   \t  ",
        b"PATCH /",
        b"/ HTTP/1.1\r\nHost: a b c\r\n\r\n",
    ];
    for data in short {
        let r = HttpRequest::parse_request(data);
        assert_eq!(r.err(), Some(DecodeError::MalformedRequestLine));
    }
}

#[test]
fn bytes_that_are_no_text_still_decode() {
    let request = HttpRequest::parse_request(b"GET /echo/\xff\xfe HTTP/1.1\r\n\r\n").unwrap();
    assert_eq!(request.path, b"/echo/\xff\xfe".to_vec());
}

#[test]
fn encodes_status_headers_length_and_body() {
    let response = HttpResponse::ok(
        Some(vec![b"Content-Type: text/plain".to_vec()]),
        Some(b"abc".to_vec()),
    );
    assert_eq!(
        response.to_byte_vector(),
        b"HTTP/1.1 200 OK\r\nContent-Type: text/plain\r\nContent-Length: 3\r\n\r\nabc".to_vec()
    );
}

#[test]
fn encodes_several_headers_in_order() {
    let response = HttpResponse::ok(
        Some(vec![b"A: 1".to_vec(), b"B: 2".to_vec(), b"C: 3".to_vec()]),
        Some(b"0123456789ab".to_vec()),
    );
    assert_eq!(
        response.to_byte_vector(),
        b"HTTP/1.1 200 OK\r\nA: 1\r\nB: 2\r\nC: 3\r\nContent-Length: 12\r\n\r\n0123456789ab"
            .to_vec()
    );
}

#[test]
fn absent_and_empty_bodies_carry_a_length_of_zero() {
    let expected = b"HTTP/1.1 200 OK\r\nContent-Length: 0\r\n\r\n".to_vec();
    assert_eq!(HttpResponse::ok(None, None).to_byte_vector(), expected);
    assert_eq!(HttpResponse::ok(None, Some(Vec::new())).to_byte_vector(), expected);
    assert_eq!(HttpResponse::ok(Some(Vec::new()), None).to_byte_vector(), expected);
}

#[test]
fn encodes_the_fixed_responses() {
    assert_eq!(
        HttpResponse::created().to_byte_vector(),
        b"HTTP/1.1 201 Created\r\nContent-Length: 0\r\n\r\n".to_vec()
    );
    assert_eq!(
        HttpResponse::not_found().to_byte_vector(),
        b"HTTP/1.1 404 Not Found\r\nContent-Length: 0\r\n\r\n".to_vec()
    );
    assert_eq!(
        HttpResponse::internal_server_error().to_byte_vector(),
        b"HTTP/1.1 500 Internal Server Error\r\nContent-Length: 0\r\n\r\n".to_vec()
    );
}

#[test]
fn constructors_set_every_field() {
    let r = HttpResponse::ok(Some(vec![b"X: y".to_vec()]), Some(b"z".to_vec()));
    assert_eq!(r.http_version, b"HTTP/1.1".to_vec());
    assert_eq!(r.status_code, 200);
    assert_eq!(r.reason, b"OK".to_vec());
    assert_eq!(r.headers, Some(vec![b"X: y".to_vec()]));
    assert_eq!(r.content, Some(b"z".to_vec()));
    let r = HttpResponse::created();
    assert_eq!((r.status_code, r.reason, r.headers, r.content), (201, b"Created".to_vec(), None, None));
    let r = HttpResponse::not_found();
    assert_eq!((r.status_code, r.reason, r.headers, r.content), (404, b"Not Found".to_vec(), None, None));
    let r = HttpResponse::internal_server_error();
    assert_eq!(
        (r.status_code, r.reason, r.headers, r.content),
        (500, b"Internal Server Error".to_vec(), None, None)
    );
}

#[test]
fn body_bytes_are_written_as_they_are() {
    let body: Vec<u8> = (0u8..=255).collect();
    let out = HttpResponse::ok(None, Some(body.clone())).to_byte_vector();
    let head = b"HTTP/1.1 200 OK\r\nContent-Length: 256\r\n\r\n";
    assert_eq!(&out[..head.len()], &head[..]);
    assert_eq!(&out[head.len()..], &body[..]);
}

#[test]
fn encoding_twice_gives_the_same_bytes() {
    let response = HttpResponse::ok(
        Some(vec![b"Content-Type: application/octet-stream".to_vec()]),
        Some(vec![0, 1, 2, 255]),
    );
    assert_eq!(response.to_byte_vector(), response.to_byte_vector());
    assert_eq!(response.clone().to_byte_vector(), response.to_byte_vector());
}
