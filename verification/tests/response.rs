use tron::greeting;
use tron::greeting_response;
use tron::response::build_response;

fn split_response(resp: &[u8]) -> (String, Vec<u8>) {
    let pos = resp
        .windows(4)
        .position(|w| w == b"\r\n\r\n")
        .expect("response must contain a blank line");
    let head = String::from_utf8(resp[..pos + 4].to_vec()).expect("head must be UTF-8");
    let body = resp[pos + 4..].to_vec();
    (head, body)
}

fn content_length_of(head: &str) -> usize {
    let line = head
        .split("\r\n")
        .find(|l| l.starts_with("Content-Length: "))
        .expect("response must carry a Content-Length header");
    line["Content-Length: ".len()..].parse().expect("length must be decimal")
}

#[test]
fn greeting_is_fixed_text() {
    assert_eq!(greeting(), "Hello, World!");
}

#[test]
fn response_starts_with_status_line() {
    let resp = greeting_response();
    assert!(resp.starts_with(b"HTTP/1.1 200 OK\r\n"));
}

#[test]
fn response_carries_greeting_with_exact_length() {
    let resp = greeting_response();
    let (head, body) = split_response(&resp);
    assert_eq!(body, greeting().into_bytes());
    assert_eq!(content_length_of(&head), body.len());
    assert!(head.contains("Content-Type: text/plain\r\n"));
}

#[test]
fn content_length_matches_every_body() {
    let bodies: Vec<Vec<u8>> = vec![
        b"".to_vec(),
        b"x".to_vec(),
        b"Hello, World!".to_vec(),
        vec![0xff, 0xfe, 0x00, 0x01],
        vec![b'a'; 4096],
    ];
    for b in bodies {
        let resp = build_response(&b);
        let (head, body) = split_response(&resp);
        assert_eq!(body, b);
        assert_eq!(content_length_of(&head), b.len());
    }
}

#[test]
fn content_length_zero_spelled_exactly() {
    let resp = build_response(b"");
    let (head, _) = split_response(&resp);
    assert!(head.contains("Content-Length: 0\r\n"));
}

#[test]
fn content_length_digits_exact() {
    let resp = build_response(&vec![7u8; 4096]);
    let (head, _) = split_response(&resp);
    assert!(head.contains("Content-Length: 4096\r\n"));
}

#[test]
fn exact_wire_bytes_for_greeting() {
    let resp = greeting_response();
    let expected =
        b"HTTP/1.1 200 OK\r\nContent-Type: text/plain\r\nContent-Length: 13\r\n\r\nHello, World!";
    assert_eq!(resp, expected.to_vec());
}

#[test]
fn responses_are_independent_and_correct() {
    // Many connections in a row: each body gets its own exact response,
    // never mixed with another connection's bytes.
    let mut responses = Vec::new();
    for i in 0..100usize {
        let body = format!("client {i}").into_bytes();
        responses.push((body.clone(), build_response(&body)));
    }
    for (body, resp) in responses {
        let (head, got) = split_response(&resp);
        assert_eq!(got, body);
        assert_eq!(content_length_of(&head), body.len());
    }
}
