use toy_server::http::{frame_response, respond, route, starts_with, Request, Route};
use toy_server::listener::{advance, next_action, AcceptOutcome, ConnectionEvent, ConnectionStage, LoopAction};

fn lines(v: &[&str]) -> Vec<String> {
    v.iter().map(|s| s.to_string()).collect()
}

fn content_length(resp: &str) -> usize {
    let start = resp.find("Content-Length: ").unwrap() + "Content-Length: ".len();
    let end = resp[start..].find("\r\n").unwrap() + start;
    resp[start..end].parse().unwrap()
}

fn body(resp: &str) -> &str {
    &resp[resp.find("\r\n\r\n").unwrap() + 4..]
}

#[test]
fn index_request_is_served() {
    let index = "<!DOCTYPE html>\n<p>Hi from Rust</p>\n";
    let req = Request::from_lines(&lines(&["GET / HTTP/1.1", "Host: localhost", "", "ignored"]));
    assert_eq!(req.len(), 2);
    let r = route(&req);
    assert_eq!(r, Route::Index);
    assert_eq!(r.resource(), Some("index.html"));
    let resp = String::from_utf8(respond(r, Some(index.as_bytes()))).unwrap();
    assert!(resp.starts_with("HTTP/1.1 200 OK"));
    assert_eq!(body(&resp), index);
    assert_eq!(content_length(&resp), index.len());
}

#[test]
fn missing_page_gets_fallback() {
    let fallback = "<p>Oops!</p>";
    let req = Request::from_lines(&lines(&["GET /missing HTTP/1.1", ""]));
    let r = route(&req);
    assert_eq!(r, Route::NotFound);
    assert_eq!(r.resource(), Some("404.html"));
    let resp = String::from_utf8(respond(r, Some(fallback.as_bytes()))).unwrap();
    assert_eq!(
        resp,
        "HTTP/1.1 404 NOT FOUND\r\nContent-Length: 12\r\n\r\n<p>Oops!</p>"
    );
}

#[test]
fn empty_request_is_malformed() {
    let req = Request::from_lines(&lines(&[]));
    assert_eq!(req.len(), 0);
    let r = route(&req);
    assert_eq!(r, Route::Malformed);
    assert_eq!(r.resource(), None);
    let resp = respond(r, Some(b"ignored"));
    assert_eq!(resp, b"HTTP/1.1 400 BAD REQUEST\r\nContent-Length: 0\r\n\r\n".to_vec());
    let blank_first = Request::from_lines(&lines(&["", "GET / HTTP/1.1"]));
    assert_eq!(route(&blank_first), Route::Malformed);
}

#[test]
fn missing_resource_answers_not_found() {
    let resp = respond(Route::Index, None);
    assert_eq!(resp, b"HTTP/1.1 404 NOT FOUND\r\nContent-Length: 0\r\n\r\n".to_vec());
}

#[test]
fn length_counts_bytes_not_chars() {
    let page = "héllo wörld";
    let resp = String::from_utf8(respond(Route::Index, Some(page.as_bytes()))).unwrap();
    assert_eq!(content_length(&resp), 13);
    let big = vec![b'x'; 1234];
    let framed = frame_response("HTTP/1.1 200 OK", &big);
    let text = String::from_utf8(framed).unwrap();
    assert_eq!(content_length(&text), 1234);
    assert_eq!(frame_response("S", b""), b"S\r\nContent-Length: 0\r\n\r\n".to_vec());
}

#[test]
fn prefix_match_is_exact() {
    assert!(starts_with("GET / HTTP/1.1 extra", "GET / HTTP/1.1"));
    assert!(!starts_with("GET /index HTTP/1.1", "GET / HTTP/1.1"));
    assert!(!starts_with("GET /", "GET / HTTP/1.1"));
    assert!(starts_with("", ""));
    let req = Request::from_lines(&lines(&["get / http/1.1"]));
    assert_eq!(route(&req), Route::NotFound);
}

#[test]
fn push_line_stops_at_blank() {
    let mut req = Request::new();
    assert!(!req.push_line(String::from("GET / HTTP/1.1")));
    assert!(!req.push_line(String::from("Accept: */*")));
    assert!(req.push_line(String::new()));
    assert!(req.push_line(String::from("after")));
    assert_eq!(req.lines(), &lines(&["GET / HTTP/1.1", "Accept: */*"]));
    let mut cut = Request::new();
    cut.push_line(String::from("GET /x HTTP/1.1"));
    cut.finish();
    assert_eq!(route(&cut), Route::NotFound);
}

#[test]
fn accept_loop_actions() {
    assert_eq!(next_action(AcceptOutcome::Accepted), LoopAction::Handle);
    assert_eq!(next_action(AcceptOutcome::TransientError), LoopAction::LogAndContinue);
    assert_eq!(next_action(AcceptOutcome::ListenerClosed), LoopAction::Stop);
}

#[test]
fn connection_reaches_closed() {
    let mut s = ConnectionStage::Accepted;
    s = advance(s, ConnectionEvent::Done);
    assert_eq!(s, ConnectionStage::Reading);
    s = advance(s, ConnectionEvent::Routed(Route::NotFound));
    assert_eq!(s, ConnectionStage::Unmatched);
    s = advance(s, ConnectionEvent::Done);
    assert_eq!(s, ConnectionStage::Responding);
    s = advance(s, ConnectionEvent::Done);
    assert_eq!(s, ConnectionStage::Closed);
    assert_eq!(advance(ConnectionStage::Reading, ConnectionEvent::Failed), ConnectionStage::Closed);
    assert_eq!(advance(ConnectionStage::Closed, ConnectionEvent::Done), ConnectionStage::Closed);
}
