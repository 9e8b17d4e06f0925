use eclipse_api::body::{BodyAction, BodyEvent, BodyRelay};
use eclipse_api::relay::{relay_head, relay_header, relay_headers, relay_status, Header};

fn header(name: &str, value: &[u8]) -> Header {
    Header { name: name.as_bytes().to_vec(), value: value.to_vec() }
}

#[test]
fn representable_status_is_kept() {
    assert_eq!(relay_status(200), 200);
    assert_eq!(relay_status(404), 404);
    assert_eq!(relay_status(100), 100);
    assert_eq!(relay_status(599), 599);
}

#[test]
fn unrepresentable_status_becomes_bad_request() {
    assert_eq!(relay_status(0), 400);
    assert_eq!(relay_status(99), 400);
    assert_eq!(relay_status(600), 400);
    assert_eq!(relay_status(999), 400);
    assert_eq!(relay_status(1000), 400);
    assert_eq!(relay_status(u16::MAX), 400);
}

#[test]
fn valid_head_round_trips() {
    let hs = vec![
        header("content-type", b"image/png"),
        header("content-length", b"1024"),
        header("x-custom", b"a\tb \x80"),
        header("content-type", b"text/plain"),
    ];
    let head = relay_head(206, &hs);
    assert_eq!(head.status, 206);
    assert_eq!(head.headers, hs);
}

#[test]
fn header_with_control_character_is_dropped() {
    let hs = vec![
        header("content-type", b"image/png"),
        header("x-bad", b"evil\r\ninjected: yes"),
        header("etag", b"\"abc\""),
    ];
    let out = relay_headers(&hs);
    assert_eq!(out, vec![hs[0].clone(), hs[2].clone()]);
    assert_eq!(relay_header(&header("x-del", b"a\x7fb")), None);
}

#[test]
fn invalid_header_names_are_dropped() {
    assert_eq!(relay_header(&header("", b"v")), None);
    assert_eq!(relay_header(&header("bad name", b"v")), None);
    assert_eq!(relay_header(&header("bad:name", b"v")), None);
}

#[test]
fn header_names_are_lower_cased() {
    let out = relay_header(&header("Content-Type", b"text/html")).unwrap();
    assert_eq!(out, header("content-type", b"text/html"));
    let custom = relay_header(&header("X-Trace-ID", b"7")).unwrap();
    assert_eq!(custom.name, b"x-trace-id".to_vec());
}

fn run(relay: &mut BodyRelay, events: Vec<BodyEvent>) -> Vec<BodyAction> {
    events.into_iter().map(|e| relay.step(e)).collect()
}

#[test]
fn body_is_forwarded_chunk_by_chunk() {
    let chunks: Vec<Vec<u8>> = vec![b"hel".to_vec(), b"".to_vec(), b"lo, wor".to_vec(), b"ld".to_vec()];
    let mut relay = BodyRelay::new();
    let mut events: Vec<BodyEvent> = chunks.iter().cloned().map(BodyEvent::Chunk).collect();
    events.push(BodyEvent::End);
    let actions = run(&mut relay, events);
    let mut bytes = Vec::new();
    for a in &actions[..chunks.len()] {
        match a {
            BodyAction::Forward(c) => bytes.extend_from_slice(c),
            other => panic!("unexpected {:?}", other),
        }
    }
    assert_eq!(bytes, b"hello, world".to_vec());
    assert_eq!(actions[chunks.len()], BodyAction::Finish);
    assert!(!relay.wants_more());
}

#[test]
fn cancelled_relay_pulls_nothing_more() {
    let mut relay = BodyRelay::new();
    assert!(relay.wants_more());
    assert_eq!(relay.step(BodyEvent::Chunk(b"a".to_vec())), BodyAction::Forward(b"a".to_vec()));
    assert_eq!(relay.step(BodyEvent::DownstreamClosed), BodyAction::Stop);
    assert!(!relay.wants_more());
    assert_eq!(relay.step(BodyEvent::Chunk(b"b".to_vec())), BodyAction::Stop);
    assert_eq!(relay.step(BodyEvent::End), BodyAction::Stop);
    assert!(!relay.wants_more());
}

#[test]
fn upstream_failure_aborts_the_body() {
    let mut relay = BodyRelay::new();
    assert_eq!(relay.step(BodyEvent::UpstreamFailed), BodyAction::Abort);
    assert!(!relay.wants_more());
}
