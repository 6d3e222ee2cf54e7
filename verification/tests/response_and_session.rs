use tcp_gateway::error::GatewayError;
use tcp_gateway::response::{metrics_response, rewrite_response, status_code};
use tcp_gateway::routing::{GatewayConfig, Server, ServerStatus};
use tcp_gateway::session::{Command, Event, MetricUpdate, Output, Session};

#[test]
fn status_code_is_second_word_of_first_line() {
    assert_eq!(status_code("HTTP/1.1 200 OK\r\nContent-Type: text/plain\r\n\r\nhi"), "200");
    assert_eq!(status_code("HTTP/1.1 404 Not Found"), "404");
    assert_eq!(status_code("garbage"), "");
    assert_eq!(status_code(""), "");
    assert_eq!(status_code("\nHTTP/1.1 200 OK"), "");
}

#[test]
fn rewrite_inserts_latency_after_headers() {
    let r = "HTTP/1.1 200 OK\r\nContent-Type: text/plain\r\nX-A: 1\r\n\r\nline1\r\nline2";
    let out = rewrite_response(r, "12.5").ok().unwrap();
    assert_eq!(
        out,
        "HTTP/1.1 200 OK\r\nContent-Type: text/plain\nX-A: 1\nX-Balancer-Latency: 12.5ms\r\n\r\nline1\nline2\n"
    );
}

#[test]
fn rewrite_without_blank_line_has_no_latency_header() {
    let out = rewrite_response("HTTP/1.1 204 No Content\r\nServer: x", "3").ok().unwrap();
    assert_eq!(out, "HTTP/1.1 204 No Content\r\nServer: x\n\r\n");
}

#[test]
fn rewrite_of_status_line_only() {
    let out = rewrite_response("HTTP/1.1 200 OK", "1").ok().unwrap();
    assert_eq!(out, "HTTP/1.1 200 OK\r\n\r\n");
}

#[test]
fn rewrite_rejects_empty_response() {
    assert_eq!(rewrite_response("", "1").err(), Some(GatewayError::InvalidResponse));
}

#[test]
fn metrics_reply_counts_body_bytes() {
    let r = metrics_response("text/plain; version=0.0.4", "a 1\né 2\n");
    assert_eq!(
        r,
        "HTTP/1.1 200 OK\r\nContent-Type: text/plain; version=0.0.4\r\nContent-Length: 9\r\n\r\na 1\né 2\n"
    );
}

fn config(pct: u8) -> GatewayConfig {
    GatewayConfig {
        primary_addr: "10.0.0.1:80".to_string(),
        canary_addr: "10.0.0.2:80".to_string(),
        canary_percentage: pct,
    }
}

fn loaded(pct: u8, p: bool, c: bool) -> Event {
    Event::StateLoaded {
        config: config(pct),
        status: ServerStatus { primary_online: p, canary_online: c },
    }
}

fn request(text: &str) -> Event {
    Event::RequestRead { bytes: text.as_bytes().to_vec() }
}

fn describe(m: &MetricUpdate) -> String {
    match m {
        MetricUpdate::CountRequest => "request".to_string(),
        MetricUpdate::SetStatusGauge { server, value } => format!("gauge {} {}", server.label(), value),
        MetricUpdate::CountResponse { code } => format!("response {}", code),
        MetricUpdate::CountServerResponse { server, code } => {
            format!("server {} {}", server.label(), code)
        },
        MetricUpdate::ObserveLatency => "latency".to_string(),
    }
}

fn metrics(o: &Output) -> Vec<String> {
    o.metrics.iter().map(describe).collect()
}

fn connect_addr(o: &Output) -> String {
    match &o.command {
        Command::Connect { addr } => addr.clone(),
        _ => panic!("expected a connect command"),
    }
}

fn finish(o: &Output) -> Result<(), GatewayError> {
    match &o.command {
        Command::Finish { result } => *result,
        _ => panic!("expected a finish command"),
    }
}

fn reply(o: &Output) -> (String, bool) {
    match &o.command {
        Command::Reply { text, timed } => (text.clone(), *timed),
        _ => panic!("expected a reply command"),
    }
}

#[test]
fn empty_request_finishes_quietly() {
    let (mut s, first) = Session::start();
    assert!(matches!(first, Command::ReadRequest));
    let o = s.step(Event::RequestRead { bytes: vec![] }).unwrap();
    assert_eq!(finish(&o), Ok(()));
    assert!(o.metrics.is_empty());
    assert!(s.step(Event::Replied).is_none());
}

#[test]
fn request_is_forwarded_and_response_rewritten() {
    let (mut s, _) = Session::start();
    let o = s.step(request("GET / HTTP/1.1\r\n\r\n")).unwrap();
    assert!(matches!(o.command, Command::LoadState));
    assert_eq!(metrics(&o), vec!["request"]);
    let o = s.step_with_roll(loaded(0, true, true), 50).unwrap();
    assert_eq!(metrics(&o), vec!["gauge primary 1", "gauge canary 1"]);
    assert_eq!(connect_addr(&o), "10.0.0.1:80");
    let o = s.step(Event::Connected).unwrap();
    match &o.command {
        Command::SendRequest { text } => assert_eq!(text, "GET / HTTP/1.1\r\n\r\n"),
        _ => panic!("expected send"),
    }
    let o = s.step(Event::Sent).unwrap();
    assert!(matches!(o.command, Command::ReadResponse));
    let o = s
        .step(Event::ResponseRead {
            bytes: b"HTTP/1.1 201 Created\r\nA: b\r\n\r\nbody".to_vec(),
            latency_ms: "4.2".to_string(),
        })
        .unwrap();
    let (text, timed) = reply(&o);
    assert!(timed);
    assert_eq!(metrics(&o), vec!["latency"]);
    assert_eq!(text, "HTTP/1.1 201 Created\r\nA: b\nX-Balancer-Latency: 4.2ms\r\n\r\nbody\n");
    let o = s.step(Event::Replied).unwrap();
    assert_eq!(metrics(&o), vec!["response 201", "server primary 201"]);
    assert_eq!(finish(&o), Ok(()));
}

#[test]
fn canary_chosen_below_percentage() {
    let (mut s, _) = Session::start();
    s.step(request("x")).unwrap();
    let o = s.step_with_roll(loaded(40, true, true), 39).unwrap();
    assert_eq!(connect_addr(&o), "10.0.0.2:80");
    assert_eq!(s.target, Server::Canary);
}

#[test]
fn random_draw_respects_full_percentages() {
    for _ in 0..200 {
        let (mut s, _) = Session::start();
        s.step(request("x")).unwrap();
        let o = s.step(loaded(100, true, true)).unwrap();
        assert_eq!(connect_addr(&o), "10.0.0.2:80");
        let (mut s, _) = Session::start();
        s.step(request("x")).unwrap();
        let o = s.step(loaded(0, true, true)).unwrap();
        assert_eq!(connect_addr(&o), "10.0.0.1:80");
    }
}

#[test]
fn no_server_gets_503() {
    let (mut s, _) = Session::start();
    s.step(request("x")).unwrap();
    let o = s.step(loaded(50, false, false)).unwrap();
    assert_eq!(metrics(&o), vec!["gauge primary 0", "gauge canary 0"]);
    let (text, timed) = reply(&o);
    assert!(!timed);
    assert_eq!(text, "HTTP/1.1 503 Service Unavailable\r\n\r\nNo available servers");
    let o = s.step(Event::Replied).unwrap();
    assert_eq!(metrics(&o), vec!["response 503"]);
    assert_eq!(finish(&o), Ok(()));
}

#[test]
fn refused_connection_falls_back_once() {
    let (mut s, _) = Session::start();
    s.step(request("x")).unwrap();
    let o = s.step(loaded(50, true, false)).unwrap();
    assert_eq!(connect_addr(&o), "10.0.0.1:80");
    let o = s.step(Event::Failed { error: GatewayError::Io { refused: true } }).unwrap();
    assert!(o.metrics.is_empty());
    assert_eq!(connect_addr(&o), "10.0.0.2:80");
    assert!(s.fallback_used);
    let o = s.step(Event::Failed { error: GatewayError::Io { refused: true } }).unwrap();
    let (text, _) = reply(&o);
    assert_eq!(text, "HTTP/1.1 502 Bad Gateway\r\n\r\nFailed to connect to target server");
    let o = s.step(Event::Replied).unwrap();
    assert_eq!(metrics(&o), vec!["response 502", "server canary 502"]);
    assert_eq!(finish(&o), Err(GatewayError::Io { refused: true }));
}

#[test]
fn fallback_answer_is_the_only_reply() {
    let (mut s, _) = Session::start();
    s.step(request("x")).unwrap();
    s.step(loaded(0, true, true)).unwrap();
    let o = s.step(Event::Failed { error: GatewayError::Io { refused: true } }).unwrap();
    assert!(o.metrics.is_empty());
    assert_eq!(connect_addr(&o), "10.0.0.2:80");
    s.step(Event::Connected).unwrap();
    s.step(Event::Sent).unwrap();
    let o = s
        .step(Event::ResponseRead { bytes: b"HTTP/1.1 200 OK".to_vec(), latency_ms: "1".to_string() })
        .unwrap();
    let (text, _) = reply(&o);
    assert_eq!(text, "HTTP/1.1 200 OK\r\n\r\n");
    let o = s.step(Event::Replied).unwrap();
    assert_eq!(metrics(&o), vec!["response 200", "server canary 200"]);
    assert_eq!(finish(&o), Ok(()));
}

#[test]
fn other_connect_error_replies_502_without_retry() {
    let (mut s, _) = Session::start();
    s.step(request("x")).unwrap();
    s.step(loaded(0, true, true)).unwrap();
    let o = s.step(Event::Failed { error: GatewayError::Io { refused: false } }).unwrap();
    let (text, _) = reply(&o);
    assert_eq!(text, "HTTP/1.1 502 Bad Gateway\r\n\r\nFailed to connect to target server");
    let o = s.step(Event::Replied).unwrap();
    assert_eq!(metrics(&o), vec!["response 502", "server primary 502"]);
    assert_eq!(finish(&o), Err(GatewayError::Io { refused: false }));
}

#[test]
fn timeout_on_connect_gets_504_and_no_retry() {
    let (mut s, _) = Session::start();
    s.step(request("x")).unwrap();
    s.step(loaded(50, true, true)).unwrap();
    let o = s.step(Event::Failed { error: GatewayError::ConnectTimeout }).unwrap();
    let (text, _) = reply(&o);
    assert_eq!(text, "HTTP/1.1 504 Gateway Timeout\r\n\r\nTimeout while connecting to target server");
    let o = s.step(Event::Replied).unwrap();
    assert_eq!(finish(&o), Err(GatewayError::ConnectTimeout));
}

#[test]
fn unresolved_address_retries_without_reply() {
    let (mut s, _) = Session::start();
    s.step(request("x")).unwrap();
    s.step(loaded(50, false, true)).unwrap();
    let o = s.step(Event::Unresolved { refused: true }).unwrap();
    assert_eq!(connect_addr(&o), "10.0.0.1:80");
    assert!(o.metrics.is_empty());
    let o = s.step(Event::Unresolved { refused: false }).unwrap();
    assert_eq!(finish(&o), Err(GatewayError::Io { refused: false }));
}

#[test]
fn refused_send_retries_on_other_backend() {
    let (mut s, _) = Session::start();
    s.step(request("x")).unwrap();
    s.step(loaded(50, true, true)).unwrap();
    s.step(Event::Connected).unwrap();
    let o = s.step(Event::Failed { error: GatewayError::Io { refused: true } }).unwrap();
    assert!(matches!(o.command, Command::Connect { .. }));
    let o = s.step(Event::Connected).unwrap();
    assert!(matches!(o.command, Command::SendRequest { .. }));
    let o = s.step(Event::Failed { error: GatewayError::Elapsed }).unwrap();
    assert_eq!(finish(&o), Err(GatewayError::Elapsed));
}

#[test]
fn closed_backend_ends_without_reply() {
    let (mut s, _) = Session::start();
    s.step(request("x")).unwrap();
    s.step(loaded(50, true, true)).unwrap();
    s.step(Event::Connected).unwrap();
    s.step(Event::Sent).unwrap();
    let o = s
        .step(Event::ResponseRead { bytes: vec![], latency_ms: "1".to_string() })
        .unwrap();
    assert_eq!(finish(&o), Ok(()));
    assert!(o.metrics.is_empty());
}

#[test]
fn invalid_utf8_request_is_decoded_lossily() {
    let (mut s, _) = Session::start();
    s.step(Event::RequestRead { bytes: vec![b'G', 0xff, b'T'] }).unwrap();
    s.step(loaded(0, true, false)).unwrap();
    let o = s.step(Event::Connected).unwrap();
    match &o.command {
        Command::SendRequest { text } => assert_eq!(text, "G\u{FFFD}T"),
        _ => panic!("expected send"),
    }
}

#[test]
fn unexpected_event_is_refused() {
    let (mut s, _) = Session::start();
    assert!(s.step(Event::Connected).is_none());
    assert!(s.step(Event::Replied).is_none());
    let o = s.step(Event::Failed { error: GatewayError::Io { refused: false } }).unwrap();
    assert_eq!(finish(&o), Err(GatewayError::Io { refused: false }));
}

#[test]
fn invalid_utf8_response_is_still_forwarded() {
    let (mut s, _) = Session::start();
    s.step(request("x")).unwrap();
    s.step(loaded(0, true, false)).unwrap();
    s.step(Event::Connected).unwrap();
    s.step(Event::Sent).unwrap();
    let o = s
        .step(Event::ResponseRead { bytes: vec![0xff], latency_ms: "2".to_string() })
        .unwrap();
    let (text, timed) = reply(&o);
    assert!(timed);
    assert_eq!(text, "\u{FFFD}\r\n\r\n");
    assert_eq!(metrics(&o), vec!["latency"]);
    let o = s.step(Event::Replied).unwrap();
    assert_eq!(metrics(&o), vec!["response ", "server primary "]);
}
