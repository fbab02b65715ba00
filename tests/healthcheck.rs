use healthcheck::client::HttpClient;
use healthcheck::monitor::{Action, Event, Monitor, Phase};
use healthcheck::outcome::{classify_response, classify_status, CheckOutcome};
use healthcheck::report::{decimal_string, fatal_message, report_line};
use healthcheck::target::{accepts_url, Target};

fn check_url(m: &Monitor, phase: Phase, event: Event) -> (Phase, String) {
    match m.step(phase, event) {
        (p, Action::Check(t)) => (p, t.as_str().to_string()),
        (_, other) => panic!("expected a check, got {}", describe(&other)),
    }
}

fn describe(a: &Action) -> String {
    match a {
        Action::Check(t) => format!("check {}", t.as_str()),
        Action::Print(s) => format!("print {}", s),
        Action::Sleep(n) => format!("sleep {}", n),
        Action::Exit(s) => format!("exit {}", s),
    }
}

// These stay off the network: they check the target and the classification
// of the status that each endpoint answers with.
#[test]
fn example() {
    assert!(HttpClient::new().is_ok());
    let target = Target::parse("http://example.com").unwrap();
    assert_eq!(target.as_str(), "http://example.com");
    assert_eq!(classify_status(200), CheckOutcome::Success);
}

#[test]
fn http_stat() {
    let target = Target::parse("http://httpstat.us/500").unwrap();
    assert_eq!(target.as_str(), "http://httpstat.us/500");
    assert_eq!(classify_status(500), CheckOutcome::Failure(500));
}

#[test]
fn status_200_is_success_every_time() {
    for _ in 0..3 {
        assert_eq!(classify_response(Some(200)), CheckOutcome::Success);
    }
}

#[test]
fn other_statuses_are_failures() {
    assert_eq!(classify_status(500), CheckOutcome::Failure(500));
    assert_eq!(classify_status(503), CheckOutcome::Failure(503));
    assert_eq!(classify_status(201), CheckOutcome::Failure(201));
    assert_eq!(classify_status(301), CheckOutcome::Failure(301));
    assert_eq!(classify_status(404), CheckOutcome::Failure(404));
    assert_eq!(classify_response(Some(999)), CheckOutcome::Failure(999));
}

#[test]
fn missing_response_is_transport_error() {
    assert_eq!(classify_response(None), CheckOutcome::TransportError);
}

#[test]
fn labels() {
    assert_eq!(CheckOutcome::Success.label(), "OK(200)");
    assert_eq!(CheckOutcome::Failure(503).label(), "ERR(503)");
    assert_eq!(CheckOutcome::Failure(100).label(), "ERR(100)");
    assert_eq!(CheckOutcome::TransportError.label(), "ERR(transport)");
    assert_eq!(CheckOutcome::UrlParseError.label(), "URL parsing error");
}

#[test]
fn decimal_numerals() {
    assert_eq!(decimal_string(0), "0");
    assert_eq!(decimal_string(7), "7");
    assert_eq!(decimal_string(10), "10");
    assert_eq!(decimal_string(500), "500");
    assert_eq!(decimal_string(65535), "65535");
}

#[test]
fn report_lines() {
    assert_eq!(
        report_line("http://httpstat.us/500", CheckOutcome::Failure(500)),
        "Checking 'http://httpstat.us/500'. Result: ERR(500)"
    );
    assert_eq!(fatal_message(), "URL parsing error");
}

#[test]
fn url_acceptance() {
    assert!(accepts_url("http://example.com/"));
    assert!(accepts_url("https://example.com/health"));
    assert!(accepts_url("HTTP://EXAMPLE.COM/"));
    assert!(!accepts_url("this_is_not_an_url"));
    assert!(!accepts_url(""));
    assert!(!accepts_url("ftp://example.com/"));
    assert!(!accepts_url("mailto:someone@example.com"));
    assert!(!accepts_url("/relative/path"));
    assert!(Target::parse("this_is_not_an_url").is_none());
}

#[test]
fn refused_target_stops_before_any_request() {
    let m = Monitor::new(1, "this_is_not_an_url");
    match m.step(Phase::Start, Event::Started) {
        (Phase::Stopped, Action::Exit(msg)) => assert_eq!(msg, "URL parsing error"),
        (_, other) => panic!("expected exit, got {}", describe(&other)),
    }
    assert!(!m.expects(Phase::Stopped, Event::Started));
    assert!(!m.expects(Phase::Stopped, Event::Slept));
}

#[test]
fn transport_error_keeps_polling() {
    let m = Monitor::new(3, "http://unreachable.invalid/");
    let (p, _) = check_url(&m, Phase::Start, Event::Started);
    assert_eq!(p, Phase::Checking);
    match m.step(p, Event::Checked(CheckOutcome::TransportError)) {
        (Phase::Reporting, Action::Print(line)) => assert_eq!(
            line,
            "Checking 'http://unreachable.invalid/'. Result: ERR(transport)"
        ),
        (_, other) => panic!("expected a report, got {}", describe(&other)),
    }
    match m.step(Phase::Reporting, Event::Printed) {
        (Phase::Sleeping, Action::Sleep(secs)) => assert_eq!(secs, 3),
        (_, other) => panic!("expected a sleep, got {}", describe(&other)),
    }
    let (p, url) = check_url(&m, Phase::Sleeping, Event::Slept);
    assert_eq!(p, Phase::Checking);
    assert_eq!(url, "http://unreachable.invalid/");
}

#[test]
fn sleep_follows_every_report() {
    let m = Monitor::new(5, "http://example.com/");
    assert_eq!(m.interval(), 5);
    assert_eq!(m.url(), "http://example.com/");
    assert!(m.expects(Phase::Reporting, Event::Printed));
    assert!(!m.expects(Phase::Reporting, Event::Slept));
    assert!(!m.expects(Phase::Checking, Event::Printed));
    match m.step(Phase::Reporting, Event::Printed) {
        (Phase::Sleeping, Action::Sleep(secs)) => assert_eq!(secs, 5),
        (_, other) => panic!("expected a sleep, got {}", describe(&other)),
    }
}

#[test]
fn example_endpoint_reports_ok_every_two_seconds() {
    let m = Monitor::new(2, "http://example.com/");
    let mut phase = Phase::Start;
    let mut event = Event::Started;
    let mut lines: Vec<String> = Vec::new();
    for _ in 0..9 {
        let (next, action) = m.step(phase, event);
        phase = next;
        event = match action {
            Action::Check(t) => {
                assert_eq!(t.as_str(), "http://example.com/");
                Event::Checked(CheckOutcome::Success)
            }
            Action::Print(line) => {
                lines.push(line);
                Event::Printed
            }
            Action::Sleep(secs) => {
                assert_eq!(secs, 2);
                Event::Slept
            }
            Action::Exit(msg) => panic!("unexpected exit: {}", msg),
        };
    }
    assert_eq!(lines.len(), 3);
    for line in &lines {
        assert_eq!(line, "Checking 'http://example.com/'. Result: OK(200)");
    }
}

#[test]
fn refused_connection_is_transport_error() {
    let client = HttpClient::new().unwrap();
    let target = Target::parse("http://127.0.0.1:1/").unwrap();
    assert_eq!(client.health_check(&target), CheckOutcome::TransportError);
}
