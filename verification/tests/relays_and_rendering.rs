use geoping::geo::{location_query, location_query_for_host};
use geoping::model::{PingArgs, PingStatus, RemoteServer, SocketAddress, IpAddress};
use geoping::relay::{
    cell_label, first_remotes, process_sse_event, table_cell, Cell, ConfigError, EventOutcome,
    RelayBoard, RelayEvent,
};
use geoping::render::{
    destination, latency_color, loss_color, relay_title, response_line, stats_heading,
    summary_line, table_header, Color,
};
use geoping::server::{bearer_header, check_request, relay_address, relay_plan, Rejection};
use geoping::session::{ProbeKind, ProbePlan};
use geoping::stats::LossLevel;

const QUERY_FIELDS: &str = "?fields=status,message,countryCode,city,lat,lon";

#[test]
fn message_with_status_is_kept() {
    let out = process_sse_event(RelayEvent::Message(Some(PingStatus::Success { elapsed_ns: 12 })), false);
    assert_eq!(out.cell, Some(Cell::Rtt(12)));
    assert_eq!(out.record, Some(Some(12)));
    assert!(!out.closed);
    assert_eq!(out.single_response, None);
    let out = process_sse_event(RelayEvent::Message(Some(PingStatus::Timeout)), true);
    assert_eq!(out.cell, None);
    assert_eq!(out.record, Some(None));
    assert_eq!(out.single_response, Some(PingStatus::Timeout));
    let out = process_sse_event(RelayEvent::Message(Some(PingStatus::Error("x".into()))), false);
    assert_eq!(out.cell, Some(Cell::Error));
    assert_eq!(out.record, Some(None));
}

#[test]
fn unreadable_message_is_shown_not_kept() {
    let out = process_sse_event(RelayEvent::Message(None), false);
    assert_eq!(out.cell, Some(Cell::ParseErr));
    assert_eq!(out.record, None);
    assert!(!out.closed);
    let out = process_sse_event(RelayEvent::Message(None), true);
    assert_eq!(out.cell, None);
}

#[test]
fn stream_events_close_or_not() {
    let open = process_sse_event(RelayEvent::Open, false);
    assert_eq!((open.cell, open.record, open.closed), (Some(Cell::Connected), None, false));
    let ended = process_sse_event(RelayEvent::Ended, false);
    assert_eq!((ended.cell, ended.record, ended.closed), (Some(Cell::Ended), None, true));
    let closed = process_sse_event(RelayEvent::Closed, false);
    assert_eq!((closed.cell, closed.record, closed.closed), (Some(Cell::Closed), None, true));
    let failed = process_sse_event(RelayEvent::Failed, false);
    assert_eq!((failed.cell, failed.record, failed.closed), (Some(Cell::ConnErr), Some(None), true));
    assert!(!failed.single_failure);
    let failed = process_sse_event(RelayEvent::Failed, true);
    assert!(failed.single_failure);
    assert_eq!(failed.cell, None);
}

#[test]
fn cell_labels_and_layout() {
    assert_eq!(cell_label(Cell::Rtt(1)), None);
    assert_eq!(cell_label(Cell::Timeout), Some("Timeout"));
    assert_eq!(cell_label(Cell::ConnErr), Some("ConnErr"));
    assert_eq!(table_cell("Timeout"), format!("{:<15} | ", "Timeout"));
    assert_eq!(table_cell("a-very-long-relay-name"), format!("{:<15} | ", "a-very-long-relay-name"));
}

fn outcome(record: Option<Option<u128>>, closed: bool) -> EventOutcome {
    EventOutcome { cell: None, record, closed, single_response: None, single_failure: false }
}

#[test]
fn board_keeps_results_per_relay() {
    let mut board = RelayBoard::new(2);
    let all = board.apply_round(&vec![outcome(Some(Some(4)), false), outcome(None, false)]);
    assert!(!all);
    let all = board.apply_round(&vec![outcome(Some(None), true), outcome(Some(Some(8)), false)]);
    assert!(!all);
    let all = board.apply_round(&vec![outcome(None, true), outcome(None, true)]);
    assert!(all);
    assert_eq!(board.results_of(0), &vec![Some(4), None]);
    assert_eq!(board.results_of(1), &vec![Some(8)]);
}

fn remote(name: &str) -> RemoteServer {
    RemoteServer { name: name.to_string(), url: format!("http://{}:3000/ping", name), token: None }
}

#[test]
fn configuration_needs_relays() {
    assert_eq!(first_remotes(vec![]), Err(ConfigError::NoRemotes));
    assert_eq!(first_remotes(vec![vec![]]), Err(ConfigError::NoRemotes));
    assert_eq!(first_remotes(vec![vec![remote("a")], vec![remote("b")]]), Ok(vec![remote("a")]));
}

#[test]
fn relay_checks_token_first() {
    assert_eq!(check_request(Some("s3cret"), "", "tcp"), Err(Rejection::Unauthorized));
    assert_eq!(check_request(Some("s3cret"), "Bearer wrong", "udp"), Err(Rejection::Unauthorized));
    assert_eq!(check_request(Some("s3cret"), "Bearer s3cret", "tcp"), Ok(ProbeKind::Tcp));
    assert_eq!(check_request(Some("s3cret"), &bearer_header("s3cret"), "icmp"), Ok(ProbeKind::Icmp));
    assert_eq!(check_request(Some("s3cret"), "Bearer s3cret", "udp"), Err(Rejection::BadRequest));
}

#[test]
fn open_relay_checks_protocol_only() {
    assert_eq!(check_request(None, "", "icmp"), Ok(ProbeKind::Icmp));
    assert_eq!(check_request(None, "Bearer anything", "tcp"), Ok(ProbeKind::Tcp));
    assert_eq!(check_request(None, "", "udp"), Err(Rejection::BadRequest));
}

#[test]
fn rejection_codes() {
    assert_eq!(Rejection::Unauthorized.status_code(), 401);
    assert_eq!(Rejection::BadRequest.status_code(), 400);
    assert_eq!(bearer_header("tok"), "Bearer tok");
}

#[test]
fn relay_plan_and_address() {
    let mut args = PingArgs {
        host: "h".into(),
        port: None,
        protocol: "icmp".into(),
        warmup: None,
        count: None,
        timeout: None,
        silent: false,
        ipv4: false,
        ipv6: false,
    };
    assert_eq!(relay_plan(ProbeKind::Icmp, &args), ProbePlan { kind: ProbeKind::Icmp, port: 0 });
    args.port = Some(53);
    assert_eq!(relay_plan(ProbeKind::Tcp, &args), ProbePlan { kind: ProbeKind::Tcp, port: 53 });
    let a = SocketAddress { ip: IpAddress::V4(1), port: 53 };
    assert_eq!(relay_address(Some(a)), Ok(a));
    assert_eq!(relay_address(None), Err(Rejection::BadRequest));
}

#[test]
fn geolocation_query_uses_url_host() {
    assert_eq!(
        location_query("http://198.51.100.1:3000/ping"),
        Some(format!("http://ip-api.com/json/198.51.100.1{}", QUERY_FIELDS))
    );
    assert_eq!(
        location_query("https://relay.example.org/ping?x=1"),
        Some(format!("http://ip-api.com/json/relay.example.org{}", QUERY_FIELDS))
    );
    assert_eq!(location_query("not a url"), None);
    assert_eq!(location_query("mailto:someone@example.org"), None);
    assert_eq!(location_query_for_host("h"), format!("http://ip-api.com/json/h{}", QUERY_FIELDS));
}

#[test]
fn colours() {
    assert_eq!(Color::Reset.code(), "\x1b[0m");
    assert_eq!(Color::BrightMagenta.code(), "\x1b[95m");
    assert_eq!(latency_color(0), Color::Green);
    assert_eq!(latency_color(49_999_999), Color::Green);
    assert_eq!(latency_color(50_000_000), Color::Yellow);
    assert_eq!(latency_color(99_999_999), Color::Yellow);
    assert_eq!(latency_color(100_000_000), Color::Red);
    assert_eq!(latency_color(149_999_999), Color::Red);
    assert_eq!(latency_color(150_000_000), Color::Magenta);
    assert_eq!(latency_color(3_000_000_000), Color::Magenta);
    assert_eq!(loss_color(LossLevel::Lossless), Color::Green);
    assert_eq!(loss_color(LossLevel::Low), Color::Yellow);
    assert_eq!(loss_color(LossLevel::High), Color::Red);
}

#[test]
fn latency_colour_matches_milliseconds() {
    for ns in [0u64, 49_999_999, 50_000_000, 50_000_001, 99_999_999, 100_000_000, 149_999_999, 150_000_000] {
        let ms = std::time::Duration::from_nanos(ns).as_secs_f64() * 1000.0;
        let expected = if ms < 50.0 {
            Color::Green
        } else if ms < 100.0 {
            Color::Yellow
        } else if ms < 150.0 {
            Color::Red
        } else {
            Color::Magenta
        };
        assert_eq!(latency_color(ns as u128), expected, "ns = {}", ns);
    }
}

#[test]
fn response_lines() {
    assert_eq!(destination("10.0.0.1", 0), "10.0.0.1");
    assert_eq!(destination("10.0.0.1", 443), "10.0.0.1:443");
    assert_eq!(
        response_line("10.0.0.1", 443, &PingStatus::Success { elapsed_ns: 12_300_000 }, "12.3ms"),
        "Reply from \x1b[36m10.0.0.1:443\x1b[0m time=\x1b[32m12.3ms\x1b[0m"
    );
    assert_eq!(
        response_line("10.0.0.1", 0, &PingStatus::Timeout, ""),
        "\x1b[1m\x1b[31mRequest timeout\x1b[0m\x1b[0m for \x1b[36m10.0.0.1\x1b[0m"
    );
    assert_eq!(
        response_line("10.0.0.1", 80, &PingStatus::Error("refused".into()), ""),
        "\x1b[31mError connecting\x1b[0m to \x1b[36m10.0.0.1:80\x1b[0m: refused"
    );
}

#[test]
fn statistics_lines() {
    assert_eq!(stats_heading("example.com"), "\n--- example.com ping statistics ---");
    assert_eq!(
        summary_line(4, 3, "25.0", 3012),
        "\x1b[94m4\x1b[0m packets transmitted, \x1b[92m3\x1b[0m received, \x1b[31m25.0% packet loss\x1b[0m, time \x1b[95m3012\x1b[0mms"
    );
    assert_eq!(
        summary_line(2, 2, "0.0", 5),
        "\x1b[94m2\x1b[0m packets transmitted, \x1b[92m2\x1b[0m received, \x1b[32m0.0% packet loss\x1b[0m, time \x1b[95m5\x1b[0mms"
    );
}

#[test]
fn relay_table_header() {
    let (row, rule) = table_header(&vec!["paris".to_string(), "tokyo".to_string()]);
    assert_eq!(row, format!("{:<15} | {:<15} | ", "paris", "tokyo"));
    assert_eq!(rule, "-".repeat(row.len()));
    let (row, rule) = table_header(&vec!["zürich".to_string()]);
    assert_eq!(rule.len(), row.len());
}

#[test]
fn relay_titles() {
    assert_eq!(relay_title("8.8.8.8", "paris", Some(("Paris", "FR")), true), "8.8.8.8");
    assert_eq!(relay_title("8.8.8.8", "paris", Some(("Paris", "FR")), false), "8.8.8.8 from paris (Paris, FR)");
    assert_eq!(relay_title("8.8.8.8", "paris", None, false), "8.8.8.8 from paris");
}
