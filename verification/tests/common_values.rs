use tary::config::{
    Config, ConsoleDestConfig, DestinationsConfig, GeneralConfig, HttpServerConfig, MiddlewaresConfig,
    PosConnectionTypes, PosDestConfig, RegexMiddleware, SourcesConfig,
};
use tary::content::{Content, ContentType};
use tary::text::push_decimal;
use tary::time::{clock_now, display_time, format_time, parse_rfc3339_local, LocalTime};

fn bare_config() -> Config {
    Config {
        general: GeneralConfig { name: "Jane Doe".to_string() },
        sources: SourcesConfig::default(),
        middlewares: MiddlewaresConfig::default(),
        destinations: DestinationsConfig::default(),
    }
}

#[test]
fn defaults_leave_everything_out() {
    let c = bare_config();
    assert!(c.sources.http_server.is_none());
    assert!(c.middlewares.regex.is_none());
    assert!(c.destinations.console.is_none());
    assert!(c.destinations.pos_printer.is_none());
    let h = HttpServerConfig::default();
    assert!(!h.enabled);
    assert_eq!(h.host, "");
    assert_eq!(h.port, 0);
    assert!(h.html_path.is_none());
    let _ = ConsoleDestConfig { enabled: true, output: None };
    let _ = PosDestConfig { enabled: false, connection: PosConnectionTypes::Usb, usb_vid: None, usb_pid: None };
    let _ = RegexMiddleware { enabled: false, order: 0, regexes: vec![] };
}

#[test]
fn content_type_is_shown_as_todo() {
    assert_eq!(ContentType::Todo.to_string(), "TODO");
}

#[test]
fn new_content_keeps_given_date() {
    let d = LocalTime { secs: 1_715_671_800, nanos: 5, offset: 7200 };
    let c = Content::new(ContentType::Todo, "http".to_string(), Some(d));
    assert_eq!(c.date, d);
    assert_eq!(c.source, "http");
    assert_eq!(c.content, "");
    assert!(c.dest.is_none());
    assert!(c.due.is_none());
    assert_eq!(c.content_type, ContentType::Todo);
}

#[test]
fn new_content_without_date_is_dated_now() {
    let c = Content::new(ContentType::Todo, "x".to_string(), None);
    // 2023-11-14: any clock this runs on is later.
    assert!(c.date.secs > 1_700_000_000);
    assert!(c.date.offset > -86_400 && c.date.offset < 86_400);
    assert!(c.date.nanos < 2_000_000_000);
}

#[test]
fn clock_reads_a_plausible_time() {
    let t = clock_now();
    assert!(t.secs > 1_700_000_000);
    assert!(t.offset > -86_400 && t.offset < 86_400);
}

#[test]
fn format_time_renders_the_receipt_pattern() {
    let epoch = LocalTime { secs: 0, nanos: 0, offset: 0 };
    assert_eq!(format_time(&epoch, "%a %Y-%m-%d %H:%M").unwrap(), "Thu 1970-01-01 00:00");
    let t = LocalTime { secs: 1_715_671_800, nanos: 0, offset: 7200 };
    assert_eq!(format_time(&t, "%a %Y-%m-%d %H:%M").unwrap(), "Tue 2024-05-14 09:30");
}

#[test]
fn format_time_refuses_bad_offset() {
    let t = LocalTime { secs: 0, nanos: 0, offset: 90_000 };
    assert!(format_time(&t, "%Y").is_none());
    assert!(display_time(&t).is_none());
}

#[test]
fn display_time_matches_chrono_display() {
    let t = LocalTime { secs: 1_715_671_800, nanos: 0, offset: 7200 };
    assert_eq!(display_time(&t).unwrap(), "2024-05-14 09:30:00 +02:00");
    let u = LocalTime { secs: 0, nanos: 500_000_000, offset: -3600 };
    assert_eq!(display_time(&u).unwrap(), "1969-12-31 23:00:00.500 -01:00");
}

#[test]
fn rfc3339_parse_keeps_the_instant() {
    let t = parse_rfc3339_local("2024-05-14T09:30:00+02:00").unwrap();
    assert_eq!(t.secs, 1_715_671_800);
    assert_eq!(t.nanos, 0);
    assert!(t.offset > -86_400 && t.offset < 86_400);
    assert!(parse_rfc3339_local("tomorrow").is_none());
    assert!(parse_rfc3339_local("").is_none());
}

#[test]
fn decimal_notation() {
    let cases: [(u64, &str); 7] = [
        (0, "0"),
        (7, "7"),
        (10, "10"),
        (3000, "3000"),
        (65535, "65535"),
        (1_000_000, "1000000"),
        (u64::MAX, "18446744073709551615"),
    ];
    for (n, text) in cases {
        let mut s = "n=".to_string();
        push_decimal(&mut s, n);
        assert_eq!(s, format!("n={}", text));
    }
}
