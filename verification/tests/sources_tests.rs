use tary::config::{Config, DestinationsConfig, GeneralConfig, HttpServerConfig, MiddlewaresConfig, SourcesConfig};
use tary::content::ContentType;
use tary::sources::http_server::{create_todo, HttpServerSource, TodoRequest};
use tary::sources::telegram::Telegram;
use tary::sources::{Sources, TarySource};

fn config_with_http(http: Option<HttpServerConfig>) -> Config {
    Config {
        general: GeneralConfig { name: "Jane Doe".to_string() },
        sources: SourcesConfig { http_server: http },
        middlewares: MiddlewaresConfig::default(),
        destinations: DestinationsConfig::default(),
    }
}

fn http(enabled: bool) -> HttpServerConfig {
    HttpServerConfig {
        enabled,
        host: "127.0.0.1".to_string(),
        port: 3000,
        html_path: Some("/srv/index.html".to_string()),
    }
}

#[test]
fn enabled_http_server_is_one_source() {
    let s = Sources::new(&config_with_http(Some(http(true))));
    assert_eq!(s.count(), 1);
    let h = s.http_server.unwrap();
    assert_eq!(h.host, "127.0.0.1");
    assert_eq!(h.port, 3000);
    assert_eq!(h.html_path.as_deref(), Some("/srv/index.html"));
}

#[test]
fn disabled_or_missing_http_server_is_no_source() {
    assert_eq!(Sources::new(&config_with_http(Some(http(false)))).count(), 0);
    assert_eq!(Sources::new(&config_with_http(None)).count(), 0);
    assert!(HttpServerSource::init(&config_with_http(None)).is_none());
}

#[test]
fn bind_address_joins_host_and_port() {
    let h = HttpServerSource::init(&config_with_http(Some(http(true)))).unwrap();
    assert_eq!(h.bind_address(), "127.0.0.1:3000");
    let z = HttpServerSource { host: "0.0.0.0".to_string(), port: 0, html_path: None };
    assert_eq!(z.bind_address(), "0.0.0.0:0");
    let m = HttpServerSource { host: "::1".to_string(), port: 65535, html_path: None };
    assert_eq!(m.bind_address(), "::1:65535");
}

#[test]
fn todo_request_becomes_http_todo() {
    let c = create_todo(TodoRequest {
        content: "buy milk".to_string(),
        due: Some("2024-05-14T09:30:00Z".to_string()),
        dest: Some("Bob".to_string()),
    });
    assert_eq!(c.content_type, ContentType::Todo);
    assert_eq!(c.source, "http");
    assert_eq!(c.content, "buy milk");
    assert_eq!(c.dest.as_deref(), Some("Bob"));
    let due = c.due.unwrap();
    assert_eq!(due.secs, 1_715_679_000);
    assert_eq!(due.nanos, 0);
    assert!(c.date.secs > 1_700_000_000);
}

#[test]
fn unparsable_due_date_is_dropped() {
    let c = create_todo(TodoRequest { content: "x".to_string(), due: Some("next week".to_string()), dest: None });
    assert!(c.due.is_none());
    assert!(c.dest.is_none());
    let d = create_todo(TodoRequest { content: "".to_string(), due: None, dest: None });
    assert!(d.due.is_none());
    assert_eq!(d.content, "");
}

#[test]
fn telegram_filters_senders() {
    let open = Telegram { allowed_user: None };
    assert!(open.accepts(1));
    assert!(open.accepts(42));
    let closed = Telegram { allowed_user: Some(42) };
    assert!(closed.accepts(42));
    assert!(!closed.accepts(43));
}

#[test]
fn telegram_sender_names() {
    assert_eq!(Telegram::sender_name(&Some("jane".to_string()), "Jane", &Some("Doe".to_string())), "@jane");
    assert_eq!(Telegram::sender_name(&None, "Jane", &Some("Doe".to_string())), "JaneDoe");
    assert_eq!(Telegram::sender_name(&None, "Jane", &None), "Jane ");
    assert_eq!(Telegram::sender_name(&None, "Jane", &Some(String::new())), "Jane ");
}

#[test]
fn telegram_todo_names_the_sender() {
    let c = Telegram::todo_content("@jane", "call mum".to_string());
    assert_eq!(c.source, "Telegram - @jane");
    assert_eq!(c.content, "call mum");
    assert_eq!(c.content_type, ContentType::Todo);
    assert!(c.due.is_none() && c.dest.is_none());
}
