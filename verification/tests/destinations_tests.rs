use tary::config::{
    Config, ConsoleDestConfig, DestinationsConfig, GeneralConfig, MiddlewaresConfig, PosConnectionTypes,
    PosDestConfig, SourcesConfig,
};
use tary::content::{Content, ContentType};
use tary::destinations::console::{Console, ConsoleAction, ConsoleEvent};
use tary::destinations::{Destinations, TaryDestination};
use tary::time::LocalTime;

fn config(console: Option<ConsoleDestConfig>, pos: Option<PosDestConfig>) -> Config {
    Config {
        general: GeneralConfig { name: "Jane Doe".to_string() },
        sources: SourcesConfig::default(),
        middlewares: MiddlewaresConfig::default(),
        destinations: DestinationsConfig { console, pos_printer: pos },
    }
}

fn printer(enabled: bool) -> PosDestConfig {
    PosDestConfig { enabled, connection: PosConnectionTypes::Usb, usb_vid: Some(0x0fe6), usb_pid: Some(0x811e) }
}

fn sample(due: Option<LocalTime>, dest: Option<&str>) -> Content {
    Content {
        content_type: ContentType::Todo,
        source: "http".to_string(),
        dest: dest.map(|d| d.to_string()),
        date: LocalTime { secs: 1_715_671_800, nanos: 0, offset: 7200 },
        due,
        content: "buy milk".to_string(),
    }
}

#[test]
fn destinations_count_what_is_enabled() {
    let both = Destinations::new(&config(Some(ConsoleDestConfig { enabled: true, output: None }), Some(printer(true))));
    assert_eq!(both.count(), 2);
    let one = Destinations::new(&config(Some(ConsoleDestConfig { enabled: true, output: None }), Some(printer(false))));
    assert_eq!(one.count(), 1);
    assert!(one.pos_printer.is_none());
    let none = Destinations::new(&config(Some(ConsoleDestConfig { enabled: false, output: None }), None));
    assert_eq!(none.count(), 0);
}

#[test]
fn console_takes_its_output_file() {
    let c = Console::init(&config(Some(ConsoleDestConfig { enabled: true, output: Some("/tmp/tary.log".to_string()) }), None))
        .unwrap();
    assert_eq!(c.dest.as_deref(), Some("/tmp/tary.log"));
    let s = Console::init(&config(Some(ConsoleDestConfig { enabled: true, output: None }), None)).unwrap();
    assert!(s.dest.is_none());
    assert!(Console::init(&config(None, None)).is_none());
}

#[test]
fn console_text_without_due_or_dest() {
    assert_eq!(
        Console::text(&sample(None, None)),
        "[TODO] Date: 2024-05-14 09:30:00 +02:00\nFrom: http\nDue: Unspecified\nDestination: Unspecified \n\tbuy milk"
    );
}

#[test]
fn console_text_with_due_and_dest() {
    let due = LocalTime { secs: 1_715_758_200, nanos: 0, offset: 7200 };
    assert_eq!(
        Console::text(&sample(Some(due), Some("Bob"))),
        "[TODO] Date: 2024-05-14 09:30:00 +02:00\nFrom: http\nDue: 2024-05-15 09:30:00 +02:00\nDestination: Bob \n\tbuy milk"
    );
}

#[test]
fn console_writes_items_and_stops_on_close() {
    let c = Console { dest: Some("/tmp/out.log".to_string()) };
    match c.on_event(ConsoleEvent::Received(sample(None, Some("Bob")))) {
        ConsoleAction::Write { text, path } => {
            assert!(text.starts_with("[TODO] Date: "));
            assert!(text.ends_with("Destination: Bob \n\tbuy milk"));
            assert_eq!(path.as_deref(), Some("/tmp/out.log"));
        }
        ConsoleAction::Stop => panic!("expected a write"),
    }
    assert!(matches!(c.on_event(ConsoleEvent::Closed), ConsoleAction::Stop));
}

#[test]
fn console_ignores_the_printer_section() {
    let broken_printer =
        PosDestConfig { enabled: true, connection: PosConnectionTypes::Usb, usb_vid: None, usb_pid: None };
    let c = Console::init(&config(Some(ConsoleDestConfig { enabled: true, output: None }), Some(broken_printer)));
    assert!(c.unwrap().dest.is_none());
}
