use tary::config::{
    Config, DestinationsConfig, GeneralConfig, MiddlewaresConfig, PosConnectionTypes, PosDestConfig, SourcesConfig,
};
use tary::content::{Content, ContentType};
use tary::destinations::pos_printer::{
    JustifyMode, PosPrinter, PrintAction, PrintCommand, PrintEvent, PrinterPhase, UnderlineMode,
    MAX_PRINT_ATTEMPTS, USB_REOPEN_DELAY_MS,
};
use tary::time::LocalTime;

fn config(pos: Option<PosDestConfig>) -> Config {
    Config {
        general: GeneralConfig { name: "Jane Doe".to_string() },
        sources: SourcesConfig::default(),
        middlewares: MiddlewaresConfig::default(),
        destinations: DestinationsConfig { console: None, pos_printer: pos },
    }
}

fn started_printer(first_open_ok: bool) -> PosPrinter {
    let mut p = PosPrinter::init(&config(Some(PosDestConfig {
        enabled: true,
        connection: PosConnectionTypes::Usb,
        usb_vid: Some(0x0fe6),
        usb_pid: Some(0x811e),
    })))
    .unwrap();
    assert_eq!(p.pending_action(), PrintAction::OpenUsb { delay_ms: 0, vid: 0x0fe6, pid: 0x811e });
    assert_eq!(p.step(PrintEvent::UsbOpened { ok: first_open_ok }), PrintAction::AwaitContent);
    p
}

const REOPEN: PrintAction = PrintAction::OpenUsb { delay_ms: USB_REOPEN_DELAY_MS, vid: 0x0fe6, pid: 0x811e };

#[test]
fn printer_is_set_up_from_config() {
    let p = PosPrinter::init(&config(Some(PosDestConfig {
        enabled: true,
        connection: PosConnectionTypes::Usb,
        usb_vid: Some(1),
        usb_pid: Some(2),
    })))
    .unwrap();
    assert_eq!(p.usb_id, Some((1, 2)));
    assert!(!p.usb_initialized);
    assert!(!p.driver_open);
    assert_eq!(p.phase, PrinterPhase::Starting);
    assert!(PosPrinter::init(&config(None)).is_none());
    assert!(PosPrinter::init(&config(Some(PosDestConfig {
        enabled: false,
        connection: PosConnectionTypes::Usb,
        usb_vid: None,
        usb_pid: None,
    })))
    .is_none());
}

#[test]
fn ready_printer_prints_at_once() {
    let mut p = started_printer(true);
    assert!(p.usb_initialized && p.driver_open);
    assert_eq!(p.step(PrintEvent::ContentReceived), PrintAction::Print);
    assert_eq!(p.step(PrintEvent::Printed { ok: true }), PrintAction::AwaitContent);
    assert_eq!(p.phase, PrinterPhase::Idle);
    assert!(p.usb_initialized);
}

#[test]
fn failed_first_open_is_retried_lazily() {
    let mut p = started_printer(false);
    assert!(!p.usb_initialized && !p.driver_open);
    assert_eq!(p.step(PrintEvent::ContentReceived), REOPEN);
    assert_eq!(p.step(PrintEvent::UsbOpened { ok: true }), PrintAction::Print);
    assert_eq!(p.step(PrintEvent::Printed { ok: true }), PrintAction::AwaitContent);
}

#[test]
fn item_is_given_up_after_three_failed_opens() {
    let mut p = started_printer(false);
    assert_eq!(p.step(PrintEvent::ContentReceived), REOPEN);
    assert_eq!(p.phase, PrinterPhase::Opening { attempt: 1 });
    assert_eq!(p.step(PrintEvent::UsbOpened { ok: false }), REOPEN);
    assert_eq!(p.phase, PrinterPhase::Opening { attempt: 2 });
    assert_eq!(p.step(PrintEvent::UsbOpened { ok: false }), REOPEN);
    assert_eq!(p.phase, PrinterPhase::Opening { attempt: 3 });
    assert_eq!(p.step(PrintEvent::UsbOpened { ok: false }), PrintAction::AwaitContent);
    assert_eq!(p.phase, PrinterPhase::Idle);
    assert_eq!(MAX_PRINT_ATTEMPTS, 3);
}

#[test]
fn failed_print_reopens_the_device() {
    let mut p = started_printer(true);
    assert_eq!(p.step(PrintEvent::ContentReceived), PrintAction::Print);
    assert_eq!(p.step(PrintEvent::Printed { ok: false }), REOPEN);
    assert!(!p.usb_initialized);
    assert!(p.driver_open);
    assert_eq!(p.phase, PrinterPhase::Opening { attempt: 2 });
    assert_eq!(p.step(PrintEvent::UsbOpened { ok: true }), PrintAction::Print);
    assert_eq!(p.step(PrintEvent::Printed { ok: false }), REOPEN);
    assert_eq!(p.step(PrintEvent::UsbOpened { ok: true }), PrintAction::Print);
    assert_eq!(p.phase, PrinterPhase::Printing { attempt: 3 });
    assert_eq!(p.step(PrintEvent::Printed { ok: false }), PrintAction::AwaitContent);
    assert!(!p.usb_initialized);
    // the next item starts by reopening the device
    assert_eq!(p.step(PrintEvent::ContentReceived), REOPEN);
    assert_eq!(p.phase, PrinterPhase::Opening { attempt: 1 });
}

#[test]
fn item_takes_at_most_six_events() {
    let mut p = started_printer(true);
    let mut events = 0;
    let mut action = p.step(PrintEvent::ContentReceived);
    while action != PrintAction::AwaitContent {
        action = match action {
            PrintAction::Print => p.step(PrintEvent::Printed { ok: false }),
            PrintAction::OpenUsb { .. } => p.step(PrintEvent::UsbOpened { ok: true }),
            _ => panic!("unexpected action"),
        };
        events += 1;
    }
    assert!(events <= 6);
}

#[test]
fn closed_channel_stops_the_printer() {
    let mut p = started_printer(true);
    assert_eq!(p.step(PrintEvent::ChannelClosed), PrintAction::Stop);
    assert_eq!(p.phase, PrinterPhase::Stopped);
    assert_eq!(p.step(PrintEvent::ContentReceived), PrintAction::Stop);
    assert_eq!(p.phase, PrinterPhase::Stopped);
}

#[test]
fn unexpected_event_changes_nothing() {
    let mut p = started_printer(true);
    assert_eq!(p.step(PrintEvent::Printed { ok: true }), PrintAction::AwaitContent);
    assert_eq!(p.phase, PrinterPhase::Idle);
    assert_eq!(p.step(PrintEvent::ContentReceived), PrintAction::Print);
    assert_eq!(p.step(PrintEvent::ContentReceived), PrintAction::Print);
    assert_eq!(p.phase, PrinterPhase::Printing { attempt: 1 });
}

fn lines(cmds: &[PrintCommand]) -> Vec<String> {
    cmds.iter()
        .filter_map(|c| match c {
            PrintCommand::WriteLine(s) => Some(s.clone()),
            _ => None,
        })
        .collect()
}

#[test]
fn receipt_for_plain_item() {
    let c = Content {
        content_type: ContentType::Todo,
        source: "http".to_string(),
        dest: None,
        date: LocalTime { secs: 1_715_671_800, nanos: 0, offset: 7200 },
        due: None,
        content: "buy milk".to_string(),
    };
    let r = PosPrinter::receipt(&c);
    assert_eq!(r.len(), 23);
    assert_eq!(lines(&r), vec!["TODO", "Source: http", "Created: Tue 2024-05-14 09:30", "buy milk"]);
    assert!(matches!(r[0], PrintCommand::Smoothing(true)));
    assert!(matches!(r[1], PrintCommand::Init));
    assert!(matches!(r[2], PrintCommand::Size(8, 3)));
    assert!(matches!(r[3], PrintCommand::Justify(JustifyMode::Center)));
    assert!(matches!(r[4], PrintCommand::Underline(UnderlineMode::Double)));
    assert!(matches!(r[10], PrintCommand::Justify(JustifyMode::Right)));
    assert!(matches!(r[11], PrintCommand::Underline(UnderlineMode::Off)));
    assert!(matches!(r[16], PrintCommand::Justify(JustifyMode::Left)));
    assert!(matches!(r[22], PrintCommand::PrintCut));
}

#[test]
fn receipt_with_due_date_and_addressee() {
    let c = Content {
        content_type: ContentType::Todo,
        source: "http".to_string(),
        dest: Some("Bob".to_string()),
        date: LocalTime { secs: 1_715_671_800, nanos: 0, offset: 7200 },
        due: Some(LocalTime { secs: 1_715_758_200, nanos: 0, offset: 7200 }),
        content: "buy milk".to_string(),
    };
    let r = PosPrinter::receipt(&c);
    assert_eq!(r.len(), 30);
    assert_eq!(
        lines(&r),
        vec!["TODO", "Source: http", "Created: Tue 2024-05-14 09:30", "Due: Wed 2024-05-15 09:30", "To: Bob", "buy milk"]
    );
    assert!(matches!(r[16], PrintCommand::Size(1, 2)));
    assert!(matches!(r[18], PrintCommand::Bold(true)));
    assert!(matches!(r[22], PrintCommand::ResetSize));
}
