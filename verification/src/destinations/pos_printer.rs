//! The receipt printer destination: the retry policy that decides when to
//! (re)open the USB device and when to print, and the layout of a printed
//! item.

use vstd::prelude::*;
use crate::config::{Config, PosConnectionTypes};
use crate::content::Content;
use crate::text::or_empty;
use crate::time::{chrono_format, format_time};

verus! {

/// How many times one item is tried before it is given up.
pub const MAX_PRINT_ATTEMPTS: u8 = 3;

/// How long to wait before reopening the USB device, in milliseconds.
pub const USB_REOPEN_DELAY_MS: u64 = 5000;

/// Where the printer stands.
#[derive(Clone, Copy, Debug, PartialEq, Eq, Structural)]
pub enum PrinterPhase {
    /// Just configured; the USB device is being opened for the first time.
    Starting,
    /// Waiting for the next item.
    Idle,
    /// Reopening the USB device during the given attempt at the current item.
    Opening { attempt: u8 },
    /// Printing the current item, in the given attempt.
    Printing { attempt: u8 },
    /// The item channel is closed; nothing more happens.
    Stopped,
}

/// What happened outside, reported back to the printer.
#[derive(Clone, Copy, Debug, PartialEq, Eq, Structural)]
pub enum PrintEvent {
    /// Opening the USB device succeeded or failed.
    UsbOpened { ok: bool },
    /// A new item arrived.
    ContentReceived,
    /// Printing the current item succeeded or failed.
    Printed { ok: bool },
    /// The item channel closed or failed.
    ChannelClosed,
}

/// What the printer asks to be done next.
#[derive(Clone, Copy, Debug, PartialEq, Eq, Structural)]
pub enum PrintAction {
    /// Wait `delay_ms` milliseconds, then open the USB device `vid:pid`.
    OpenUsb { delay_ms: u64, vid: u16, pid: u16 },
    /// Print the current item over the open USB device.
    Print,
    /// Wait for the next item.
    AwaitContent,
    /// Stop listening.
    Stop,
}

/// The receipt printer destination.
pub struct PosPrinter {
    pub connection_type: PosConnectionTypes,
    /// The USB device, as `(vendor id, product id)`.
    pub usb_id: Option<(u16, u16)>,
    /// The USB device was opened and no print on it has failed since.
    pub usb_initialized: bool,
    /// A USB driver is held (possibly one on which a print failed).
    pub driver_open: bool,
    pub phase: PrinterPhase,
}

impl PosPrinter {
    /// The invariant: the USB device is known, an initialized device is held
    /// open, attempts are numbered from 1 to `MAX_PRINT_ATTEMPTS`, and printing
    /// happens only on an initialized device.
    pub open spec fn wf(&self) -> bool {
        &&& self.device_wf()
        &&& match self.phase {
            PrinterPhase::Opening { attempt } => 1 <= attempt <= MAX_PRINT_ATTEMPTS,
            PrinterPhase::Printing { attempt } => {
                &&& 1 <= attempt <= MAX_PRINT_ATTEMPTS
                &&& self.usb_initialized
            },
            _ => true,
        }
    }

    /// The part of the invariant about the device.
    pub open spec fn device_wf(&self) -> bool {
        &&& self.usb_id is Some
        &&& self.usb_initialized ==> self.driver_open
    }

    /// The action the printer waits on in its present phase.
    pub open spec fn spec_pending_action(&self) -> PrintAction {
        match self.phase {
            PrinterPhase::Starting => PrintAction::OpenUsb {
                delay_ms: 0,
                vid: self.usb_id.unwrap().0,
                pid: self.usb_id.unwrap().1,
            },
            PrinterPhase::Idle => PrintAction::AwaitContent,
            PrinterPhase::Opening { .. } => PrintAction::OpenUsb {
                delay_ms: USB_REOPEN_DELAY_MS,
                vid: self.usb_id.unwrap().0,
                pid: self.usb_id.unwrap().1,
            },
            PrinterPhase::Printing { .. } => PrintAction::Print,
            PrinterPhase::Stopped => PrintAction::Stop,
        }
    }

    /// Starts attempt `attempt` at the current item: reopen the device after
    /// the delay when it is not initialized, print at once otherwise.
    pub open spec fn spec_start_attempt(self, attempt: u8) -> (PosPrinter, PrintAction) {
        if !self.usb_initialized {
            let next = PosPrinter { phase: PrinterPhase::Opening { attempt }, ..self };
            (next, next.spec_pending_action())
        } else {
            (PosPrinter { phase: PrinterPhase::Printing { attempt }, ..self }, PrintAction::Print)
        }
    }

    /// After attempt `attempt` failed: the next attempt, or give the item up
    /// after the last one.
    pub open spec fn spec_after_failure(self, attempt: u8) -> (PosPrinter, PrintAction) {
        if attempt < MAX_PRINT_ATTEMPTS {
            self.spec_start_attempt((attempt + 1) as u8)
        } else {
            (PosPrinter { phase: PrinterPhase::Idle, ..self }, PrintAction::AwaitContent)
        }
    }

    /// The printer's response to an event: its next state and the action it
    /// asks for. An event the present phase does not wait on changes nothing.
    pub open spec fn spec_step(self, event: PrintEvent) -> (PosPrinter, PrintAction) {
        match (self.phase, event) {
            (PrinterPhase::Starting, PrintEvent::UsbOpened { ok }) => (
                PosPrinter {
                    usb_initialized: ok,
                    driver_open: ok,
                    phase: PrinterPhase::Idle,
                    ..self
                },
                PrintAction::AwaitContent,
            ),
            (PrinterPhase::Idle, PrintEvent::ContentReceived) => self.spec_start_attempt(1),
            (PrinterPhase::Idle, PrintEvent::ChannelClosed) => (
                PosPrinter { phase: PrinterPhase::Stopped, ..self },
                PrintAction::Stop,
            ),
            (PrinterPhase::Opening { attempt }, PrintEvent::UsbOpened { ok }) => {
                let opened = PosPrinter { usb_initialized: ok, driver_open: ok, ..self };
                if ok {
                    (PosPrinter { phase: PrinterPhase::Printing { attempt }, ..opened }, PrintAction::Print)
                } else {
                    opened.spec_after_failure(attempt)
                }
            },
            (PrinterPhase::Printing { attempt }, PrintEvent::Printed { ok }) => {
                if ok {
                    (PosPrinter { phase: PrinterPhase::Idle, ..self }, PrintAction::AwaitContent)
                } else {
                    PosPrinter { usb_initialized: false, ..self }.spec_after_failure(attempt)
                }
            },
            _ => (self, self.spec_pending_action()),
        }
    }

    /// The printer set up from the configuration: present when the printer
    /// section is present and enabled, holding its connection and USB device,
    /// with the device not yet opened.
    pub open spec fn spec_init(cfg: Config) -> Option<PosPrinter> {
        match cfg.destinations.pos_printer {
            Some(p) => if p.enabled {
                Some(PosPrinter {
                    connection_type: p.connection,
                    usb_id: Some((p.usb_vid.unwrap(), p.usb_pid.unwrap())),
                    usb_initialized: false,
                    driver_open: false,
                    phase: PrinterPhase::Starting,
                })
            } else {
                None
            },
            None => None,
        }
    }

    /// The action the printer waits on in its present phase.
    pub fn pending_action(&self) -> (a: PrintAction)
        requires
            self.wf(),
        ensures
            a == self.spec_pending_action(),
    {
        let (vid, pid) = match self.usb_id {
            Some(id) => id,
            None => (0, 0),
        };
        match self.phase {
            PrinterPhase::Starting => PrintAction::OpenUsb { delay_ms: 0, vid, pid },
            PrinterPhase::Idle => PrintAction::AwaitContent,
            PrinterPhase::Opening { .. } => PrintAction::OpenUsb {
                delay_ms: USB_REOPEN_DELAY_MS,
                vid,
                pid,
            },
            PrinterPhase::Printing { .. } => PrintAction::Print,
            PrinterPhase::Stopped => PrintAction::Stop,
        }
    }

    fn start_attempt(&mut self, attempt: u8) -> (a: PrintAction)
        requires
            old(self).device_wf(),
            1 <= attempt <= MAX_PRINT_ATTEMPTS,
        ensures
            (*final(self), a) == old(self).spec_start_attempt(attempt),
            final(self).wf(),
    {
        if !self.usb_initialized {
            self.phase = PrinterPhase::Opening { attempt };
            self.pending_action()
        } else {
            self.phase = PrinterPhase::Printing { attempt };
            PrintAction::Print
        }
    }

    fn after_failure(&mut self, attempt: u8) -> (a: PrintAction)
        requires
            old(self).device_wf(),
            !old(self).usb_initialized,
            1 <= attempt <= MAX_PRINT_ATTEMPTS,
        ensures
            (*final(self), a) == old(self).spec_after_failure(attempt),
            final(self).wf(),
    {
        if attempt < MAX_PRINT_ATTEMPTS {
            self.start_attempt(attempt + 1)
        } else {
            self.phase = PrinterPhase::Idle;
            PrintAction::AwaitContent
        }
    }

    /// Takes in an event and answers with the next action (see `spec_step`).
    pub fn step(&mut self, event: PrintEvent) -> (a: PrintAction)
        requires
            old(self).wf(),
        ensures
            (*final(self), a) == old(self).spec_step(event),
            final(self).wf(),
    {
        match (self.phase, event) {
            (PrinterPhase::Starting, PrintEvent::UsbOpened { ok }) => {
                self.usb_initialized = ok;
                self.driver_open = ok;
                self.phase = PrinterPhase::Idle;
                PrintAction::AwaitContent
            },
            (PrinterPhase::Idle, PrintEvent::ContentReceived) => self.start_attempt(1),
            (PrinterPhase::Idle, PrintEvent::ChannelClosed) => {
                self.phase = PrinterPhase::Stopped;
                PrintAction::Stop
            },
            (PrinterPhase::Opening { attempt }, PrintEvent::UsbOpened { ok }) => {
                self.usb_initialized = ok;
                self.driver_open = ok;
                if ok {
                    self.phase = PrinterPhase::Printing { attempt };
                    PrintAction::Print
                } else {
                    self.after_failure(attempt)
                }
            },
            (PrinterPhase::Printing { attempt }, PrintEvent::Printed { ok }) => {
                if ok {
                    self.phase = PrinterPhase::Idle;
                    PrintAction::AwaitContent
                } else {
                    self.usb_initialized = false;
                    self.after_failure(attempt)
                }
            },
            _ => self.pending_action(),
        }
    }
}


impl PosPrinter {
    /// The event the present phase waits on.
    pub open spec fn awaits(&self, event: PrintEvent) -> bool {
        match (self.phase, event) {
            (PrinterPhase::Starting, PrintEvent::UsbOpened { .. }) => true,
            (PrinterPhase::Idle, PrintEvent::ContentReceived) => true,
            (PrinterPhase::Idle, PrintEvent::ChannelClosed) => true,
            (PrinterPhase::Opening { .. }, PrintEvent::UsbOpened { .. }) => true,
            (PrinterPhase::Printing { .. }, PrintEvent::Printed { .. }) => true,
            _ => false,
        }
    }

    /// How many more events the current item can take at most: one per
    /// remaining open and one per remaining print.
    pub open spec fn item_budget(&self) -> int {
        match self.phase {
            PrinterPhase::Opening { attempt } => 2 * (MAX_PRINT_ATTEMPTS - attempt) + 2,
            PrinterPhase::Printing { attempt } => 2 * (MAX_PRINT_ATTEMPTS - attempt) + 1,
            _ => 0,
        }
    }
}

/// Every step keeps the printer's invariant.
pub proof fn lemma_step_keeps_invariant(p: PosPrinter, event: PrintEvent)
    requires
        p.wf(),
    ensures
        p.spec_step(event).0.wf(),
{
}

/// A print is only ever asked for on a USB device that was opened and on
/// which no print has failed since; such a device is held open.
pub proof fn lemma_print_needs_open_device(p: PosPrinter, event: PrintEvent)
    requires
        p.wf(),
        p.spec_step(event).1 == PrintAction::Print,
    ensures
        p.spec_step(event).0.usb_initialized,
        p.spec_step(event).0.driver_open,
{
}

/// A failed print marks the USB device as no longer initialized, so that the
/// next attempt reopens it.
pub proof fn lemma_failed_print_reopens(p: PosPrinter, attempt: u8)
    requires
        p.wf(),
        p.phase == (PrinterPhase::Printing { attempt }),
    ensures
        !p.spec_step(PrintEvent::Printed { ok: false }).0.usb_initialized,
        attempt < MAX_PRINT_ATTEMPTS ==> p.spec_step(PrintEvent::Printed { ok: false }).1
            == (PrintAction::OpenUsb {
            delay_ms: USB_REOPEN_DELAY_MS,
            vid: p.usb_id.unwrap().0,
            pid: p.usb_id.unwrap().1,
        }),
        attempt == MAX_PRINT_ATTEMPTS ==> p.spec_step(PrintEvent::Printed { ok: false }).1
            == PrintAction::AwaitContent,
{
}

/// Once the printer is running, the USB device is only ever reopened after
/// the reopen delay, and always the configured device.
pub proof fn lemma_reopen_waits(p: PosPrinter, event: PrintEvent)
    requires
        p.wf(),
        p.phase != PrinterPhase::Starting,
        p.spec_step(event).1 is OpenUsb,
    ensures
        p.spec_step(event).1 == (PrintAction::OpenUsb {
            delay_ms: USB_REOPEN_DELAY_MS,
            vid: p.usb_id.unwrap().0,
            pid: p.usb_id.unwrap().1,
        }),
{
}

/// An item starts with a budget of at most six events: at most
/// `MAX_PRINT_ATTEMPTS` opens of the device and as many prints.
pub proof fn lemma_item_budget(p: PosPrinter)
    requires
        p.wf(),
        p.phase == PrinterPhase::Idle,
    ensures
        p.spec_step(PrintEvent::ContentReceived).0.item_budget() <= 2 * MAX_PRINT_ATTEMPTS,
{
}

/// Each awaited event while an item is being handled uses up budget, so that
/// every item is printed or given up after finitely many events, and then the
/// printer waits for the next item.
pub proof fn lemma_item_progress(p: PosPrinter, event: PrintEvent)
    requires
        p.wf(),
        p.phase is Opening || p.phase is Printing,
        p.awaits(event),
    ensures
        p.spec_step(event).0.item_budget() < p.item_budget(),
        p.spec_step(event).0.item_budget() == 0 ==> {
            &&& p.spec_step(event).0.phase == PrinterPhase::Idle
            &&& p.spec_step(event).1 == PrintAction::AwaitContent
        },
{
}

/// A printer whose first opening of the device failed keeps running and
/// retries lazily: the next item starts by reopening the device after the
/// delay.
pub proof fn lemma_failed_start_retries_lazily(p: PosPrinter)
    requires
        p.wf(),
        p.phase == PrinterPhase::Starting,
    ensures
        ({
            let (idle, a) = p.spec_step(PrintEvent::UsbOpened { ok: false });
            &&& a == PrintAction::AwaitContent
            &&& idle.phase == PrinterPhase::Idle
            &&& idle.spec_step(PrintEvent::ContentReceived) == (PosPrinter {
                phase: PrinterPhase::Opening { attempt: 1 },
                ..idle
            }, PrintAction::OpenUsb {
                delay_ms: USB_REOPEN_DELAY_MS,
                vid: p.usb_id.unwrap().0,
                pid: p.usb_id.unwrap().1,
            })
        }),
{
}

/// A stopped printer stays stopped.
pub proof fn lemma_stopped_is_final(p: PosPrinter, event: PrintEvent)
    requires
        p.wf(),
        p.phase == PrinterPhase::Stopped,
    ensures
        p.spec_step(event) == (p, PrintAction::Stop),
{
}

/// A printer is set up exactly when its section is present and enabled; it
/// then talks to the configured device over the configured connection, has
/// not opened it yet, and starts by opening it.
pub proof fn law_printer_init(cfg: Config)
    requires
        cfg.pos_printer_well_formed(),
    ensures
        PosPrinter::spec_init(cfg) is Some <==> (cfg.destinations.pos_printer matches Some(c) && c.enabled),
        PosPrinter::spec_init(cfg) matches Some(p) ==> {
            let c = cfg.destinations.pos_printer.unwrap();
            &&& p.wf()
            &&& p.usb_id == Some((c.usb_vid.unwrap(), c.usb_pid.unwrap()))
            &&& p.connection_type == c.connection
            &&& !p.usb_initialized
            &&& !p.driver_open
            &&& p.spec_pending_action() == (PrintAction::OpenUsb {
                delay_ms: 0,
                vid: c.usb_vid.unwrap(),
                pid: c.usb_pid.unwrap(),
            })
        },
{
}

/// What the printer waits on: reopening the device after the delay while
/// reopening, printing while printing, the next item while idle, and nothing
/// once stopped.
pub proof fn law_pending_action(p: PosPrinter)
    requires
        p.wf(),
    ensures
        p.phase is Opening ==> p.spec_pending_action() == (PrintAction::OpenUsb {
            delay_ms: USB_REOPEN_DELAY_MS,
            vid: p.usb_id.unwrap().0,
            pid: p.usb_id.unwrap().1,
        }),
        p.phase is Printing ==> p.spec_pending_action() == PrintAction::Print,
        p.phase == PrinterPhase::Idle ==> p.spec_pending_action() == PrintAction::AwaitContent,
        p.phase == PrinterPhase::Stopped ==> p.spec_pending_action() == PrintAction::Stop,
{
}

/// A successful print ends the item on any attempt: the printer waits for
/// the next item, with the device as it was.
pub proof fn law_print_success_ends_item(p: PosPrinter, attempt: u8)
    requires
        p.wf(),
        p.phase == (PrinterPhase::Printing { attempt }),
    ensures
        p.spec_step(PrintEvent::Printed { ok: true }) == (
            PosPrinter { phase: PrinterPhase::Idle, ..p },
            PrintAction::AwaitContent,
        ),
{
}

/// A failed print forgets the device (its driver stays held) and reopens it
/// in the next attempt after the delay; after the last attempt the item is
/// given up and the printer waits for the next one.
pub proof fn law_print_failure(p: PosPrinter, attempt: u8)
    requires
        p.wf(),
        p.phase == (PrinterPhase::Printing { attempt }),
    ensures
        ({
            let (q, a) = p.spec_step(PrintEvent::Printed { ok: false });
            &&& !q.usb_initialized
            &&& q.driver_open == p.driver_open
            &&& q.usb_id == p.usb_id
            &&& q.connection_type == p.connection_type
            &&& attempt < MAX_PRINT_ATTEMPTS ==> {
                &&& q.phase == (PrinterPhase::Opening { attempt: (attempt + 1) as u8 })
                &&& a == (PrintAction::OpenUsb {
                    delay_ms: USB_REOPEN_DELAY_MS,
                    vid: p.usb_id.unwrap().0,
                    pid: p.usb_id.unwrap().1,
                })
            }
            &&& attempt == MAX_PRINT_ATTEMPTS ==> q.phase == PrinterPhase::Idle && a
                == PrintAction::AwaitContent
        }),
{
}

/// Reopening the device during an item: on success the same attempt prints;
/// on failure the next attempt reopens after the delay, and after the last
/// one the item is given up. The device is initialized exactly when it
/// opened.
pub proof fn law_open_result(p: PosPrinter, attempt: u8, ok: bool)
    requires
        p.wf(),
        p.phase == (PrinterPhase::Opening { attempt }),
    ensures
        ({
            let (q, a) = p.spec_step(PrintEvent::UsbOpened { ok });
            &&& q.usb_initialized == ok
            &&& q.driver_open == ok
            &&& q.usb_id == p.usb_id
            &&& q.connection_type == p.connection_type
            &&& ok ==> q.phase == (PrinterPhase::Printing { attempt }) && a == PrintAction::Print
            &&& !ok && attempt < MAX_PRINT_ATTEMPTS ==> {
                &&& q.phase == (PrinterPhase::Opening { attempt: (attempt + 1) as u8 })
                &&& a == (PrintAction::OpenUsb {
                    delay_ms: USB_REOPEN_DELAY_MS,
                    vid: p.usb_id.unwrap().0,
                    pid: p.usb_id.unwrap().1,
                })
            }
            &&& !ok && attempt == MAX_PRINT_ATTEMPTS ==> q.phase == PrinterPhase::Idle && a
                == PrintAction::AwaitContent
        }),
{
}

/// A new item is the first attempt: it prints at once on an initialized
/// device, and otherwise reopens the device after the delay.
pub proof fn law_new_item(p: PosPrinter)
    requires
        p.wf(),
        p.phase == PrinterPhase::Idle,
    ensures
        ({
            let (q, a) = p.spec_step(PrintEvent::ContentReceived);
            &&& q.usb_initialized == p.usb_initialized
            &&& q.driver_open == p.driver_open
            &&& q.usb_id == p.usb_id
            &&& p.usb_initialized ==> q.phase == (PrinterPhase::Printing { attempt: 1 }) && a
                == PrintAction::Print
            &&& !p.usb_initialized ==> q.phase == (PrinterPhase::Opening { attempt: 1 }) && a
                == (PrintAction::OpenUsb {
                delay_ms: USB_REOPEN_DELAY_MS,
                vid: p.usb_id.unwrap().0,
                pid: p.usb_id.unwrap().1,
            })
        }),
{
}

/// The first opening of the device records whether it opened, without delay
/// before it, and then the printer waits for items.
pub proof fn law_first_open(p: PosPrinter, ok: bool)
    requires
        p.wf(),
        p.phase == PrinterPhase::Starting,
    ensures
        p.spec_pending_action() == (PrintAction::OpenUsb {
            delay_ms: 0,
            vid: p.usb_id.unwrap().0,
            pid: p.usb_id.unwrap().1,
        }),
        p.spec_step(PrintEvent::UsbOpened { ok }) == (
            PosPrinter {
                usb_initialized: ok,
                driver_open: ok,
                phase: PrinterPhase::Idle,
                ..p
            },
            PrintAction::AwaitContent,
        ),
{
}

/// A closed channel stops a waiting printer.
pub proof fn law_channel_closed(p: PosPrinter)
    requires
        p.wf(),
        p.phase == PrinterPhase::Idle,
    ensures
        p.spec_step(PrintEvent::ChannelClosed) == (
            PosPrinter { phase: PrinterPhase::Stopped, ..p },
            PrintAction::Stop,
        ),
{
}

/// An event that the printer does not wait for changes nothing, and the
/// printer asks again for what it waits on.
pub proof fn law_unexpected_event(p: PosPrinter, event: PrintEvent)
    requires
        p.wf(),
        !p.awaits(event),
    ensures
        p.spec_step(event) == (p, p.spec_pending_action()),
{
}

/// The printer never changes which device it talks to, nor how.
pub proof fn law_device_fixed(p: PosPrinter, event: PrintEvent)
    requires
        p.wf(),
    ensures
        p.spec_step(event).0.usb_id == p.usb_id,
        p.spec_step(event).0.connection_type == p.connection_type,
{
}


/// Horizontal alignment of printed text.
#[derive(Clone, Copy, Debug, PartialEq, Eq, Structural)]
pub enum JustifyMode {
    Left,
    Center,
    Right,
}

/// Underlining of printed text.
#[derive(Clone, Copy, Debug, PartialEq, Eq, Structural)]
pub enum UnderlineMode {
    Off,
    Single,
    Double,
}

/// One instruction to the receipt printer.
#[derive(Debug)]
pub enum PrintCommand {
    Smoothing(bool),
    Init,
    /// Character width and height multipliers.
    Size(u8, u8),
    Justify(JustifyMode),
    Underline(UnderlineMode),
    Bold(bool),
    LineSpacing(u8),
    ResetSize,
    Feed,
    /// A line of text followed by a line break.
    WriteLine(String),
    ResetLineSpacing,
    /// Print what was sent and cut the paper.
    PrintCut,
}

/// A printer instruction as a mathematical value.
pub enum PrintCommandView {
    Smoothing(bool),
    Init,
    Size(u8, u8),
    Justify(JustifyMode),
    Underline(UnderlineMode),
    Bold(bool),
    LineSpacing(u8),
    ResetSize,
    Feed,
    WriteLine(Seq<char>),
    ResetLineSpacing,
    PrintCut,
}

impl View for PrintCommand {
    type V = PrintCommandView;

    open spec fn view(&self) -> PrintCommandView {
        match self {
            PrintCommand::Smoothing(b) => PrintCommandView::Smoothing(*b),
            PrintCommand::Init => PrintCommandView::Init,
            PrintCommand::Size(w, h) => PrintCommandView::Size(*w, *h),
            PrintCommand::Justify(j) => PrintCommandView::Justify(*j),
            PrintCommand::Underline(u) => PrintCommandView::Underline(*u),
            PrintCommand::Bold(b) => PrintCommandView::Bold(*b),
            PrintCommand::LineSpacing(n) => PrintCommandView::LineSpacing(*n),
            PrintCommand::ResetSize => PrintCommandView::ResetSize,
            PrintCommand::Feed => PrintCommandView::Feed,
            PrintCommand::WriteLine(s) => PrintCommandView::WriteLine(s@),
            PrintCommand::ResetLineSpacing => PrintCommandView::ResetLineSpacing,
            PrintCommand::PrintCut => PrintCommandView::PrintCut,
        }
    }
}

/// The instructions of a list, as values.
pub open spec fn commands_view(v: Seq<PrintCommand>) -> Seq<PrintCommandView> {
    v.map_values(|c: PrintCommand| c@)
}

/// The pattern with which dates are printed, such as `Tue 2024-05-14 09:30`.
pub open spec fn receipt_date_pattern() -> Seq<char> {
    "%a %Y-%m-%d %H:%M"@
}

/// Dates are printed as weekday, year-month-day and hours:minutes.
pub proof fn law_receipt_date_pattern()
    ensures
        receipt_date_pattern() =~= seq!['%', 'a', ' ', '%', 'Y', '-', '%', 'm', '-', '%', 'd', ' ', '%', 'H', ':', '%', 'M'],
{
    reveal_strlit("%a %Y-%m-%d %H:%M");
}

/// A date as printed on a receipt (nothing where `chrono` refuses it).
pub open spec fn receipt_date(t: crate::time::LocalTime) -> Seq<char> {
    or_empty(chrono_format(t.secs, t.nanos, t.offset, receipt_date_pattern()))
}

/// The receipt for an item: the kind as a large centred, double-underlined,
/// bold title; the source, right-aligned; the creation date; the due date,
/// tall and bold, where there is one; the addressee, left-aligned, where there
/// is one; the text, tall; then the cut.
pub open spec fn spec_receipt(c: Content) -> Seq<PrintCommandView> {
    let title = seq![
        PrintCommandView::Smoothing(true),
        PrintCommandView::Init,
        PrintCommandView::Size(8, 3),
        PrintCommandView::Justify(JustifyMode::Center),
        PrintCommandView::Underline(UnderlineMode::Double),
        PrintCommandView::Bold(true),
        PrintCommandView::WriteLine(c.content_type.label()),
    ];
    let source = seq![
        PrintCommandView::LineSpacing(0),
        PrintCommandView::ResetSize,
        PrintCommandView::Feed,
        PrintCommandView::Justify(JustifyMode::Right),
        PrintCommandView::Underline(UnderlineMode::Off),
        PrintCommandView::Bold(false),
        PrintCommandView::WriteLine("Source: "@ + c.source@),
    ];
    let created = seq![
        PrintCommandView::Feed,
        PrintCommandView::WriteLine("Created: "@ + receipt_date(c.date)),
    ];
    let due = match c.due {
        Some(d) => seq![
            PrintCommandView::Size(1, 2),
            PrintCommandView::Feed,
            PrintCommandView::Bold(true),
            PrintCommandView::WriteLine("Due: "@ + receipt_date(d)),
        ],
        None => Seq::empty(),
    };
    let align = seq![PrintCommandView::Justify(JustifyMode::Left), PrintCommandView::Bold(false)];
    let dest = match c.dest {
        Some(d) => seq![
            PrintCommandView::ResetSize,
            PrintCommandView::Feed,
            PrintCommandView::WriteLine("To: "@ + d@),
        ],
        None => Seq::empty(),
    };
    let body = seq![
        PrintCommandView::ResetLineSpacing,
        PrintCommandView::Size(1, 2),
        PrintCommandView::Feed,
        PrintCommandView::WriteLine(c.content@),
        PrintCommandView::PrintCut,
    ];
    title + source + created + due + align + dest + body
}

/// The receipt's shape, whatever the item: 23 instructions, four more for a
/// due date and three more for an addressee. It starts by initialising the
/// printer and ends with the cut; it writes the kind, the source and the
/// creation date in that order at fixed places; the due date follows where
/// there is one; the addressee, where there is one, comes just before the
/// text, which is written last.
pub proof fn law_receipt_shape(c: Content)
    ensures
        ({
            let r = spec_receipt(c);
            &&& r.len() == 23 + (if c.due is Some { 4int } else { 0int }) + (if c.dest is Some { 3int } else { 0int })
            &&& r[0] == PrintCommandView::Smoothing(true)
            &&& r[1] == PrintCommandView::Init
            &&& r[6] == PrintCommandView::WriteLine(c.content_type.label())
            &&& r[13] == PrintCommandView::WriteLine("Source: "@ + c.source@)
            &&& r[15] == PrintCommandView::WriteLine("Created: "@ + receipt_date(c.date))
            &&& r[r.len() - 2] == PrintCommandView::WriteLine(c.content@)
            &&& r[r.len() - 1] == PrintCommandView::PrintCut
            &&& c.due matches Some(d) ==> r[19] == PrintCommandView::WriteLine("Due: "@ + receipt_date(d))
            &&& c.dest matches Some(d) ==> r[r.len() - 6] == PrintCommandView::WriteLine("To: "@ + d@)
        }),
{
}

/// An addressee is always printed, as `To: <addressee>`, whether or not the
/// item has a due date; a due date is always printed, as `Due: <date>`,
/// whether or not the item has an addressee.
pub proof fn law_receipt_lines(c: Content)
    ensures
        c.dest matches Some(d) ==> spec_receipt(c).contains(PrintCommandView::WriteLine("To: "@ + d@)),
        c.due matches Some(d) ==> spec_receipt(c).contains(
            PrintCommandView::WriteLine("Due: "@ + receipt_date(d)),
        ),
        spec_receipt(c).contains(PrintCommandView::WriteLine(c.content@)),
{
    law_receipt_shape(c);
    let r = spec_receipt(c);
    if let Some(d) = c.dest {
        assert(r[r.len() - 6] == PrintCommandView::WriteLine("To: "@ + d@));
    }
    if let Some(d) = c.due {
        assert(r[19] == PrintCommandView::WriteLine("Due: "@ + receipt_date(d)));
    }
    assert(r[r.len() - 2] == PrintCommandView::WriteLine(c.content@));
}

fn push_command(v: &mut Vec<PrintCommand>, c: PrintCommand)
    ensures
        commands_view(final(v)@) == commands_view(old(v)@).push(c@),
{
    let ghost before = v@;
    v.push(c);
    assert(commands_view(v@) =~= commands_view(before).push(c@));
}

fn receipt_line(prefix: &str, t: &crate::time::LocalTime) -> (s: String)
    ensures
        s@ == prefix@ + receipt_date(*t),
{
    let mut s = String::from_str(prefix);
    match format_time(t, "%a %Y-%m-%d %H:%M") {
        Some(f) => s.append(f.as_str()),
        None => {},
    }
    s
}

fn prefixed(prefix: &str, text: &String) -> (s: String)
    ensures
        s@ == prefix@ + text@,
{
    let mut s = String::from_str(prefix);
    s.append(text.as_str());
    s
}

impl PosPrinter {
    /// The instructions that print `content` (see `spec_receipt`).
    pub fn receipt(content: &Content) -> (r: Vec<PrintCommand>)
        ensures
            commands_view(r@) == spec_receipt(*content),
    {
        let mut v: Vec<PrintCommand> = Vec::new();
        assert(commands_view(v@) =~= Seq::<PrintCommandView>::empty());
        push_command(&mut v, PrintCommand::Smoothing(true));
        push_command(&mut v, PrintCommand::Init);
        push_command(&mut v, PrintCommand::Size(8, 3));
        push_command(&mut v, PrintCommand::Justify(JustifyMode::Center));
        push_command(&mut v, PrintCommand::Underline(UnderlineMode::Double));
        push_command(&mut v, PrintCommand::Bold(true));
        push_command(&mut v, PrintCommand::WriteLine(content.content_type.to_string()));
        push_command(&mut v, PrintCommand::LineSpacing(0));
        push_command(&mut v, PrintCommand::ResetSize);
        push_command(&mut v, PrintCommand::Feed);
        push_command(&mut v, PrintCommand::Justify(JustifyMode::Right));
        push_command(&mut v, PrintCommand::Underline(UnderlineMode::Off));
        push_command(&mut v, PrintCommand::Bold(false));
        push_command(&mut v, PrintCommand::WriteLine(prefixed("Source: ", &content.source)));
        push_command(&mut v, PrintCommand::Feed);
        push_command(&mut v, PrintCommand::WriteLine(receipt_line("Created: ", &content.date)));
        match &content.due {
            Some(d) => {
                push_command(&mut v, PrintCommand::Size(1, 2));
                push_command(&mut v, PrintCommand::Feed);
                push_command(&mut v, PrintCommand::Bold(true));
                push_command(&mut v, PrintCommand::WriteLine(receipt_line("Due: ", d)));
            },
            None => {},
        }
        push_command(&mut v, PrintCommand::Justify(JustifyMode::Left));
        push_command(&mut v, PrintCommand::Bold(false));
        match &content.dest {
            Some(d) => {
                push_command(&mut v, PrintCommand::ResetSize);
                push_command(&mut v, PrintCommand::Feed);
                push_command(&mut v, PrintCommand::WriteLine(prefixed("To: ", d)));
            },
            None => {},
        }
        push_command(&mut v, PrintCommand::ResetLineSpacing);
        push_command(&mut v, PrintCommand::Size(1, 2));
        push_command(&mut v, PrintCommand::Feed);
        push_command(&mut v, PrintCommand::WriteLine(content.content.clone()));
        push_command(&mut v, PrintCommand::PrintCut);
        assert(commands_view(v@) =~= spec_receipt(*content));
        v
    }
}

impl PosPrinter {
    /// Sets the printer up from the configuration (see `spec_init`). The first
    /// action of a new printer is to open its USB device. An enabled printer
    /// section must name its USB device.
    pub fn init(cfg: &Config) -> (r: Option<Self>)
        requires
            cfg.pos_printer_well_formed(),
        ensures
            r == Self::spec_init(*cfg),
            r matches Some(p) ==> p.wf(),
    {
        match &cfg.destinations.pos_printer {
            Some(p) => {
                if p.enabled {
                    let vid = match p.usb_vid {
                        Some(v) => v,
                        None => 0,
                    };
                    let pid = match p.usb_pid {
                        Some(v) => v,
                        None => 0,
                    };
                    Some(PosPrinter {
                        connection_type: p.connection,
                        usb_id: Some((vid, pid)),
                        usb_initialized: false,
                        driver_open: false,
                        phase: PrinterPhase::Starting,
                    })
                } else {
                    None
                }
            },
            None => None,
        }
    }
}

} // verus!
