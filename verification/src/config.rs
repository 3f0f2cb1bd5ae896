//! The configuration model: what the configuration file can say about the
//! user, the sources, the middlewares and the destinations.

use vstd::prelude::*;

verus! {

/// Root of the configuration.
pub struct Config {
    pub general: GeneralConfig,
    pub sources: SourcesConfig,
    pub middlewares: MiddlewaresConfig,
    pub destinations: DestinationsConfig,
}

/// Settings about the user.
pub struct GeneralConfig {
    /// The user's name.
    pub name: String,
}

/// Input sources; all optional.
pub struct SourcesConfig {
    pub http_server: Option<HttpServerConfig>,
}

/// The HTTP server source.
#[derive(Clone)]
pub struct HttpServerConfig {
    pub enabled: bool,
    /// Bind address.
    pub host: String,
    /// Bind port.
    pub port: u16,
    /// A custom HTML page served on `/` in place of the default one.
    pub html_path: Option<String>,
}

/// Middlewares; all optional.
pub struct MiddlewaresConfig {
    pub regex: Option<RegexMiddleware>,
}

/// The regex middleware: a list of rules applied one after the other to the
/// text of each item.
pub struct RegexMiddleware {
    pub enabled: bool,
    /// Position of this middleware in the pipeline (0 when not given).
    pub order: u32,
    /// Rules `(pattern, replacement, global)`: with `global` set every match
    /// is replaced, otherwise only the first one.
    pub regexes: Vec<(String, String, Option<bool>)>,
}

/// Output destinations; all optional.
pub struct DestinationsConfig {
    pub console: Option<ConsoleDestConfig>,
    pub pos_printer: Option<PosDestConfig>,
}

/// The console destination.
pub struct ConsoleDestConfig {
    pub enabled: bool,
    /// A file to append to in place of standard output.
    pub output: Option<String>,
}

/// How the receipt printer is reached.
#[derive(Clone, Copy, PartialEq, Eq, Structural)]
pub enum PosConnectionTypes {
    Usb,
}

/// The receipt printer destination.
pub struct PosDestConfig {
    pub enabled: bool,
    pub connection: PosConnectionTypes,
    /// USB vendor id; needed for a USB connection.
    pub usb_vid: Option<u16>,
    /// USB product id; needed for a USB connection.
    pub usb_pid: Option<u16>,
}

impl Default for SourcesConfig {
    fn default() -> (r: Self)
        ensures
            r.http_server is None,
    {
        SourcesConfig { http_server: None }
    }
}

impl Default for HttpServerConfig {
    fn default() -> (r: Self)
        ensures
            !r.enabled,
            r.host@ == Seq::<char>::empty(),
            r.port == 0,
            r.html_path is None,
    {
        HttpServerConfig { enabled: false, host: String::new(), port: 0, html_path: None }
    }
}

impl Default for MiddlewaresConfig {
    fn default() -> (r: Self)
        ensures
            r.regex is None,
    {
        MiddlewaresConfig { regex: None }
    }
}

impl Default for DestinationsConfig {
    fn default() -> (r: Self)
        ensures
            r.console is None,
            r.pos_printer is None,
    {
        DestinationsConfig { console: None, pos_printer: None }
    }
}

impl PosDestConfig {
    /// The configuration names the USB device when it needs one: a USB
    /// connection comes with both a vendor and a product id.
    pub open spec fn usb_ids_given(&self) -> bool {
        self.connection == PosConnectionTypes::Usb ==> (self.usb_vid is Some && self.usb_pid is Some)
    }
}

impl Config {
    /// The printer section, where it is present and enabled, names its USB
    /// device.
    pub open spec fn pos_printer_well_formed(&self) -> bool {
        match self.destinations.pos_printer {
            Some(p) => p.enabled ==> p.usb_ids_given(),
            None => true,
        }
    }
}

} // verus!
