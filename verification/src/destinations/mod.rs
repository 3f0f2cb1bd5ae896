//! Output destinations: the receipt printer and the console.

pub mod console;
pub mod pos_printer;

use vstd::prelude::*;
use crate::config::Config;
use self::console::Console;
use self::pos_printer::PosPrinter;

verus! {

/// A destination that the configuration can set up.
pub trait TaryDestination: Sized {
    /// Sets the destination up from the configuration; `None` when the
    /// configuration leaves it out.
    fn init(cfg: &Config) -> Option<Self>;
}

/// The destinations that the configuration enables.
pub struct Destinations {
    pub pos_printer: Option<PosPrinter>,
    pub console: Option<Console>,
}

impl Destinations {
    /// The number of destinations enabled by a configuration.
    pub open spec fn enabled_in(cfg: Config) -> nat {
        (if cfg.destinations.pos_printer matches Some(p) && p.enabled { 1nat } else { 0nat })
            + (if cfg.destinations.console matches Some(c) && c.enabled { 1nat } else { 0nat })
    }

    /// How many destinations are set up.
    pub open spec fn spec_count(&self) -> nat {
        (if self.pos_printer is Some { 1nat } else { 0nat }) + (if self.console is Some { 1nat } else { 0nat })
    }

    /// Each destination set up counts one, and there are at most two.
    pub proof fn law_count(d: Destinations)
        ensures
            d.spec_count() <= 2,
            d.pos_printer is None && d.console is None ==> d.spec_count() == 0,
            d.pos_printer is Some && d.console is Some ==> d.spec_count() == 2,
            (d.pos_printer is Some) != (d.console is Some) ==> d.spec_count() == 1,
    {
    }

    /// A configuration enables as many destinations as it has enabled
    /// sections: none when neither the printer nor the console is enabled,
    /// two when both are.
    pub proof fn law_enabled(cfg: Config)
        ensures
            Self::enabled_in(cfg) <= 2,
            !(cfg.destinations.pos_printer matches Some(p) && p.enabled) && !(
            cfg.destinations.console matches Some(c) && c.enabled) ==> Self::enabled_in(cfg) == 0,
            (cfg.destinations.pos_printer matches Some(p) && p.enabled) && (
            cfg.destinations.console matches Some(c) && c.enabled) ==> Self::enabled_in(cfg) == 2,
    {
    }

    /// Sets up every destination that the configuration enables.
    pub fn new(cfg: &Config) -> (r: Destinations)
        requires
            cfg.pos_printer_well_formed(),
        ensures
            r.pos_printer == PosPrinter::spec_init(*cfg),
            r.pos_printer matches Some(p) ==> p.wf(),
            Console::spec_init(*cfg, r.console),
            r.spec_count() == Self::enabled_in(*cfg),
    {
        Destinations { pos_printer: PosPrinter::init(cfg), console: Console::init(cfg) }
    }

    /// How many destinations are set up.
    pub fn count(&self) -> (n: u32)
        ensures
            n == self.spec_count(),
    {
        let p: u32 = if self.pos_printer.is_some() { 1 } else { 0 };
        let c: u32 = if self.console.is_some() { 1 } else { 0 };
        p + c
    }
}

} // verus!
