//! Input sources.

pub mod http_server;
pub mod telegram;

use vstd::prelude::*;
use crate::config::Config;
use self::http_server::HttpServerSource;

verus! {

/// A source that the configuration can set up.
pub trait TarySource: Sized {
    /// Sets the source up from the configuration; `None` when the
    /// configuration leaves it out.
    fn init(cfg: &Config) -> Option<Self>;
}

/// The sources that the configuration enables.
pub struct Sources {
    pub http_server: Option<HttpServerSource>,
}

impl Sources {
    /// The number of sources enabled by a configuration.
    pub open spec fn enabled_in(cfg: Config) -> nat {
        if cfg.sources.http_server matches Some(h) && h.enabled { 1nat } else { 0nat }
    }

    /// How many sources are set up.
    pub open spec fn spec_count(&self) -> nat {
        if self.http_server is Some { 1nat } else { 0nat }
    }

    /// A configuration enables one source exactly when its HTTP section is
    /// present and enabled, and the sources set up count one for the HTTP
    /// source.
    pub proof fn law_count(cfg: Config, s: Sources)
        ensures
            Self::enabled_in(cfg) == 1 <==> (cfg.sources.http_server matches Some(h) && h.enabled),
            Self::enabled_in(cfg) <= 1,
            s.spec_count() == 1 <==> s.http_server is Some,
            s.spec_count() <= 1,
    {
    }

    /// Sets up every source that the configuration enables.
    pub fn new(cfg: &Config) -> (r: Sources)
        ensures
            HttpServerSource::spec_init(*cfg, r.http_server),
            r.spec_count() == Self::enabled_in(*cfg),
    {
        Sources { http_server: HttpServerSource::init(cfg) }
    }

    /// How many sources are set up.
    pub fn count(&self) -> (n: u32)
        ensures
            n == self.spec_count(),
    {
        if self.http_server.is_some() { 1 } else { 0 }
    }
}

} // verus!
