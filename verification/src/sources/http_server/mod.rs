//! The HTTP server source: a page on `/` and a `POST /todo` endpoint that
//! turns a JSON body into a todo item.

use vstd::prelude::*;
use crate::sources::TarySource;
use crate::config::Config;
use crate::content::{Content, ContentType};
use crate::text::{copy_opt_text, decimal, opt_text, push_decimal};
use crate::time::{clock_now, parse_rfc3339_local, rfc3339_instant, valid_offset, LocalTime};

verus! {

/// The HTTP server source, with the address it listens on.
pub struct HttpServerSource {
    pub host: String,
    pub port: u16,
    /// A custom page served on `/` in place of the default one.
    pub html_path: Option<String>,
}

/// The body of `POST /todo`.
pub struct TodoRequest {
    /// The todo's text.
    pub content: String,
    /// When it is due, as an RFC 3339 date and time.
    pub due: Option<String>,
    /// Whom it is meant for.
    pub dest: Option<String>,
}

impl HttpServerSource {
    /// The source set up from the configuration: present when the HTTP server
    /// section is present and enabled, with its address and page.
    pub open spec fn spec_init(cfg: Config, r: Option<HttpServerSource>) -> bool {
        match cfg.sources.http_server {
            Some(h) => if h.enabled {
                r matches Some(s) && s.host@ == h.host@ && s.port == h.port && opt_text(s.html_path)
                    == opt_text(h.html_path)
            } else {
                r is None
            },
            None => r is None,
        }
    }


    /// The address to bind: `host:port`.
    pub fn bind_address(&self) -> (s: String)
        ensures
            s@ == self.host@ + ":"@ + decimal(self.port as nat),
    {
        let mut s = self.host.clone();
        s.append(":");
        push_decimal(&mut s, self.port as u64);
        s
    }
}

/// The HTTP source is set up exactly when its section is present and
/// enabled, and then listens on the configured host and port and serves the
/// configured page.
pub proof fn law_http_init(cfg: Config, r: Option<HttpServerSource>)
    requires
        HttpServerSource::spec_init(cfg, r),
    ensures
        r is Some <==> (cfg.sources.http_server matches Some(h) && h.enabled),
        r matches Some(s) ==> {
            &&& s.host@ == cfg.sources.http_server.unwrap().host@
            &&& s.port == cfg.sources.http_server.unwrap().port
            &&& opt_text(s.html_path) == opt_text(cfg.sources.http_server.unwrap().html_path)
        },
{
}

/// The due date a request asks for: the instant of its `due` text, where
/// there is one and it parses as RFC 3339.
pub open spec fn requested_due(req: TodoRequest) -> Option<(i64, u32)> {
    match req.due {
        Some(d) => rfc3339_instant(d@),
        None => None,
    }
}

/// The todo item made from a `POST /todo` body at the time `now`: from the
/// source `http`, with the body's text and addressee, dated `now` whatever
/// the body's due text, and due at the body's due date (shown in the local
/// time zone) where it parses as RFC 3339; a due date that does not parse is
/// left out.
pub fn todo_from_request(req: TodoRequest, now: LocalTime) -> (c: Content)
    ensures
        c.date == now,
        c.content_type == ContentType::Todo,
        c.source@ == "http"@,
        c.content@ == req.content@,
        opt_text(c.dest) == opt_text(req.dest),
        c.due is Some == requested_due(req) is Some,
        c.due matches Some(d) ==> (d.secs, d.nanos) == requested_due(req).unwrap() && valid_offset(
            d.offset,
        ),
{
    let TodoRequest { content, due, dest } = req;
    let mut c = Content::new(ContentType::Todo, String::from_str("http"), Some(now));
    c.content = content;
    c.dest = dest;
    match due {
        Some(d) => {
            c.due = parse_rfc3339_local(d.as_str());
        },
        None => {},
    }
    c
}

/// The todo item made from a `POST /todo` body: from the source `http`, with
/// the body's text and addressee, dated now, and due at the body's due date
/// (shown in the local time zone) where it parses as RFC 3339; a due date
/// that does not parse is left out.
pub fn create_todo(req: TodoRequest) -> (c: Content)
    ensures
        c.content_type == ContentType::Todo,
        c.source@ == "http"@,
        c.content@ == req.content@,
        opt_text(c.dest) == opt_text(req.dest),
        c.due is Some == requested_due(req) is Some,
        c.due matches Some(d) ==> (d.secs, d.nanos) == requested_due(req).unwrap() && valid_offset(
            d.offset,
        ),
        valid_offset(c.date.offset),
        c.date.nanos < 2_000_000_000,
{
    todo_from_request(req, clock_now())
}

impl TarySource for HttpServerSource {
    /// Sets the source up from the configuration (see `spec_init`).
    fn init(cfg: &Config) -> (r: Option<Self>)
        ensures
            Self::spec_init(*cfg, r),
    {
        match &cfg.sources.http_server {
            Some(h) => {
                if h.enabled {
                    Some(HttpServerSource {
                        host: h.host.clone(),
                        port: h.port,
                        html_path: copy_opt_text(&h.html_path),
                    })
                } else {
                    None
                }
            },
            None => None,
        }
    }
}

} // verus!
