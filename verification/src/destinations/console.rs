//! The console destination: writes each item as a short text block to
//! standard output or appends it to a file.

use vstd::prelude::*;
use crate::destinations::TaryDestination;
use crate::config::Config;
use crate::content::Content;
use crate::text::{copy_opt_text, opt_text, or_empty};
use crate::time::{chrono_display, display_time, LocalTime};

verus! {

/// The console destination.
pub struct Console {
    /// The file to append to; standard output where `None`.
    pub dest: Option<String>,
}

/// What happened on the item channel.
pub enum ConsoleEvent {
    Received(Content),
    /// The channel closed or failed.
    Closed,
}

/// What the console asks to be done.
pub enum ConsoleAction {
    /// Write `text` and a line break, appending to the file `path` (created
    /// where missing), or to standard output where `path` is `None`.
    Write { text: String, path: Option<String> },
    /// Stop listening.
    Stop,
}

/// A time as shown on the console (nothing where `chrono` refuses it).
pub open spec fn shown_time(t: LocalTime) -> Seq<char> {
    or_empty(chrono_display(t.secs, t.nanos, t.offset))
}

/// The text block for an item:
/// `[KIND] Date: <date>\nFrom: <source>\nDue: <due>\nDestination: <dest> \n\t<text>`,
/// where a missing due date or addressee reads `Unspecified`.
pub open spec fn spec_console_text(c: Content) -> Seq<char> {
    let due = match c.due {
        Some(d) => shown_time(d),
        None => "Unspecified"@,
    };
    let dest = match c.dest {
        Some(d) => d@,
        None => "Unspecified"@,
    };
    "["@ + c.content_type.label() + "] Date: "@ + shown_time(c.date) + "\nFrom: "@ + c.source@
        + "\nDue: "@ + due + "\nDestination: "@ + dest + " \n\t"@ + c.content@
}

/// The console is set up exactly when its section is present and enabled,
/// and then writes to the configured file, or to standard output without
/// one. Nothing else in the configuration matters.
pub proof fn law_console_init(cfg: Config, other: Config, r: Option<Console>)
    requires
        Console::spec_init(cfg, r),
        other.destinations.console == cfg.destinations.console,
    ensures
        r is Some <==> (cfg.destinations.console matches Some(c) && c.enabled),
        r matches Some(con) ==> opt_text(con.dest) == opt_text(cfg.destinations.console.unwrap().output),
        Console::spec_init(other, r),
{
}

/// `t` occurs somewhere in `s`.
pub open spec fn occurs_in(t: Seq<char>, s: Seq<char>) -> bool {
    exists|k: int| 0 <= k && k + t.len() <= s.len() && #[trigger] s.subrange(k, k + t.len()) == t
}

proof fn lemma_split(a: Seq<char>, b: Seq<char>, c: Seq<char>)
    ensures
        occurs_in(b, a + b + c),
        a.is_prefix_of(a + b + c),
        c.is_suffix_of(a + b + c),
{
    let s = a + b + c;
    assert(s.subrange(a.len() as int, (a.len() + b.len()) as int) =~= b);
    assert(s.subrange(0, a.len() as int) =~= a);
    assert(s.subrange(s.len() - c.len(), s.len() as int) =~= c);
}

proof fn lemma_block(
    h: Seq<char>,
    l1: Seq<char>,
    due: Seq<char>,
    l2: Seq<char>,
    dest: Seq<char>,
    l3: Seq<char>,
    body: Seq<char>,
)
    ensures
        occurs_in(l1 + due + l2, h + l1 + due + l2 + dest + l3 + body),
        (h + l1).is_prefix_of(h + l1 + due + l2 + dest + l3 + body),
        (l2 + dest + l3 + body).is_suffix_of(h + l1 + due + l2 + dest + l3 + body),
{
    let t = h + l1 + due + l2 + dest + l3 + body;
    assert(t =~= h + (l1 + due + l2) + (dest + l3 + body));
    lemma_split(h, l1 + due + l2, dest + l3 + body);
    assert(t =~= (h + l1) + Seq::<char>::empty() + (due + l2 + dest + l3 + body));
    lemma_split(h + l1, Seq::<char>::empty(), due + l2 + dest + l3 + body);
    assert(t =~= (h + l1 + due) + Seq::<char>::empty() + (l2 + dest + l3 + body));
    lemma_split(h + l1 + due, Seq::<char>::empty(), l2 + dest + l3 + body);
}

/// The text block names the kind, the date and the source first; it shows
/// the due date, or `Unspecified` without one, whatever the addressee; and it
/// ends with the addressee, or `Unspecified` without one, whatever the due
/// date, followed by the text on an indented line.
pub proof fn law_console_text(c: Content)
    ensures
        ({
            let text = spec_console_text(c);
            &&& ("["@ + c.content_type.label() + "] Date: "@ + shown_time(c.date) + "\nFrom: "@
                + c.source@ + "\nDue: "@).is_prefix_of(text)
            &&& c.due matches Some(d) ==> occurs_in("\nDue: "@ + shown_time(d) + "\nDestination: "@, text)
            &&& c.due is None ==> occurs_in("\nDue: "@ + "Unspecified"@ + "\nDestination: "@, text)
            &&& c.dest matches Some(d) ==> ("\nDestination: "@ + d@ + " \n\t"@ + c.content@).is_suffix_of(text)
            &&& c.dest is None ==> ("\nDestination: "@ + "Unspecified"@ + " \n\t"@ + c.content@).is_suffix_of(
                text,
            )
        }),
{
    let due = match c.due {
        Some(d) => shown_time(d),
        None => "Unspecified"@,
    };
    let dest = match c.dest {
        Some(d) => d@,
        None => "Unspecified"@,
    };
    let head = "["@ + c.content_type.label() + "] Date: "@ + shown_time(c.date) + "\nFrom: "@ + c.source@;
    lemma_block(head, "\nDue: "@, due, "\nDestination: "@, dest, " \n\t"@, c.content@);
}

fn append_time(s: &mut String, t: &LocalTime)
    ensures
        final(s)@ == old(s)@ + shown_time(*t),
{
    match display_time(t) {
        Some(text) => s.append(text.as_str()),
        None => {},
    }
}

impl Console {
    /// The console set up from the configuration: present when the console
    /// section is present and enabled, writing to its output file if it names
    /// one.
    pub open spec fn spec_init(cfg: Config, r: Option<Console>) -> bool {
        match cfg.destinations.console {
            Some(c) => if c.enabled {
                r matches Some(con) && opt_text(con.dest) == opt_text(c.output)
            } else {
                r is None
            },
            None => r is None,
        }
    }


    /// The text block written for an item (see `spec_console_text`).
    pub fn text(c: &Content) -> (s: String)
        ensures
            s@ == spec_console_text(*c),
    {
        let mut s = String::from_str("[");
        s.append(c.content_type.to_string().as_str());
        s.append("] Date: ");
        append_time(&mut s, &c.date);
        s.append("\nFrom: ");
        s.append(c.source.as_str());
        s.append("\nDue: ");
        match &c.due {
            Some(d) => append_time(&mut s, d),
            None => s.append("Unspecified"),
        }
        s.append("\nDestination: ");
        match &c.dest {
            Some(d) => s.append(d.as_str()),
            None => s.append("Unspecified"),
        }
        s.append(" \n\t");
        s.append(c.content.as_str());
        s
    }

    /// The console's response to an event on the item channel: write the
    /// item's text block to its output, or stop once the channel is closed.
    pub fn on_event(&self, event: ConsoleEvent) -> (a: ConsoleAction)
        ensures
            match event {
                ConsoleEvent::Received(c) => a matches ConsoleAction::Write { text, path } && text@
                    == spec_console_text(c) && opt_text(path) == opt_text(self.dest),
                ConsoleEvent::Closed => a is Stop,
            },
    {
        match event {
            ConsoleEvent::Received(c) => ConsoleAction::Write {
                text: Self::text(&c),
                path: copy_opt_text(&self.dest),
            },
            ConsoleEvent::Closed => ConsoleAction::Stop,
        }
    }
}

impl TaryDestination for Console {
    /// Sets the console up from the configuration (see `spec_init`).
    fn init(cfg: &Config) -> (r: Option<Self>)
        ensures
            Self::spec_init(*cfg, r),
    {
        match &cfg.destinations.console {
            Some(c) => {
                if c.enabled {
                    Some(Console { dest: copy_opt_text(&c.output) })
                } else {
                    None
                }
            },
            None => None,
        }
    }
}

} // verus!
