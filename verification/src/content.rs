//! Items created by the sources and delivered to the destinations.

use vstd::prelude::*;
use crate::time::{clock_now, valid_offset, LocalTime};

verus! {

/// What kind of item a piece of content is.
#[derive(Clone, Copy, Debug, PartialEq, Eq, Structural)]
pub enum ContentType {
    Todo,
}

impl ContentType {
    /// The name under which the kind is shown.
    pub open spec fn label(&self) -> Seq<char> {
        match self {
            ContentType::Todo => "TODO"@,
        }
    }

    /// A todo is shown as the four letters `TODO`.
    pub proof fn law_label()
        ensures
            ContentType::Todo.label() =~= seq!['T', 'O', 'D', 'O'],
    {
        reveal_strlit("TODO");
    }

    /// The name under which the kind is shown (`"TODO"` for a todo).
    pub fn to_string(&self) -> (s: String)
        ensures
            s@ == self.label(),
    {
        match self {
            ContentType::Todo => String::from_str("TODO"),
        }
    }
}

/// One item travelling from a source to the destinations.
#[derive(Clone, Debug)]
pub struct Content {
    pub content_type: ContentType,
    /// Which source made it.
    pub source: String,
    /// Whom it is meant for, where known.
    pub dest: Option<String>,
    /// When it was made.
    pub date: LocalTime,
    /// When it is due, where known.
    pub due: Option<LocalTime>,
    /// Its text.
    pub content: String,
}

impl Content {
    /// A new item of kind `ctype` from the source `src`, with no text, no
    /// addressee and no due date. Its date is `date`, or the current time
    /// where `date` is `None`.
    pub fn new(ctype: ContentType, src: String, date: Option<LocalTime>) -> (c: Content)
        ensures
            c.content_type == ctype,
            c.source == src,
            c.dest is None,
            c.due is None,
            c.content@ == Seq::<char>::empty(),
            date matches Some(d) ==> c.date == d,
            date is None ==> valid_offset(c.date.offset) && c.date.nanos < 2_000_000_000,
    {
        let date = match date {
            Some(d) => d,
            None => clock_now(),
        };
        Content {
            content_type: ctype,
            source: src,
            dest: None,
            date: date,
            due: None,
            content: String::new(),
        }
    }
}

} // verus!
