//! The chat source: who may send items, and how a sender and a todo are
//! named.

use vstd::prelude::*;
use crate::content::{Content, ContentType};
use crate::text::opt_text;
use crate::time::valid_offset;

verus! {

/// The chat source.
pub struct Telegram {
    /// The only user whose messages are taken; anyone's where `None`.
    pub allowed_user: Option<u64>,
}

/// The name shown for a sender: `@username` where there is one; otherwise the
/// first name, a space when there is no last name (none when there is one),
/// and the last name.
pub open spec fn spec_sender_name(username: Option<Seq<char>>, first_name: Seq<char>, last_name: Option<Seq<char>>) -> Seq<char> {
    match username {
        Some(n) => "@"@ + n,
        None => {
            let l = match last_name {
                Some(l) => l,
                None => Seq::empty(),
            };
            first_name + (if l.len() != 0 { Seq::empty() } else { " "@ }) + l
        },
    }
}

/// With a username, a sender is named `@<username>`, whatever their first
/// and last names. Without one, the name starts with the first name and ends
/// with the last name; a single space stands between them when the last name
/// is missing or empty, and nothing when it is given.
pub proof fn law_sender_name(
    username: Option<Seq<char>>,
    first_name: Seq<char>,
    last_name: Option<Seq<char>>,
    other_first: Seq<char>,
    other_last: Option<Seq<char>>,
)
    ensures
        username matches Some(n) ==> {
            &&& spec_sender_name(username, first_name, last_name) == "@"@ + n
            &&& spec_sender_name(username, first_name, last_name) == spec_sender_name(
                username,
                other_first,
                other_last,
            )
        },
        username is None ==> first_name.is_prefix_of(spec_sender_name(username, first_name, last_name)),
        username is None ==> match last_name {
            Some(l) => l.len() > 0 ==> spec_sender_name(username, first_name, last_name) == first_name
                + l,
            None => true,
        },
        username is None && (last_name is None || last_name == Some(Seq::<char>::empty()))
            ==> spec_sender_name(username, first_name, last_name) == first_name + " "@,
{
    if username is None {
        let l = match last_name {
            Some(l) => l,
            None => Seq::<char>::empty(),
        };
        let name = spec_sender_name(username, first_name, last_name);
        let gap: Seq<char> = if l.len() != 0 { Seq::empty() } else { " "@ };
        assert(name == first_name + gap + l);
        assert(name.subrange(0, first_name.len() as int) =~= first_name);
        if l.len() != 0 {
            assert(first_name + Seq::<char>::empty() =~= first_name);
        } else {
            assert(" "@ + l =~= " "@);
            assert(first_name + " "@ + l =~= first_name + " "@);
        }
    }
}

impl Telegram {
    /// Messages from `user` are taken.
    pub fn accepts(&self, user: u64) -> (b: bool)
        ensures
            b == (self.allowed_user is None || self.allowed_user == Some(user)),
    {
        match self.allowed_user {
            None => true,
            Some(u) => u == user,
        }
    }

    /// The name shown for a sender (see `spec_sender_name`).
    pub fn sender_name(username: &Option<String>, first_name: &str, last_name: &Option<String>) -> (s: String)
        ensures
            s@ == spec_sender_name(opt_text(*username), first_name@, opt_text(*last_name)),
    {
        match username {
            Some(n) => {
                let mut s = String::from_str("@");
                s.append(n.as_str());
                s
            },
            None => {
                let mut s = String::from_str(first_name);
                match last_name {
                    Some(l) => {
                        if l.unicode_len() == 0 {
                            s.append(" ");
                        }
                        s.append(l.as_str());
                    },
                    None => {
                        s.append(" ");
                    },
                }
                s
            },
        }
    }

    /// The todo made from a chat message: from the source
    /// `Telegram - <sender>`, with the message's text, dated now.
    pub fn todo_content(sender: &str, text: String) -> (c: Content)
        ensures
            c.content_type == ContentType::Todo,
            c.source@ == "Telegram - "@ + sender@,
            c.content@ == text@,
            c.dest is None,
            c.due is None,
            valid_offset(c.date.offset),
    {
        let mut source = String::from_str("Telegram - ");
        source.append(sender);
        let mut c = Content::new(ContentType::Todo, source, None);
        c.content = text;
        c
    }
}

} // verus!
