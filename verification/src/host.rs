//! The host bridge: a display capability that the host environment supplies,
//! and the exported `greet` operation, which resolves an optional name,
//! formats the greeting, and invokes the display exactly once.

use vstd::prelude::*;
use crate::greeting::{greeting_seq, resolved_name, option_view, greeting_for};

verus! {

/// The character sequences held by a sequence of owned strings.
pub open spec fn views_of(messages: Seq<String>) -> Seq<Seq<char>> {
    messages.map_values(|m: String| m@)
}

/// A host-supplied display capability. The host environment implements it;
/// `displayed()` models the messages it has shown so far, oldest first, and
/// each call of `display` shows exactly one more.
pub trait HostDisplay {
    /// The messages this display has shown so far, oldest first.
    spec fn displayed(&self) -> Seq<Seq<char>>;

    /// Shows one message.
    fn display(&mut self, message: &str)
        ensures
            final(self).displayed() == old(self).displayed().push(message@),
    ;
}

/// A display that keeps every message it is handed, so that behaviour at the
/// host boundary can be observed in tests.
pub struct RecordingDisplay {
    messages: Vec<String>,
}

impl RecordingDisplay {
    /// A fresh display that has shown nothing yet.
    pub fn new() -> (r: RecordingDisplay)
        ensures
            r.displayed() == Seq::<Seq<char>>::empty(),
    {
        let r = RecordingDisplay { messages: Vec::new() };
        proof {
            assert(r.displayed() =~= Seq::<Seq<char>>::empty());
        }
        r
    }

    /// The messages shown so far, oldest first.
    pub fn messages(&self) -> (r: &Vec<String>)
        ensures
            views_of(r@) == self.displayed(),
    {
        &self.messages
    }
}

impl HostDisplay for RecordingDisplay {
    closed spec fn displayed(&self) -> Seq<Seq<char>> {
        views_of(self.messages@)
    }

    fn display(&mut self, message: &str) {
        self.messages.push(message.to_owned());
        proof {
            assert(self.displayed() =~= old(self).displayed().push(message@));
        }
    }
}

/// Greets: if the name is absent the default is greeted instead, and the
/// formatted greeting is handed to the host display, exactly once.
pub fn greet<D: HostDisplay>(name: Option<String>, host: &mut D)
    ensures
        final(host).displayed() == old(host).displayed().push(
            greeting_seq(resolved_name(option_view(name))),
        ),
{
    let message = greeting_for(name);
    host.display(message.as_str());
}

} // verus!
