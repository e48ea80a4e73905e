//! What a session reports to its listener.
//!
//! Chat lines and notifications travel on one channel.  A notification is told
//! from a chat line, and its severity is told, by its author: `System` for
//! milestones and errors of the session, `Fatal` for a properties document
//! that cannot be read, `Debug` for the failure of one segment.

use vstd::prelude::*;
use vstd::string::StringExecFns;

verus! {

/// An event as specifications see it: the two texts.
pub struct EventView {
    pub author: Seq<char>,
    pub message: Seq<char>,
}

/// One chat line.
#[derive(Clone, Debug, PartialEq, Eq)]
pub struct CommentEvent {
    pub author: String,
    pub message: String,
}

impl View for CommentEvent {
    type V = EventView;

    open spec fn view(&self) -> EventView {
        EventView { author: self.author@, message: self.message@ }
    }
}

/// One notification of the session itself.
#[derive(Clone, Debug, PartialEq, Eq)]
pub struct SystemEvent {
    pub author: String,
    pub message: String,
}

impl View for SystemEvent {
    type V = EventView;

    open spec fn view(&self) -> EventView {
        EventView { author: self.author@, message: self.message@ }
    }
}

impl SystemEvent {
    /// A milestone of the session.
    pub fn system(message: &str) -> (e: SystemEvent)
        ensures
            e@ == (EventView { author: "System"@, message: message@ }),
    {
        SystemEvent { author: String::from_str("System"), message: String::from_str(message) }
    }

    /// The notification that the session ended with an error.
    pub fn error(reason: &str) -> (e: SystemEvent)
        ensures
            e@ == (EventView { author: "System"@, message: "Error: "@ + reason@ }),
    {
        let mut message = String::from_str("Error: ");
        message.append(reason);
        SystemEvent { author: String::from_str("System"), message }
    }

    /// The notification that the properties document of the page is no JSON.
    /// It carries the parser's words and the given part of the document.
    pub fn fatal_json(parser_message: &str, snippet: &str) -> (e: SystemEvent)
        ensures
            e@ == (EventView {
                author: "Fatal"@,
                message: "JSON Parse Error: "@ + parser_message@ + " | Content: "@ + snippet@,
            }),
    {
        let mut message = String::from_str("JSON Parse Error: ");
        message.append(parser_message);
        message.append(" | Content: ");
        message.append(snippet);
        SystemEvent { author: String::from_str("Fatal"), message }
    }

    /// The notification that one segment could not be read to its end.
    pub fn segment_error(reason: &str) -> (e: SystemEvent)
        ensures
            e@ == (EventView { author: "Debug"@, message: "Segment Error: "@ + reason@ }),
    {
        let mut message = String::from_str("Segment Error: ");
        message.append(reason);
        SystemEvent { author: String::from_str("Debug"), message }
    }
}

} // verus!
