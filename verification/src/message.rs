//! The decoded records of the two channels, as far as a session reads them.

use vstd::prelude::*;

verus! {

/// One record of the top-level stream.
#[derive(Clone, Debug, PartialEq, Eq)]
pub enum ChunkedEntry {
    /// The position from which the next poll continues.
    Next { at: i64 },
    /// A segment of live messages, to be fetched from `uri`.
    Segment { uri: String },
    /// A segment of earlier messages.
    Previous { uri: String },
    /// Any other record.
    Other,
}

/// A top-level record as specifications see it.
pub enum EntryView {
    Next { at: int },
    Segment { uri: Seq<char> },
    Previous { uri: Seq<char> },
    Other,
}

impl View for ChunkedEntry {
    type V = EntryView;

    open spec fn view(&self) -> EntryView {
        match self {
            ChunkedEntry::Next { at } => EntryView::Next { at: *at as int },
            ChunkedEntry::Segment { uri } => EntryView::Segment { uri: uri@ },
            ChunkedEntry::Previous { uri } => EntryView::Previous { uri: uri@ },
            ChunkedEntry::Other => EntryView::Other,
        }
    }
}

/// One chat line as the segment stream carries it.
#[derive(Clone, Debug, PartialEq, Eq)]
pub struct Chat {
    pub name: String,
    pub hashed_user_id: String,
    pub content: String,
}

/// A chat line as specifications see it.
pub struct ChatView {
    pub name: Seq<char>,
    pub hashed_user_id: Seq<char>,
    pub content: Seq<char>,
}

impl View for Chat {
    type V = ChatView;

    open spec fn view(&self) -> ChatView {
        ChatView {
            name: self.name@,
            hashed_user_id: self.hashed_user_id@,
            content: self.content@,
        }
    }
}

/// What a record of a segment stream carries.
#[derive(Clone, Debug, PartialEq, Eq)]
pub enum Payload {
    /// A chat line.
    Chat(Chat),
    /// Anything else, or nothing.
    Other,
}

/// A payload as specifications see it.
pub enum PayloadView {
    Chat(ChatView),
    Other,
}

impl View for Payload {
    type V = PayloadView;

    open spec fn view(&self) -> PayloadView {
        match self {
            Payload::Chat(chat) => PayloadView::Chat(chat@),
            Payload::Other => PayloadView::Other,
        }
    }
}

/// One record of a segment stream: the identifier under which the message is
/// known, where it has one, and its payload.
#[derive(Clone, Debug, PartialEq, Eq)]
pub struct ChunkedMessage {
    pub id: Option<String>,
    pub payload: Payload,
}

/// A segment record as specifications see it.
pub struct MessageView {
    pub id: Option<Seq<char>>,
    pub payload: PayloadView,
}

impl View for ChunkedMessage {
    type V = MessageView;

    open spec fn view(&self) -> MessageView {
        MessageView {
            id: match self.id {
                Some(id) => Some(id@),
                None => None,
            },
            payload: self.payload@,
        }
    }
}

} // verus!
