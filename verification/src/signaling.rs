//! The signaling handshake.
//!
//! The client opens the exchange by asking to watch.  The server answers with
//! control messages, each a JSON object with a `type`: a `ping` is answered
//! with a pong, a `messageServer` names the URI of the chat data and ends the
//! handshake, a `stream` names a URI that serves only while no `messageServer`
//! has arrived.  Everything else is passed over.

use vstd::prelude::*;
use vstd::string::StringExecFns;
use crate::json::json_document;
use crate::text::same_text;
use crate::text::text_of;

verus! {

/// The request that opens the exchange.
pub const START_WATCHING: &'static str =
    "{\"type\":\"startWatching\",\"data\":{\"stream\":{\"quality\":\"super_high\",\"latency\":\"low\",\"chasePlay\":false},\"reconnect\":false}}";

/// The answer to a ping.
pub const PONG: &'static str = "{\"type\":\"pong\"}";

/// Where a control message holds its type, as a JSON Pointer.
pub const TYPE_POINTER: &'static str = "/type";

/// Where a `messageServer` message holds the URI of the chat data.
pub const VIEW_URI_POINTER: &'static str = "/data/viewUri";

/// Where a `stream` message holds its URI.
pub const STREAM_URI_POINTER: &'static str = "/data/uri";

/// What a session reads of one control message.  A field is `None` where the
/// message has no string at that place.
#[derive(Clone, Debug, PartialEq, Eq)]
pub struct ControlMessage {
    pub kind: Option<String>,
    pub view_uri: Option<String>,
    pub stream_uri: Option<String>,
}

/// A control message as specifications see it.
pub struct ControlView {
    pub kind: Option<Seq<char>>,
    pub view_uri: Option<Seq<char>>,
    pub stream_uri: Option<Seq<char>>,
}

impl View for ControlMessage {
    type V = ControlView;

    open spec fn view(&self) -> ControlView {
        ControlView {
            kind: text_of(self.kind),
            view_uri: text_of(self.view_uri),
            stream_uri: text_of(self.stream_uri),
        }
    }
}

/// The string at `pointer` among the strings of a document.
pub open spec fn lookup(strings: Map<Seq<char>, Seq<char>>, pointer: Seq<char>) -> Option<
    Seq<char>,
> {
    if strings.contains_key(pointer) {
        Some(strings[pointer])
    } else {
        None
    }
}

/// What a session reads of the document with the given strings.
pub open spec fn control_of(strings: Map<Seq<char>, Seq<char>>) -> ControlView {
    ControlView {
        kind: lookup(strings, TYPE_POINTER@),
        view_uri: lookup(strings, VIEW_URI_POINTER@),
        stream_uri: lookup(strings, STREAM_URI_POINTER@),
    }
}

/// The words that report the end of the handshake.
pub const CONNECTED: &'static str = "Connected to Message Server";

/// What the connection delivered.
#[derive(Clone, Debug, PartialEq, Eq)]
pub enum InboundFrame {
    /// A text frame.
    Text(String),
    /// A frame of another kind.
    Other,
    /// No frame: the connection failed, and these are the transport's words.
    Failed(String),
}

/// Why the handshake failed.
#[derive(Clone, Debug, PartialEq, Eq)]
pub enum SignalError {
    /// A text frame is not JSON; `message` holds the parser's words.
    BadMessage { message: String },
    /// The connection failed; `message` holds the transport's words.
    Transport { message: String },
    /// The exchange ended before the server named a URI.
    NoViewUri,
}

/// What the caller does after a frame.
#[derive(Clone, Debug, PartialEq, Eq)]
pub enum SignalStep {
    /// The session was cancelled: leave, without an error.
    Cancelled,
    /// Send this text, then wait for the next frame.
    Reply(String),
    /// The handshake is over: stop reading.
    Resolved,
    /// Wait for the next frame.
    Continue,
}

/// A step as specifications see it.
pub enum StepView {
    Cancelled,
    Reply(Seq<char>),
    Resolved,
    Continue,
}

impl View for SignalStep {
    type V = StepView;

    open spec fn view(&self) -> StepView {
        match self {
            SignalStep::Cancelled => StepView::Cancelled,
            SignalStep::Reply(text) => StepView::Reply(text@),
            SignalStep::Resolved => StepView::Resolved,
            SignalStep::Continue => StepView::Continue,
        }
    }
}

/// The step that a control message asks for while the session runs.
pub open spec fn step_for(msg: ControlView) -> StepView {
    if msg.kind == Some("ping"@) {
        StepView::Reply(PONG@)
    } else if msg.kind == Some("messageServer"@) {
        StepView::Resolved
    } else {
        StepView::Continue
    }
}

/// The URI on record after a control message, given the one on record before
/// it.  A `messageServer` message sets it, to nothing where it names none; a
/// `stream` message sets it only while nothing is on record.
pub open spec fn recorded_after(recorded: Seq<char>, msg: ControlView) -> Seq<char> {
    if msg.kind == Some("ping"@) {
        recorded
    } else if msg.kind == Some("messageServer"@) {
        match msg.view_uri {
            Some(uri) => uri,
            None => Seq::empty(),
        }
    } else if msg.kind == Some("stream"@) {
        match msg.stream_uri {
            Some(uri) => if recorded.len() == 0 {
                uri
            } else {
                recorded
            },
            None => recorded,
        }
    } else {
        recorded
    }
}

/// The state of one handshake: the URI of the chat data that the server has
/// named so far, empty while it has named none.
pub struct SignalingSession {
    view_uri: String,
}

impl View for SignalingSession {
    type V = Seq<char>;

    closed spec fn view(&self) -> Seq<char> {
        self.view_uri@
    }
}

impl SignalError {
    /// The error in words.
    pub fn message(&self) -> (m: String)
        ensures
            m@ == match self {
                SignalError::BadMessage { message } => message@,
                SignalError::Transport { message } => message@,
                SignalError::NoViewUri => "No View URI received"@,
            },
    {
        match self {
            SignalError::BadMessage { message } => message.clone(),
            SignalError::Transport { message } => message.clone(),
            SignalError::NoViewUri => String::from_str("No View URI received"),
        }
    }
}

impl ControlMessage {
    /// Reads a control message from the text of a frame.
    pub fn from_text(text: &str) -> (r: Result<ControlMessage, SignalError>)
        ensures
            match json_document(text@) {
                Some(strings) => r matches Ok(msg) && msg@ == control_of(strings),
                None => r matches Err(SignalError::BadMessage { .. }),
            },
    {
        match crate::json::parse(text) {
            Ok(document) => Ok(
                ControlMessage {
                    kind: crate::json::string_at(&document, TYPE_POINTER),
                    view_uri: crate::json::string_at(&document, VIEW_URI_POINTER),
                    stream_uri: crate::json::string_at(&document, STREAM_URI_POINTER),
                },
            ),
            Err(e) => Err(SignalError::BadMessage { message: crate::json::error_text(&e) }),
        }
    }

    fn is_kind(&self, kind: &str) -> (r: bool)
        ensures
            r == (self@.kind == Some(kind@)),
    {
        match &self.kind {
            Some(k) => same_text(k.as_str(), kind),
            None => false,
        }
    }
}

impl SignalingSession {
    /// A handshake in which the server has named no URI yet.
    pub fn new() -> (s: Self)
        ensures
            s@ == Seq::<char>::empty(),
    {
        SignalingSession { view_uri: String::new() }
    }

    /// Handles one control message.  `running` is the session's flag as read
    /// when the frame arrived: once it is down nothing is read of the
    /// message.
    pub fn on_message(&mut self, running: bool, msg: &ControlMessage) -> (step: SignalStep)
        ensures
            !running ==> step@ == StepView::Cancelled && final(self)@ == old(self)@,
            running ==> step@ == step_for(msg@) && final(self)@ == recorded_after(
                old(self)@,
                msg@,
            ),
    {
        if !running {
            return SignalStep::Cancelled;
        }
        if msg.is_kind("ping") {
            SignalStep::Reply(String::from_str(PONG))
        } else if msg.is_kind("messageServer") {
            self.view_uri = match &msg.view_uri {
                Some(uri) => uri.clone(),
                None => String::new(),
            };
            SignalStep::Resolved
        } else if msg.is_kind("stream") {
            if let Some(uri) = &msg.stream_uri {
                if self.view_uri.as_str().is_empty() {
                    self.view_uri = uri.clone();
                }
            }
            SignalStep::Continue
        } else {
            SignalStep::Continue
        }
    }

    /// Handles the text of one frame.  A text that is not JSON ends the
    /// handshake with an error, unless the session was cancelled before.
    pub fn on_text(&mut self, running: bool, text: &str) -> (r: Result<SignalStep, SignalError>)
        ensures
            !running ==> (r matches Ok(step) && step@ == StepView::Cancelled && final(self)@
                == old(self)@),
            running ==> match json_document(text@) {
                Some(strings) => r matches Ok(step) && step@ == step_for(control_of(strings))
                    && final(self)@ == recorded_after(old(self)@, control_of(strings)),
                None => r matches Err(SignalError::BadMessage { .. })
                    && final(self)@ == old(self)@,
            },
    {
        if !running {
            return Ok(SignalStep::Cancelled);
        }
        match ControlMessage::from_text(text) {
            Ok(msg) => Ok(self.on_message(true, &msg)),
            Err(e) => Err(e),
        }
    }

    /// Handles what the connection delivered.  The session's flag is looked
    /// at first: once it is down nothing is read, not even a failure of the
    /// connection.  Only text frames carry control messages.
    pub fn on_frame(&mut self, running: bool, frame: &InboundFrame) -> (r: Result<
        SignalStep,
        SignalError,
    >)
        ensures
            !running ==> (r matches Ok(step) && step@ == StepView::Cancelled && final(self)@
                == old(self)@),
            running ==> match frame {
                InboundFrame::Text(text) => match json_document(text@) {
                    Some(strings) => r matches Ok(step) && step@ == step_for(control_of(strings))
                        && final(self)@ == recorded_after(old(self)@, control_of(strings)),
                    None => r matches Err(SignalError::BadMessage { .. })
                        && final(self)@ == old(self)@,
                },
                InboundFrame::Other => r matches Ok(step) && step@ == StepView::Continue
                    && final(self)@ == old(self)@,
                InboundFrame::Failed(message) => r matches Err(
                    SignalError::Transport { message: m },
                ) && m == message && final(self)@ == old(self)@,
            },
    {
        if !running {
            return Ok(SignalStep::Cancelled);
        }
        match frame {
            InboundFrame::Text(text) => self.on_text(true, text.as_str()),
            InboundFrame::Other => Ok(SignalStep::Continue),
            InboundFrame::Failed(message) => Err(
                SignalError::Transport { message: message.clone() },
            ),
        }
    }

    /// Ends the handshake, when a message resolved it or the server closed
    /// the connection: the URI of the chat data, or the error that none was
    /// named.
    pub fn finish(self) -> (r: Result<String, SignalError>)
        ensures
            self@.len() > 0 ==> (r matches Ok(uri) && uri@ == self@),
            self@.len() == 0 ==> r matches Err(SignalError::NoViewUri),
    {
        if self.view_uri.as_str().is_empty() {
            Err(SignalError::NoViewUri)
        } else {
            Ok(self.view_uri)
        }
    }
}

} // verus!
