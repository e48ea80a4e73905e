//! Finding the signaling endpoint in the viewer page.
//!
//! The page embeds a properties document, either as the body of the script
//! element with the id `embedded-data` or, percent-encoded and with its quotes
//! written as `&quot;`, in a `data-props` attribute.  The document is JSON and
//! names the WebSocket URL of the signaling server.

use vstd::prelude::*;
use vstd::string::StringExecFns;
use vstd::string::StringSliceAdditionalSpecFns;
use vstd::utf8::decode_utf8;
use vstd::utf8::encode_utf8;
use vstd::utf8::encode_utf8_decode_utf8;
use vstd::utf8::encode_utf8_valid_utf8;
use vstd::utf8::valid_utf8;
use crate::event::EventView;
use crate::event::SystemEvent;
use crate::json::json_document;
use crate::pattern::first_group;
use crate::percent::lemma_plain_bytes_stay;
use crate::percent::percent_decoded;
use crate::text::leading;
use crate::text::text_of;
use crate::text::trimmed;
use crate::text::unescaped;

verus! {

/// The user agent sent with the request for the page.  The server may turn
/// away the default agent of an HTTP library.
pub const USER_AGENT: &'static str =
    "Mozilla/5.0 (Windows NT 10.0; Win64; x64) AppleWebKit/537.36 (KHTML, like Gecko) Chrome/120.0.0.0 Safari/537.36";

/// The script element that holds the properties; group 1 is its body.
pub const SCRIPT_PATTERN: &'static str =
    "<script[^>]+id=\"embedded-data\"[^>]*>([\\s\\S]*?)</script>";

/// The attribute that holds the properties; group 1 is its value.
pub const ATTRIBUTE_PATTERN: &'static str = "data-props=\"([^\"]+)\"";

/// Where the properties document names the signaling URL, as a JSON Pointer.
pub const WEBSOCKET_URL_POINTER: &'static str = "/site/relive/webSocketUrl";

/// The words that report that the document names the signaling URL.
pub const WEBSOCKET_URL_FOUND: &'static str = "WebSocket URL found";

/// How many characters of a document that is no JSON are reported.
pub const SNIPPET_CHARS: usize = 200;

/// Where the properties document was found.
#[derive(Clone, Copy, Debug, PartialEq, Eq, Structural)]
pub enum PropsSource {
    /// In the body of the script element.
    ScriptTag,
    /// In the attribute; the page has no script element.
    Attribute,
    /// In the attribute, because the script element is empty.
    AttributeFallback,
}

/// The properties document as it stands in the page.
#[derive(Clone, Debug, PartialEq, Eq)]
pub struct EmbeddedProps {
    pub text: String,
    pub source: PropsSource,
}

/// Why no signaling endpoint was found.
#[derive(Clone, Debug, PartialEq, Eq)]
pub enum BootstrapError {
    /// The page has neither the script element nor the attribute.
    NoEmbeddedData,
    /// The script element is empty and the page has no attribute.
    EmptyEmbeddedData,
    /// The attribute's value, percent-decoded, is not UTF-8.
    AttributeEncoding { message: String },
    /// The properties document is not JSON.  `snippet` holds its first
    /// characters, never all of a long document.
    JsonParse { message: String, snippet: String },
    /// The document does not name the signaling URL.
    NoWebSocketUrl,
}

/// What the two searches of the page lead to.
pub enum PropsOutcome {
    Found { text: Seq<char>, source: PropsSource },
    Undecodable,
    Empty,
    Missing,
}

/// The document that an attribute value stands for: the value is
/// percent-decoded, then each `&quot;` becomes a double quote.  `None` where
/// the decoded bytes are not UTF-8.
pub open spec fn decoded_attribute(value: Seq<char>) -> Option<Seq<char>> {
    let bytes = percent_decoded(encode_utf8(value));
    if valid_utf8(bytes) {
        Some(unescaped(decode_utf8(bytes)))
    } else {
        None
    }
}

/// The choice between the two places.  A script body that is not empty once
/// trimmed wins; else the attribute is taken; else nothing was found.
pub open spec fn props_outcome(script: Option<Seq<char>>, attribute: Option<Seq<char>>)
    -> PropsOutcome {
    if script is Some && trimmed(script->0).len() > 0 {
        PropsOutcome::Found { text: trimmed(script->0), source: PropsSource::ScriptTag }
    } else {
        match attribute {
            Some(value) => match decoded_attribute(value) {
                Some(text) => PropsOutcome::Found {
                    text,
                    source: if script is Some {
                        PropsSource::AttributeFallback
                    } else {
                        PropsSource::Attribute
                    },
                },
                None => PropsOutcome::Undecodable,
            },
            None => if script is Some {
                PropsOutcome::Empty
            } else {
                PropsOutcome::Missing
            },
        }
    }
}

/// Whether `r` is the result that stands for `outcome`.
pub open spec fn reports(r: Result<EmbeddedProps, BootstrapError>, outcome: PropsOutcome) -> bool {
    match outcome {
        PropsOutcome::Found { text, source } => r matches Ok(props) && props.text@ == text
            && props.source == source,
        PropsOutcome::Undecodable => r matches Err(BootstrapError::AttributeEncoding { .. }),
        PropsOutcome::Empty => r matches Err(BootstrapError::EmptyEmbeddedData),
        PropsOutcome::Missing => r matches Err(BootstrapError::NoEmbeddedData),
    }
}

/// Whether `r` is the error that stands for `outcome`, an outcome without a
/// document.
pub open spec fn reports_failure(r: Result<String, BootstrapError>, outcome: PropsOutcome) -> bool {
    match outcome {
        PropsOutcome::Found { .. } => false,
        PropsOutcome::Undecodable => r matches Err(BootstrapError::AttributeEncoding { .. }),
        PropsOutcome::Empty => r matches Err(BootstrapError::EmptyEmbeddedData),
        PropsOutcome::Missing => r matches Err(BootstrapError::NoEmbeddedData),
    }
}

/// What the lookup of the signaling URL leads to, given what the parser made
/// of the document: the strings in it, or nothing where it is no JSON.
pub open spec fn url_outcome(
    r: Result<String, BootstrapError>,
    props: Seq<char>,
    document: Option<Map<Seq<char>, Seq<char>>>,
) -> bool {
    match document {
        Some(strings) => if strings.contains_key(WEBSOCKET_URL_POINTER@) {
            r matches Ok(url) && url@ == strings[WEBSOCKET_URL_POINTER@]
        } else {
            r matches Err(BootstrapError::NoWebSocketUrl)
        },
        None => r matches Err(BootstrapError::JsonParse { snippet, .. }) && snippet@ == leading(
            props,
            SNIPPET_CHARS as nat,
        ),
    }
}

/// A script body that holds anything but white space is chosen, whatever the
/// attribute holds and whether or not there is one.
pub proof fn law_script_body_wins(script: Seq<char>, attribute: Option<Seq<char>>)
    requires
        trimmed(script).len() > 0,
    ensures
        props_outcome(Some(script), attribute) == (PropsOutcome::Found {
            text: trimmed(script),
            source: PropsSource::ScriptTag,
        }),
{
}

/// The document that was found, wherever it was found.
pub open spec fn found_text(outcome: PropsOutcome) -> Option<Seq<char>> {
    match outcome {
        PropsOutcome::Found { text, .. } => Some(text),
        _ => None,
    }
}

/// An empty script body does not end the search: the attribute gives the
/// document that it would give on a page without the script element.
pub proof fn law_empty_script_falls_through(script: Seq<char>, attribute: Option<Seq<char>>)
    requires
        trimmed(script).len() == 0,
    ensures
        found_text(props_outcome(Some(script), attribute)) == found_text(
            props_outcome(None, attribute),
        ),
{
}

/// An attribute value without a `%` is taken as it stands, but for its quote
/// entities.
pub proof fn law_plain_attribute_is_unescaped_only(value: Seq<char>)
    requires
        !encode_utf8(value).contains(0x25),
    ensures
        decoded_attribute(value) == Some(unescaped(value)),
{
    lemma_plain_bytes_stay(encode_utf8(value));
    encode_utf8_valid_utf8(value);
    encode_utf8_decode_utf8(value);
}

/// What is reported while the endpoint is looked for, in order: where the
/// document was found, then either that it names the URL or, where it is no
/// JSON, the parser's words with the first characters of the document.
pub open spec fn discovery_events(source: PropsSource, r: Result<String, BootstrapError>) -> Seq<
    EventView,
> {
    let found = EventView { author: "System"@, message: found_message(source) };
    match r {
        Ok(_) => seq![found, EventView { author: "System"@, message: WEBSOCKET_URL_FOUND@ }],
        Err(BootstrapError::JsonParse { message, snippet }) => seq![
            found,
            EventView {
                author: "Fatal"@,
                message: "JSON Parse Error: "@ + message@ + " | Content: "@ + snippet@,
            },
        ],
        Err(_) => seq![found],
    }
}

/// The words that report where the document was found.
pub open spec fn found_message(source: PropsSource) -> Seq<char> {
    match source {
        PropsSource::ScriptTag => "Found embedded-data in script tag"@,
        PropsSource::Attribute => "Found embedded-data in data-props attribute"@,
        PropsSource::AttributeFallback => "Found embedded-data in data-props attribute (fallback)"@,
    }
}

/// The views of the events, in order.
pub open spec fn event_views(events: Seq<SystemEvent>) -> Seq<EventView> {
    events.map_values(|e: SystemEvent| e@)
}

/// The outcome of looking for the endpoint in a page: what to report, in
/// order, and the URL or the error that ends the session.
#[derive(Debug, PartialEq, Eq)]
pub struct Discovery {
    pub events: Vec<SystemEvent>,
    pub result: Result<String, BootstrapError>,
}

impl EmbeddedProps {
    /// The milestone to report once the document is found.
    pub fn found_event(&self) -> (e: SystemEvent)
        ensures
            e@ == (EventView { author: "System"@, message: found_message(self.source) }),
    {
        match self.source {
            PropsSource::ScriptTag => SystemEvent::system("Found embedded-data in script tag"),
            PropsSource::Attribute => SystemEvent::system(
                "Found embedded-data in data-props attribute",
            ),
            PropsSource::AttributeFallback => SystemEvent::system(
                "Found embedded-data in data-props attribute (fallback)",
            ),
        }
    }
}

impl BootstrapError {
    /// The error in words.  For a value that does not decode and for a
    /// document that does not parse, these are the words of the decoder and
    /// of the parser.
    pub fn message(&self) -> (m: String)
        ensures
            m@ == match self {
                BootstrapError::NoEmbeddedData => "Could not find embedded-data"@,
                BootstrapError::EmptyEmbeddedData =>
                    "Found script tag but no content and no data-props"@,
                BootstrapError::AttributeEncoding { message } => message@,
                BootstrapError::JsonParse { message, .. } => message@,
                BootstrapError::NoWebSocketUrl => "No WebSocket URL"@,
            },
    {
        match self {
            BootstrapError::NoEmbeddedData => String::from_str("Could not find embedded-data"),
            BootstrapError::EmptyEmbeddedData => String::from_str(
                "Found script tag but no content and no data-props",
            ),
            BootstrapError::AttributeEncoding { message } => message.clone(),
            BootstrapError::JsonParse { message, .. } => message.clone(),
            BootstrapError::NoWebSocketUrl => String::from_str("No WebSocket URL"),
        }
    }

    /// The notification that goes out before the error ends the session:
    /// one for a document that is no JSON, none for the other errors.
    pub fn fatal_event(&self) -> (e: Option<SystemEvent>)
        ensures
            match self {
                BootstrapError::JsonParse { message, snippet } => e matches Some(event)
                    && event@ == (EventView {
                    author: "Fatal"@,
                    message: "JSON Parse Error: "@ + message@ + " | Content: "@ + snippet@,
                }),
                _ => e is None,
            },
    {
        match self {
            BootstrapError::JsonParse { message, snippet } => Some(
                SystemEvent::fatal_json(message.as_str(), snippet.as_str()),
            ),
            _ => None,
        }
    }
}

/// Chooses the properties document from what the two searches of the page
/// found: the body of the script element and the value of the attribute.
pub fn select_props(script: Option<String>, attribute: Option<String>) -> (r: Result<
    EmbeddedProps,
    BootstrapError,
>)
    ensures
        reports(r, props_outcome(text_of(script), text_of(attribute))),
{
    if let Some(body) = &script {
        let content = crate::text::trim(body.as_str());
        if !content.is_empty() {
            return Ok(
                EmbeddedProps { text: String::from_str(content), source: PropsSource::ScriptTag },
            );
        }
    }
    match attribute {
        Some(value) => match crate::percent::decode(value.as_str()) {
            Ok(decoded) => Ok(
                EmbeddedProps {
                    text: crate::text::unescape_quotes(decoded.as_str()),
                    source: if script.is_some() {
                        PropsSource::AttributeFallback
                    } else {
                        PropsSource::Attribute
                    },
                },
            ),
            Err(e) => Err(
                BootstrapError::AttributeEncoding { message: crate::percent::error_text(&e) },
            ),
        },
        None => if script.is_some() {
            Err(BootstrapError::EmptyEmbeddedData)
        } else {
            Err(BootstrapError::NoEmbeddedData)
        },
    }
}

/// Finds the properties document in the page.
pub fn extract_props(html: &str) -> (r: Result<EmbeddedProps, BootstrapError>)
    ensures
        reports(
            r,
            props_outcome(
                first_group(SCRIPT_PATTERN@, html@),
                first_group(ATTRIBUTE_PATTERN@, html@),
            ),
        ),
{
    let script = crate::pattern::capture_first(SCRIPT_PATTERN, html);
    let attribute = crate::pattern::capture_first(ATTRIBUTE_PATTERN, html);
    select_props(script, attribute)
}

/// The error for a properties document that the parser refused with
/// `message`: it keeps the parser's words and the first characters of the
/// document.
pub fn parse_failure(message: String, props: &str) -> (e: BootstrapError)
    ensures
        e matches BootstrapError::JsonParse { message: m, snippet } && m == message && snippet@
            == leading(props@, SNIPPET_CHARS as nat),
{
    let snippet = String::from_str(crate::text::leading_chars(props, SNIPPET_CHARS));
    BootstrapError::JsonParse { message, snippet }
}

/// The signaling URL, given what stands at its place in the document.
pub fn require_url(found: Option<String>) -> (r: Result<String, BootstrapError>)
    ensures
        match found {
            Some(url) => r == Ok::<String, BootstrapError>(url),
            None => r matches Err(BootstrapError::NoWebSocketUrl),
        },
{
    match found {
        Some(url) => Ok(url),
        None => Err(BootstrapError::NoWebSocketUrl),
    }
}

/// Reads the signaling URL from the properties document.
pub fn websocket_url(props: &str) -> (r: Result<String, BootstrapError>)
    ensures
        url_outcome(r, props@, json_document(props@)),
{
    match crate::json::parse(props) {
        Ok(document) => require_url(crate::json::string_at(&document, WEBSOCKET_URL_POINTER)),
        Err(e) => Err(parse_failure(crate::json::error_text(&e), props)),
    }
}

/// Looks for the signaling endpoint in the page that was fetched.
pub fn discover(html: &str) -> (d: Discovery)
    ensures
        match props_outcome(
            first_group(SCRIPT_PATTERN@, html@),
            first_group(ATTRIBUTE_PATTERN@, html@),
        ) {
            PropsOutcome::Found { text, source } => url_outcome(
                d.result,
                text,
                json_document(text),
            ) && event_views(d.events@) == discovery_events(source, d.result),
            outcome => reports_failure(d.result, outcome) && d.events@.len() == 0,
        },
{
    match extract_props(html) {
        Ok(props) => {
            let mut events: Vec<SystemEvent> = Vec::new();
            events.push(props.found_event());
            let result = websocket_url(props.text.as_str());
            match &result {
                Ok(_) => {
                    events.push(SystemEvent::system(WEBSOCKET_URL_FOUND));
                },
                Err(e) => {
                    if let Some(event) = e.fatal_event() {
                        events.push(event);
                    }
                },
            }
            Discovery { events, result }
        },
        Err(e) => Discovery { events: Vec::new(), result: Err(e) },
    }
}

} // verus!
