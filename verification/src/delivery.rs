//! The polling loop of the chat data channel.
//!
//! The loop holds a cursor, `now` at first.  Each poll asks for the data at the
//! cursor and reads the answer as a stream of framed entries.  An entry may
//! move the cursor, which the next poll then uses, or name a segment to fetch.
//! The caller performs the requests and decodes the frames; the loop decides.

use vstd::prelude::*;
use vstd::string::StringExecFns;
use crate::frame::frames;
use crate::frame::remainder;
use crate::frame::Buffer;
use crate::message::ChunkedEntry;
use crate::message::EntryView;
use crate::text::contains_char;
use crate::text::decimal;
use crate::text::to_decimal;

verus! {

/// The cursor of a loop that has not been moved yet.
pub const INITIAL_CURSOR: &'static str = "now";

/// The address of one poll: the URI of the chat data with the cursor as its
/// `at` parameter, joined by `&` where the URI already has a query and by `?`
/// where it has none.
pub open spec fn poll_url_of(view_uri: Seq<char>, cursor: Seq<char>) -> Seq<char> {
    view_uri + (if view_uri.contains('?') {
        "&"@
    } else {
        "?"@
    }) + "at="@ + cursor
}

/// The entry that a frame was decoded to, seen by its view; `None` stands for
/// a frame that does not decode.
pub open spec fn entry_view(entry: Option<ChunkedEntry>) -> Option<EntryView> {
    match entry {
        Some(e) => Some(e@),
        None => None,
    }
}

/// The cursor after one entry.  Only an entry that names the next position
/// moves it.
pub open spec fn cursor_after(cursor: Seq<char>, entry: Option<EntryView>) -> Seq<char> {
    match entry {
        Some(EntryView::Next { at }) => decimal(at),
        _ => cursor,
    }
}

/// The segment to fetch for one entry.  Only a live segment is fetched.
pub open spec fn fetch_for(entry: Option<EntryView>) -> Option<Seq<char>> {
    match entry {
        Some(EntryView::Segment { uri }) => Some(uri),
        _ => None,
    }
}

/// The cursor after the entries, taken in order.
pub open spec fn cursor_after_all(cursor: Seq<char>, entries: Seq<Option<EntryView>>) -> Seq<char>
    decreases entries.len(),
{
    if entries.len() == 0 {
        cursor
    } else {
        cursor_after(cursor_after_all(cursor, entries.drop_last()), entries.last())
    }
}

/// The segments to fetch for the entries, in order.
pub open spec fn fetches(entries: Seq<Option<EntryView>>) -> Seq<Seq<char>>
    decreases entries.len(),
{
    if entries.len() == 0 {
        Seq::empty()
    } else {
        match fetch_for(entries.last()) {
            Some(uri) => fetches(entries.drop_last()).push(uri),
            None => fetches(entries.drop_last()),
        }
    }
}

/// The state of a loop as specifications see it.
pub struct LoopView {
    pub view_uri: Seq<char>,
    pub cursor: Seq<char>,
    pub pending: Seq<u8>,
    pub over: bool,
}

/// One step of a loop: a poll that is about to begin or a chunk that arrived,
/// each with the session's flag as read at that moment, or an entry that was
/// decoded.
pub enum Step {
    Poll { running: bool },
    Chunk { running: bool, chunk: Seq<u8> },
    Entry { entry: Option<EntryView> },
}

/// What a step hands to the caller.
pub enum Yield {
    /// Nothing.
    Nothing,
    /// The address to ask.
    Poll(Seq<char>),
    /// The payloads of the frames that a chunk completed.
    Frames(Seq<Seq<u8>>),
    /// The segment to fetch.
    Fetch(Seq<char>),
}

impl LoopView {
    /// Whether a step with this reading of the flag ends the loop: it has
    /// ended before, or the flag is down.
    pub open spec fn ends_at(self, running: bool) -> bool {
        self.over || !running
    }

    /// The state after a step.  A loop that is over stays over and keeps its
    /// state; a poll begins with an empty buffer; a chunk leaves the bytes
    /// that complete no frame; an entry may move the cursor.
    pub open spec fn after(self, step: Step) -> LoopView {
        match step {
            Step::Poll { running } => if self.ends_at(running) {
                LoopView { over: true, ..self }
            } else {
                LoopView { pending: Seq::empty(), ..self }
            },
            Step::Chunk { running, chunk } => if self.ends_at(running) {
                LoopView { over: true, ..self }
            } else {
                LoopView { pending: remainder(self.pending + chunk), ..self }
            },
            Step::Entry { entry } => if self.over {
                self
            } else {
                LoopView { cursor: cursor_after(self.cursor, entry), ..self }
            },
        }
    }

    /// What a step hands to the caller.
    pub open spec fn yields(self, step: Step) -> Yield {
        match step {
            Step::Poll { running } => if self.ends_at(running) {
                Yield::Nothing
            } else {
                Yield::Poll(poll_url_of(self.view_uri, self.cursor))
            },
            Step::Chunk { running, chunk } => if self.ends_at(running) {
                Yield::Nothing
            } else {
                Yield::Frames(frames(self.pending + chunk))
            },
            Step::Entry { entry } => if self.over {
                Yield::Nothing
            } else {
                match fetch_for(entry) {
                    Some(uri) => Yield::Fetch(uri),
                    None => Yield::Nothing,
                }
            },
        }
    }

    /// The state after the steps, in order.
    pub open spec fn after_all(self, steps: Seq<Step>) -> LoopView
        decreases steps.len(),
    {
        if steps.len() == 0 {
            self
        } else {
            self.after_all(steps.drop_last()).after(steps.last())
        }
    }
}

/// The state of one polling loop: the URI of the chat data, the cursor, the
/// bytes of the poll in flight that no frame has claimed yet, and whether the
/// loop has seen the session's flag down.
pub struct DeliveryLoop {
    view_uri: String,
    cursor: String,
    buffer: Buffer,
    over: bool,
}

impl View for DeliveryLoop {
    type V = LoopView;

    closed spec fn view(&self) -> LoopView {
        LoopView {
            view_uri: self.view_uri@,
            cursor: self.cursor@,
            pending: self.buffer@,
            over: self.over,
        }
    }
}

/// Whether the entry names the position of the next poll.
pub open spec fn is_advance(entry: Option<EntryView>) -> bool {
    entry matches Some(EntryView::Next { .. })
}

/// The poll in flight was addressed before its entries arrived, so an entry
/// moves the cursor of the next poll only.  After the entries of one poll the
/// cursor is the position that the last moving entry named.
pub proof fn law_cursor_follows_last_advance(
    cursor: Seq<char>,
    entries: Seq<Option<EntryView>>,
    last: int,
)
    requires
        0 <= last < entries.len(),
        is_advance(entries[last]),
        forall|j: int| last < j < entries.len() ==> !is_advance(#[trigger] entries[j]),
    ensures
        cursor_after_all(cursor, entries) == decimal(entries[last]->0->Next_at),
    decreases entries.len(),
{
    if last < entries.len() - 1 {
        let earlier = entries.drop_last();
        assert forall|j: int| last < j < earlier.len() implies !is_advance(
            #[trigger] earlier[j],
        ) by {
            assert(earlier[j] == entries[j]);
        }
        law_cursor_follows_last_advance(cursor, earlier, last);
    }
}

/// Entries that name no position leave the cursor where the poll began.
pub proof fn law_cursor_stays_without_advance(cursor: Seq<char>, entries: Seq<Option<EntryView>>)
    requires
        forall|j: int| 0 <= j < entries.len() ==> !is_advance(#[trigger] entries[j]),
    ensures
        cursor_after_all(cursor, entries) == cursor,
    decreases entries.len(),
{
    if entries.len() > 0 {
        let earlier = entries.drop_last();
        assert forall|j: int| 0 <= j < earlier.len() implies !is_advance(#[trigger] earlier[j]) by {
            assert(earlier[j] == entries[j]);
        }
        law_cursor_stays_without_advance(cursor, earlier);
    }
}

/// The address of a poll is fixed when the poll begins: it holds the cursor
/// of that moment, and the entries that arrive during the poll show only in
/// the address of the poll after it.
pub proof fn law_poll_in_flight_keeps_its_address(
    state: LoopView,
    entries: Seq<Option<EntryView>>,
)
    requires
        !state.over,
    ensures
        state.yields(Step::Poll { running: true }) == Yield::Poll(
            poll_url_of(state.view_uri, state.cursor),
        ),
        state.after_all(entry_steps(entries)).yields(Step::Poll { running: true }) == Yield::Poll(
            poll_url_of(state.view_uri, cursor_after_all(state.cursor, entries)),
        ),
{
    lemma_entries_move_the_cursor_only(state, entries);
}

/// The entries as steps of a loop.
pub open spec fn entry_steps(entries: Seq<Option<EntryView>>) -> Seq<Step> {
    entries.map_values(|entry: Option<EntryView>| Step::Entry { entry })
}

/// Entries change nothing of a running loop but its cursor.
pub proof fn lemma_entries_move_the_cursor_only(state: LoopView, entries: Seq<Option<EntryView>>)
    requires
        !state.over,
    ensures
        state.after_all(entry_steps(entries)) == (LoopView {
            cursor: cursor_after_all(state.cursor, entries),
            ..state
        }),
    decreases entries.len(),
{
    if entries.len() > 0 {
        lemma_entries_move_the_cursor_only(state, entries.drop_last());
        assert(entry_steps(entries).drop_last() =~= entry_steps(entries.drop_last()));
    }
}

/// Exactly the live segments are fetched, in the order of their entries: an
/// entry of any other kind, a segment of earlier messages among them, adds no
/// fetch.
pub proof fn law_only_live_segments_are_fetched(
    entries: Seq<Option<EntryView>>,
    entry: Option<EntryView>,
)
    ensures
        fetches(entries.push(entry)) == match entry {
            Some(EntryView::Segment { uri }) => fetches(entries).push(uri),
            _ => fetches(entries),
        },
        entry matches Some(EntryView::Previous { .. }) ==> fetches(entries.push(entry)) == fetches(
            entries,
        ),
        fetches(Seq::empty()) == Seq::<Seq<char>>::empty(),
{
    assert(entries.push(entry).drop_last() =~= entries);
}

/// Cancellation is final and takes effect at once: from the step at which the
/// loop reads the flag as down, no step hands out an address, a frame or a
/// fetch, whatever arrives and whatever the flag reads later.
pub proof fn law_cancelled_loop_is_silent(state: LoopView, steps: Seq<Step>, index: int)
    requires
        0 <= index < steps.len(),
        state.over || exists|k: int|
            0 <= k <= index && (#[trigger] steps[k] matches Step::Poll { running: false }
                || steps[k] matches Step::Chunk { running: false, .. }),
    ensures
        state.after_all(steps.take(index)).yields(steps[index]) == Yield::Nothing,
        state.after_all(steps.take(index + 1)).over,
    decreases index,
{
    let before = steps.take(index);
    let through = steps.take(index + 1);
    assert(through.drop_last() =~= before);
    if index > 0 {
        if state.over || exists|k: int|
            0 <= k <= index - 1 && (#[trigger] steps[k] matches Step::Poll { running: false }
                || steps[k] matches Step::Chunk { running: false, .. }) {
            law_cancelled_loop_is_silent(state, steps, index - 1);
        }
    }
}

impl DeliveryLoop {
    /// A loop on the chat data at `view_uri`, with the cursor at `now`.
    pub fn new(view_uri: String) -> (s: Self)
        ensures
            s@ == (LoopView {
                view_uri: view_uri@,
                cursor: INITIAL_CURSOR@,
                pending: Seq::empty(),
                over: false,
            }),
    {
        DeliveryLoop {
            view_uri,
            cursor: String::from_str(INITIAL_CURSOR),
            buffer: Buffer::new(),
            over: false,
        }
    }

    /// Whether the loop has seen the session's flag down.
    pub fn is_over(&self) -> (over: bool)
        ensures
            over == self@.over,
    {
        self.over
    }

    /// The cursor that the next poll will use.
    pub fn cursor(&self) -> (c: &str)
        ensures
            c@ == self@.cursor,
    {
        self.cursor.as_str()
    }

    /// The address of a poll at the present cursor.
    pub fn poll_url(&self) -> (url: String)
        ensures
            url@ == poll_url_of(self@.view_uri, self@.cursor),
    {
        let mut url = self.view_uri.clone();
        if contains_char(self.view_uri.as_str(), '?') {
            url.append("&");
        } else {
            url.append("?");
        }
        url.append("at=");
        url.append(self.cursor.as_str());
        url
    }

    /// Begins a poll.  `running` is the session's flag as read now: while it
    /// is up the result is the address to ask, and the bytes of the poll
    /// before are dropped; once it is down the loop is over.
    pub fn begin_poll(&mut self, running: bool) -> (url: Option<String>)
        ensures
            final(self)@ == old(self)@.after(Step::Poll { running }),
            match url {
                Some(u) => old(self)@.yields(Step::Poll { running }) == Yield::Poll(u@),
                None => old(self)@.yields(Step::Poll { running }) == Yield::Nothing,
            },
    {
        if self.over || !running {
            self.over = true;
            return None;
        }
        self.buffer = Buffer::new();
        Some(self.poll_url())
    }

    /// Takes a chunk of the poll in flight.  `running` is the session's flag
    /// as read when the chunk arrived: while it is up the result holds the
    /// payload of every frame that the chunk completed; once it is down the
    /// chunk is not looked at and the loop is over.
    pub fn on_chunk(&mut self, running: bool, chunk: &[u8]) -> (r: Option<Vec<Vec<u8>>>)
        ensures
            final(self)@ == old(self)@.after(Step::Chunk { running, chunk: chunk@ }),
            match r {
                Some(payloads) => old(self)@.yields(Step::Chunk { running, chunk: chunk@ })
                    == Yield::Frames(payloads.deep_view()),
                None => old(self)@.yields(Step::Chunk { running, chunk: chunk@ })
                    == Yield::Nothing,
            },
    {
        if self.over || !running {
            self.over = true;
            return None;
        }
        Some(self.buffer.push_chunk(chunk))
    }

    /// Handles one entry of the poll in flight; `None` stands for a frame
    /// that did not decode, which is passed over.  The result is the URI of
    /// the segment to fetch, where the entry names one.
    pub fn on_entry(&mut self, entry: Option<ChunkedEntry>) -> (fetch: Option<String>)
        ensures
            final(self)@ == old(self)@.after(Step::Entry { entry: entry_view(entry) }),
            match fetch {
                Some(uri) => old(self)@.yields(Step::Entry { entry: entry_view(entry) })
                    == Yield::Fetch(uri@),
                None => old(self)@.yields(Step::Entry { entry: entry_view(entry) })
                    == Yield::Nothing,
            },
    {
        if self.over {
            return None;
        }
        match entry {
            Some(ChunkedEntry::Next { at }) => {
                self.cursor = to_decimal(at);
                None
            },
            Some(ChunkedEntry::Segment { uri }) => Some(uri),
            _ => None,
        }
    }
}

} // verus!
