//! The messages of one segment.
//!
//! Each segment is fetched on its own and its stream is decoded by its own
//! buffer.  All fetches of a session share one set of the identifiers seen so
//! far, which lets a message out once however often the segments repeat it.
//! A chat message becomes a chat line; other messages are passed over.

use std::collections::HashMap;
use vstd::prelude::*;
use vstd::std_specs::hash::group_hash_axioms;
use vstd::string::StringExecFns;
use vstd::utf8::encode_utf8;
use crate::event::CommentEvent;
use crate::event::EventView;
use crate::message::ChatView;
use crate::message::Chat;
use crate::message::ChunkedMessage;
use crate::message::MessageView;
use crate::message::Payload;
use crate::message::PayloadView;
use crate::text::same_text;

verus! {

broadcast use group_hash_axioms;

/// The author shown for a chat line without a name and without a user.
pub const ANONYMOUS: &'static str = "Anonymous";

/// The texts of the strings, in order.
pub open spec fn texts(ids: Seq<String>) -> Seq<Seq<char>> {
    ids.map_values(|id: String| id@)
}

/// The author shown for a chat line: the name where there is one, else the
/// anonymized user where there is one, else `Anonymous`.
pub open spec fn display_author(chat: ChatView) -> Seq<char> {
    if chat.name.len() > 0 {
        chat.name
    } else if chat.hashed_user_id.len() > 0 {
        chat.hashed_user_id
    } else {
        ANONYMOUS@
    }
}

/// The message that a frame was decoded to, seen by its view; `None` stands
/// for a frame that does not decode.
pub open spec fn message_view(msg: Option<ChunkedMessage>) -> Option<MessageView> {
    match msg {
        Some(m) => Some(m@),
        None => None,
    }
}

/// Whether the message carries an identifier that was seen before.
pub open spec fn is_repeat(seen: Set<Seq<char>>, msg: Option<MessageView>) -> bool {
    msg matches Some(m) && m.id matches Some(id) && seen.contains(id)
}

/// The identifiers seen once the message is handled.
pub open spec fn seen_after(seen: Set<Seq<char>>, msg: Option<MessageView>) -> Set<Seq<char>> {
    match msg {
        Some(MessageView { id: Some(id), .. }) => seen.insert(id),
        _ => seen,
    }
}

/// The chat line that the message gives rise to: none for a repeat, none for
/// a payload that is no chat.
pub open spec fn event_for(seen: Set<Seq<char>>, msg: Option<MessageView>) -> Option<EventView> {
    if is_repeat(seen, msg) {
        None
    } else {
        match msg {
            Some(MessageView { payload: PayloadView::Chat(chat), .. }) => Some(
                EventView { author: display_author(chat), message: chat.content },
            ),
            _ => None,
        }
    }
}

/// The identifiers seen once the messages are handled, one after the other.
pub open spec fn seen_after_all(seen: Set<Seq<char>>, msgs: Seq<Option<MessageView>>) -> Set<
    Seq<char>,
>
    decreases msgs.len(),
{
    if msgs.len() == 0 {
        seen
    } else {
        seen_after(seen_after_all(seen, msgs.drop_last()), msgs.last())
    }
}

/// The chat line that the message at `index` gives rise to when the messages
/// are handled one after the other, starting from the identifiers in `seen`.
pub open spec fn event_at(seen: Set<Seq<char>>, msgs: Seq<Option<MessageView>>, index: int)
    -> Option<EventView> {
    event_for(seen_after_all(seen, msgs.take(index)), msgs[index])
}

/// Identifiers stay seen, and the identifier of every handled message is seen.
pub proof fn lemma_seen_grows(seen: Set<Seq<char>>, msgs: Seq<Option<MessageView>>)
    ensures
        seen.subset_of(seen_after_all(seen, msgs)),
        forall|i: int|
            0 <= i < msgs.len() && (#[trigger] msgs[i] matches Some(
                MessageView { id: Some(_), .. },
            )) ==> seen_after_all(seen, msgs).contains(msgs[i]->0.id->0),
    decreases msgs.len(),
{
    if msgs.len() > 0 {
        let earlier = msgs.drop_last();
        lemma_seen_grows(seen, earlier);
        assert forall|i: int|
            0 <= i < msgs.len() && (#[trigger] msgs[i] matches Some(
                MessageView { id: Some(_), .. },
            )) implies seen_after_all(seen, msgs).contains(msgs[i]->0.id->0) by {
            if i < msgs.len() - 1 {
                assert(earlier[i] == msgs[i]);
            }
        }
    }
}

/// Of the messages that carry one identifier only the first can give rise to
/// a chat line, in whatever order the fetches of a session hand their
/// messages to the shared set.
pub proof fn law_first_occurrence_only(
    seen: Set<Seq<char>>,
    msgs: Seq<Option<MessageView>>,
    first: int,
    later: int,
)
    requires
        0 <= first < later < msgs.len(),
        msgs[first] matches Some(MessageView { id: Some(_), .. }),
        msgs[later] matches Some(MessageView { id: Some(_), .. }),
        msgs[first]->0.id == msgs[later]->0.id,
    ensures
        event_at(seen, msgs, later) is None,
{
    let before = msgs.take(later);
    lemma_seen_grows(seen, before);
    assert(before[first] == msgs[first]);
}

/// A message whose identifier was seen before the messages began gives rise
/// to no chat line.
pub proof fn law_seen_before_stays_silent(
    seen: Set<Seq<char>>,
    msgs: Seq<Option<MessageView>>,
    index: int,
)
    requires
        0 <= index < msgs.len(),
        msgs[index] matches Some(MessageView { id: Some(id), .. }) && seen.contains(id),
    ensures
        event_at(seen, msgs, index) is None,
{
    lemma_seen_grows(seen, msgs.take(index));
}

/// The bucket of a text: a number computed from its UTF-8 bytes.
spec fn bucket_of(bytes: Seq<u8>) -> u64
    decreases bytes.len(),
{
    if bytes.len() == 0 {
        0
    } else {
        mixed(bucket_of(bytes.drop_last()), bytes.last())
    }
}

spec fn mixed(h: u64, b: u8) -> u64 {
    ((h * 31 + b + 1) % 0x1FFF_FFFF_FFFF_FFFF) as u64
}

spec fn key_of(text: Seq<char>) -> u64 {
    bucket_of(encode_utf8(text))
}

fn bucket(id: &str) -> (h: u64)
    ensures
        h == key_of(id@),
{
    let bytes = id.as_bytes();
    let len: usize = bytes.len();
    let mut h: u64 = 0;
    let mut i: usize = 0;
    while i < len
        invariant
            i <= len,
            len == bytes@.len(),
            h == bucket_of(bytes@.take(i as int)),
        decreases len - i,
    {
        assert(bytes@.take(i + 1).drop_last() =~= bytes@.take(i as int));
        h = ((h as u128 * 31 + bytes[i] as u128 + 1) % 0x1FFF_FFFF_FFFF_FFFF) as u64;
        i += 1;
    }
    assert(bytes@.take(len as int) =~= bytes@);
    h
}

/// The identifiers of the messages that a session has let out.  They are
/// kept in buckets, so that a test looks at few of them.
pub struct DedupSet {
    buckets: HashMap<u64, Vec<String>>,
    seen: Ghost<Set<Seq<char>>>,
}

impl View for DedupSet {
    type V = Set<Seq<char>>;

    closed spec fn view(&self) -> Set<Seq<char>> {
        self.seen@
    }
}

/// Every text in a bucket belongs there and is among the seen, and every
/// seen text is in its bucket.
spec fn sorted_into(buckets: Map<u64, Vec<String>>, seen: Set<Seq<char>>) -> bool {
    &&& forall|k: u64, i: int|
        buckets.contains_key(k) && 0 <= i < buckets[k]@.len() ==> key_of(
            #[trigger] buckets[k]@[i]@,
        ) == k && seen.contains(buckets[k]@[i]@)
    &&& forall|s: Seq<char>| #[trigger]
        seen.contains(s) ==> buckets.contains_key(key_of(s)) && texts(
            buckets[key_of(s)]@,
        ).contains(s)
}

impl DedupSet {
    #[verifier::type_invariant]
    spec fn bucketed(self) -> bool {
        sorted_into(self.buckets@, self.seen@)
    }

    /// A set that has seen nothing.
    pub fn new() -> (s: Self)
        ensures
            s@ == Set::<Seq<char>>::empty(),
    {
        DedupSet { buckets: HashMap::new(), seen: Ghost(Set::empty()) }
    }

    /// Whether `id` was seen.
    pub fn contains(&self, id: &str) -> (seen: bool)
        ensures
            seen == self@.contains(id@),
    {
        proof {
            use_type_invariant(self);
        }
        let h = bucket(id);
        match self.buckets.get(&h) {
            Some(ids) => {
                let mut i: usize = 0;
                while i < ids.len()
                    invariant
                        i <= ids.len(),
                        h == key_of(id@),
                        self.buckets@.contains_key(h),
                        self.buckets@[h] == *ids,
                        sorted_into(self.buckets@, self.seen@),
                        forall|j: int| 0 <= j < i ==> texts(ids@)[j] != id@,
                    decreases ids.len() - i,
                {
                    if same_text(ids[i].as_str(), id) {
                        return true;
                    }
                    i += 1;
                }
                false
            },
            None => false,
        }
    }

    /// Marks `id` as seen and tells whether it was new: the test and the
    /// insertion are one step.
    pub fn insert(&mut self, id: &str) -> (fresh: bool)
        ensures
            fresh == !old(self)@.contains(id@),
            final(self)@ == old(self)@.insert(id@),
    {
        if self.contains(id) {
            return false;
        }
        let h = bucket(id);
        let mut taken = DedupSet::new();
        core::mem::swap(self, &mut taken);
        proof {
            use_type_invariant(&taken);
        }
        let DedupSet { buckets, seen } = taken;
        let mut buckets = buckets;
        let ghost before = buckets@;
        let mut ids = match buckets.remove(&h) {
            Some(ids) => ids,
            None => Vec::new(),
        };
        let ghost kept = ids@;
        ids.push(String::from_str(id));
        let ghost grown = ids@;
        buckets.insert(h, ids);
        proof {
            let after = buckets@;
            let seen_after = seen@.insert(id@);
            assert forall|k: u64, i: int|
                after.contains_key(k) && 0 <= i < after[k]@.len() implies key_of(
                #[trigger] after[k]@[i]@,
            ) == k && seen_after.contains(after[k]@[i]@) by {
                if k == h {
                    if i < kept.len() {
                        assert(after[k]@[i] == before[h]@[i]);
                    }
                } else {
                    assert(after[k] == before[k]);
                }
            }
            assert forall|s: Seq<char>| #[trigger] seen_after.contains(s) implies after.contains_key(
                key_of(s),
            ) && texts(after[key_of(s)]@).contains(s) by {
                if key_of(s) == h {
                    if s == id@ {
                        assert(texts(grown)[kept.len() as int] == s);
                    } else {
                        let j = choose|j: int|
                            0 <= j < texts(kept).len() && texts(kept)[j] == s;
                        assert(texts(grown)[j] == s);
                    }
                } else {
                    assert(after[key_of(s)] == before[key_of(s)]);
                }
            }
        }
        *self = DedupSet { buckets, seen: Ghost(seen@.insert(id@)) };
        true
    }
}

/// The author shown for a chat line.
pub fn author_of(chat: &Chat) -> (author: String)
    ensures
        author@ == display_author(chat@),
{
    if !chat.name.as_str().is_empty() {
        chat.name.clone()
    } else if !chat.hashed_user_id.as_str().is_empty() {
        chat.hashed_user_id.clone()
    } else {
        String::from_str(ANONYMOUS)
    }
}

/// Handles one message of a segment; `None` stands for a frame that did not
/// decode, which is passed over.  The identifier of the message, where it has
/// one, is marked as seen; the result is the chat line to let out, where the
/// message is a chat that was not seen before.
pub fn on_message(seen: &mut DedupSet, msg: Option<ChunkedMessage>) -> (event: Option<
    CommentEvent,
>)
    ensures
        final(seen)@ == seen_after(old(seen)@, message_view(msg)),
        match event {
            Some(e) => event_for(old(seen)@, message_view(msg)) == Some(e@),
            None => event_for(old(seen)@, message_view(msg)) is None,
        },
{
    match msg {
        Some(ChunkedMessage { id, payload }) => {
            if let Some(id) = id {
                if !seen.insert(id.as_str()) {
                    return None;
                }
            }
            match payload {
                Payload::Chat(chat) => {
                    let author = author_of(&chat);
                    Some(CommentEvent { author, message: chat.content })
                },
                Payload::Other => None,
            }
        },
        None => None,
    }
}

} // verus!
