use nicolive_chat::event::CommentEvent;
use nicolive_chat::message::{Chat, ChunkedMessage, Payload};
use nicolive_chat::segment::{author_of, on_message, DedupSet, ANONYMOUS};

fn chat(name: &str, hashed: &str, content: &str) -> Chat {
    Chat {
        name: name.to_string(),
        hashed_user_id: hashed.to_string(),
        content: content.to_string(),
    }
}

fn chat_message(id: Option<&str>, name: &str, hashed: &str, content: &str) -> Option<ChunkedMessage> {
    Some(ChunkedMessage {
        id: id.map(|s| s.to_string()),
        payload: Payload::Chat(chat(name, hashed, content)),
    })
}

fn line(author: &str, message: &str) -> Option<CommentEvent> {
    Some(CommentEvent { author: author.to_string(), message: message.to_string() })
}

#[test]
fn dedup_set_starts_empty() {
    let s = DedupSet::new();
    assert!(!s.contains("a"));
    assert!(!s.contains(""));
}

#[test]
fn dedup_set_insert_tells_first_occurrence() {
    let mut s = DedupSet::new();
    assert!(s.insert("a"));
    assert!(s.contains("a"));
    assert!(!s.insert("a"));
    assert!(s.insert("b"));
    assert!(s.insert(""));
    assert!(!s.insert(""));
    assert!(!s.insert("b"));
    assert!(s.contains("a") && s.contains("b") && s.contains(""));
    assert!(!s.contains("c"));
}

#[test]
fn dedup_set_holds_many_identifiers() {
    let mut s = DedupSet::new();
    for i in 0..5000 {
        assert!(!s.contains(&format!("id-{}", i)));
        assert!(s.insert(&format!("id-{}", i)));
    }
    for i in 0..5000 {
        assert!(s.contains(&format!("id-{}", i)));
        assert!(!s.insert(&format!("id-{}", i)));
    }
    assert!(!s.contains("id-5000"));
    assert!(!s.contains("id-"));
}

#[test]
fn author_is_the_name_where_there_is_one() {
    assert_eq!(author_of(&chat("Alice", "a:hash", "hi")), "Alice");
    assert_eq!(author_of(&chat("Alice", "", "hi")), "Alice");
}

#[test]
fn scenario_author_falls_back_to_hashed_id_then_anonymous() {
    let mut seen = DedupSet::new();
    assert_eq!(
        on_message(&mut seen, chat_message(Some("m1"), "", "a:Zm9v", "hello")),
        line("a:Zm9v", "hello")
    );
    assert_eq!(on_message(&mut seen, chat_message(Some("m2"), "", "", "hello")), line("Anonymous", "hello"));
    assert_eq!(author_of(&chat("", "a:Zm9v", "x")), "a:Zm9v");
    assert_eq!(author_of(&chat("", "", "x")), "Anonymous");
    assert_eq!(ANONYMOUS, "Anonymous");
}

#[test]
fn scenario_same_identifier_gives_one_event() {
    let mut seen = DedupSet::new();
    let first = on_message(&mut seen, chat_message(Some("msg-1"), "Bob", "", "one"));
    let second = on_message(&mut seen, chat_message(Some("msg-1"), "Bob", "", "one"));
    assert_eq!(first, line("Bob", "one"));
    assert_eq!(second, None);
    assert!(seen.contains("msg-1"));
}

#[test]
fn repeat_is_dropped_whatever_it_carries() {
    let mut seen = DedupSet::new();
    assert_eq!(on_message(&mut seen, chat_message(Some("k"), "A", "", "first")), line("A", "first"));
    assert_eq!(on_message(&mut seen, chat_message(Some("k"), "B", "", "second")), None);
    assert_eq!(on_message(&mut seen, chat_message(Some("other"), "B", "", "second")), line("B", "second"));
    assert_eq!(on_message(&mut seen, chat_message(Some("k"), "C", "", "third")), None);
}

#[test]
fn repeats_across_fetches_share_the_set() {
    // Two fetches hand their messages to one set, in any interleaving.
    let mut seen = DedupSet::new();
    let a = ["1", "2", "3"];
    let b = ["2", "3", "4"];
    let mut events = Vec::new();
    for i in 0..3 {
        events.push(on_message(&mut seen, chat_message(Some(a[i]), "a", "", a[i])));
        events.push(on_message(&mut seen, chat_message(Some(b[i]), "b", "", b[i])));
    }
    let let_out: Vec<String> = events.into_iter().flatten().map(|e| e.message).collect();
    assert_eq!(let_out, vec!["1", "2", "3", "4"]);
    assert!(["1", "2", "3", "4"].iter().all(|id| seen.contains(id)));
}

#[test]
fn message_without_identifier_is_never_a_repeat() {
    let mut seen = DedupSet::new();
    assert_eq!(on_message(&mut seen, chat_message(None, "A", "", "x")), line("A", "x"));
    assert_eq!(on_message(&mut seen, chat_message(None, "A", "", "x")), line("A", "x"));
    assert!(!seen.contains(""));
}

#[test]
fn payload_that_is_no_chat_gives_no_event() {
    let mut seen = DedupSet::new();
    let state = Some(ChunkedMessage { id: Some("s1".to_string()), payload: Payload::Other });
    assert_eq!(on_message(&mut seen, state), None);
    // Its identifier counts as seen all the same.
    assert!(seen.contains("s1"));
    assert_eq!(on_message(&mut seen, chat_message(Some("s1"), "A", "", "x")), None);
    assert_eq!(on_message(&mut seen, Some(ChunkedMessage { id: None, payload: Payload::Other })), None);
}

#[test]
fn undecodable_frame_gives_no_event() {
    let mut seen = DedupSet::new();
    assert_eq!(on_message(&mut seen, None), None);
    assert!(!seen.contains(""));
}

#[test]
fn empty_content_is_still_a_chat_line() {
    let mut seen = DedupSet::new();
    assert_eq!(on_message(&mut seen, chat_message(Some("e"), "A", "", "")), line("A", ""));
}

#[test]
fn dedup_set_tells_texts_with_common_parts_apart() {
    let mut s = DedupSet::new();
    for id in ["ab", "ba", "a", "b", "abab", "日本", "本日", "a\u{0}", "\u{0}a"] {
        assert!(s.insert(id));
    }
    for id in ["ab", "ba", "a", "b", "abab", "日本", "本日", "a\u{0}", "\u{0}a"] {
        assert!(s.contains(id));
        assert!(!s.insert(id));
    }
    assert!(!s.contains("aba"));
    assert!(!s.contains("日"));
}
