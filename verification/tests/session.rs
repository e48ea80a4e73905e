use nicolive_chat::session::{Launch, NiconicoClient, NiconicoState, SessionError};

#[test]
fn new_client_is_not_running() {
    let c = NiconicoClient::new(7);
    assert_eq!(c.id(), 7);
    assert!(!c.is_running());
}

#[test]
fn client_start_launches_once() {
    let mut c = NiconicoClient::new(1);
    assert!(c.start());
    assert!(c.is_running());
    assert!(!c.start());
    assert!(c.is_running());
    c.stop();
    assert!(!c.is_running());
    assert!(c.start());
    assert_eq!(c.id(), 1);
}

#[test]
fn client_stop_is_repeatable() {
    let mut c = NiconicoClient::new(1);
    c.stop();
    c.stop();
    assert!(!c.is_running());
}

#[test]
fn new_state_has_no_session() {
    let s = NiconicoState::new();
    assert_eq!(s.current(), None);
    assert!(!s.is_running(0));
}

#[test]
fn start_records_a_running_session() {
    let mut s = NiconicoState::new();
    let launch = s.start("https://live/lv1".to_string()).unwrap();
    assert_eq!(launch, Launch { session: 0, url: "https://live/lv1".to_string() });
    assert_eq!(s.current(), Some(0));
    assert!(s.is_running(0));
    assert!(!s.is_running(1));
}

#[test]
fn start_cancels_the_session_before() {
    let mut s = NiconicoState::new();
    let first = s.start("a".to_string()).unwrap();
    let second = s.start("b".to_string()).unwrap();
    assert_ne!(first.session, second.session);
    assert!(!s.is_running(first.session));
    assert!(s.is_running(second.session));
    assert_eq!(s.current(), Some(second.session));
}

#[test]
fn stop_cancels_and_clears() {
    let mut s = NiconicoState::new();
    let launch = s.start("a".to_string()).unwrap();
    s.stop();
    assert!(!s.is_running(launch.session));
    assert_eq!(s.current(), None);
    s.stop();
    assert_eq!(s.current(), None);
}

#[test]
fn stopped_session_stays_cancelled() {
    let mut s = NiconicoState::new();
    let first = s.start("a".to_string()).unwrap();
    s.stop();
    let second = s.start("b".to_string()).unwrap();
    s.finish(first.session);
    s.stop();
    let third = s.start("c".to_string()).unwrap();
    assert!(!s.is_running(first.session));
    assert!(!s.is_running(second.session));
    assert!(s.is_running(third.session));
    assert_eq!((first.session, second.session, third.session), (0, 1, 2));
}

#[test]
fn finish_lowers_the_flag_of_its_own_session() {
    let mut s = NiconicoState::new();
    let first = s.start("a".to_string()).unwrap();
    let second = s.start("b".to_string()).unwrap();
    s.finish(first.session);
    assert!(s.is_running(second.session));
    s.finish(second.session);
    assert!(!s.is_running(second.session));
    assert_eq!(s.current(), Some(second.session));
    s.finish(99);
    assert_eq!(s.current(), Some(second.session));
}

#[test]
fn numbering_continues_where_it_stood() {
    let mut s = NiconicoState::with_issued(41);
    assert_eq!(s.current(), None);
    assert!(!s.is_running(40));
    assert_eq!(s.start("u".to_string()).unwrap().session, 41);
    assert!(s.is_running(41));
}

#[test]
fn start_fails_when_no_number_is_left() {
    let mut s = NiconicoState::with_issued(u64::MAX - 1);
    let last = s.start("a".to_string()).unwrap();
    assert_eq!(last.session, u64::MAX - 1);
    assert_eq!(s.start("b".to_string()), Err(SessionError::Exhausted));
    // Nothing changed: the last session still runs.
    assert_eq!(s.current(), Some(last.session));
    assert!(s.is_running(last.session));
    assert_eq!(SessionError::Exhausted.message(), "No session number is left");
    s.stop();
    assert_eq!(s.start("c".to_string()), Err(SessionError::Exhausted));
    assert_eq!(s.current(), None);
}
