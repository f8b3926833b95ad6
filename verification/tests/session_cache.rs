use jmap_gateway::state::State;

#[test]
fn fresh_state_has_no_sessions() {
    let st = State::new();
    assert!(!st.session_present(&String::from("s1")));
    assert_eq!(st.lookup_session(&String::from("s1")), None);
}

#[test]
fn register_then_lookup() {
    let mut st = State::new();
    let sid = String::from("session-a");
    assert_eq!(st.register_session(sid.clone(), 7), None);
    assert!(st.session_present(&sid));
    assert_eq!(st.lookup_session(&sid), Some(7));
}

#[test]
fn register_is_insert_if_absent() {
    // Two first-time authentications racing on one session id: the loser is
    // told the existing handle and the cache keeps the first entry.
    let mut st = State::new();
    let sid = String::from("session-a");
    assert_eq!(st.register_session(sid.clone(), 7), None);
    assert_eq!(st.register_session(sid.clone(), 8), Some(7));
    assert_eq!(st.lookup_session(&sid), Some(7));
}

#[test]
fn distinct_sessions_are_independent() {
    let mut st = State::new();
    assert_eq!(st.register_session(String::from("a"), 1), None);
    assert_eq!(st.register_session(String::from("b"), 2), None);
    assert_eq!(st.lookup_session(&String::from("a")), Some(1));
    assert_eq!(st.lookup_session(&String::from("b")), Some(2));
}

#[test]
fn connector_runs_once_per_session() {
    // The ensure_connection flow: connect only when no entry exists, so a
    // second request on the same session invokes the connector zero times.
    let mut st = State::new();
    let sid = String::from("client-1");
    let mut connects: u32 = 0;
    for _ in 0..3 {
        if !st.session_present(&sid) {
            connects += 1;
            st.register_session(sid.clone(), 42);
        }
    }
    assert_eq!(connects, 1);
    assert_eq!(st.lookup_session(&sid), Some(42));
}

#[test]
fn failed_login_leaves_no_entry_and_is_retried() {
    // A backend that rejects the credentials: nothing is cached, and the
    // next attempt with new credentials invokes the connector again.
    let mut st = State::new();
    let sid = String::from("client-2");
    let mut connects: u32 = 0;
    // first attempt: the connector fails, so nothing is registered
    if !st.session_present(&sid) {
        connects += 1;
    }
    assert!(!st.session_present(&sid));
    assert_eq!(st.lookup_session(&sid), None);
    // second attempt with fresh credentials: the connector runs again
    if !st.session_present(&sid) {
        connects += 1;
        st.register_session(sid.clone(), 9);
    }
    assert_eq!(connects, 2);
    assert_eq!(st.lookup_session(&sid), Some(9));
}
