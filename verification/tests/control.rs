use writing_feedback::control::{AlreadyWatched, SessionHandle, SessionRegistry};

#[test]
fn a_new_registry_runs_nothing() {
    let registry = SessionRegistry::new();
    assert_eq!(registry.len(), 0);
    assert_eq!(registry.next_id(), 0);
    assert!(!registry.is_running(SessionHandle(0)));
    assert!(registry.should_stop(SessionHandle(0)));
}

#[test]
fn each_start_gives_out_the_next_handle() {
    let mut registry = SessionRegistry::new();
    assert_eq!(registry.start("a.md"), Ok(SessionHandle(0)));
    assert_eq!(registry.start("b.md"), Ok(SessionHandle(1)));
    assert_eq!(registry.start("c.md"), Ok(SessionHandle(2)));
    assert_eq!(registry.len(), 3);
    assert_eq!(registry.next_id(), 3);
    for id in 0..3 {
        assert!(registry.is_running(SessionHandle(id)));
        assert!(!registry.should_stop(SessionHandle(id)));
    }
}

#[test]
fn a_text_is_watched_by_one_session_at_a_time() {
    let mut registry = SessionRegistry::new();
    let first = registry.start("draft.md").unwrap();
    assert_eq!(registry.start("draft.md"), Err(AlreadyWatched));
    assert_eq!(registry.len(), 1);

    // Asked to stop, the session still runs until its loop has ended.
    registry.stop(first);
    assert_eq!(registry.start("draft.md"), Err(AlreadyWatched));

    registry.finish(first);
    assert_eq!(registry.len(), 0);
    assert_eq!(registry.start("draft.md"), Ok(SessionHandle(1)));
}

#[test]
fn another_spelling_of_a_path_is_another_text() {
    let mut registry = SessionRegistry::new();
    assert!(registry.start("draft.md").is_ok());
    assert!(registry.start("./draft.md").is_ok());
    assert!(registry.start("draft.md ").is_ok());
}

#[test]
fn a_stop_reaches_the_session_it_names_and_no_other() {
    let mut registry = SessionRegistry::new();
    let first = registry.start("a.md").unwrap();
    let second = registry.start("b.md").unwrap();
    let third = registry.start("c.md").unwrap();
    registry.stop(second);
    assert!(!registry.should_stop(first));
    assert!(registry.should_stop(second));
    assert!(!registry.should_stop(third));
    assert!(registry.is_running(second));
    assert_eq!(registry.len(), 3);
}

#[test]
fn stopping_twice_is_stopping_once() {
    let mut registry = SessionRegistry::new();
    let handle = registry.start("a.md").unwrap();
    registry.stop(handle);
    registry.stop(handle);
    assert!(registry.should_stop(handle));
    assert_eq!(registry.len(), 1);
}

#[test]
fn stopping_an_unknown_session_does_nothing() {
    let mut registry = SessionRegistry::new();
    let handle = registry.start("a.md").unwrap();
    registry.stop(SessionHandle(7));
    assert_eq!(registry.len(), 1);
    assert!(!registry.should_stop(handle));
    assert!(registry.should_stop(SessionHandle(7)));

    registry.stop(handle);
    registry.finish(handle);
    registry.stop(handle);
    registry.finish(handle);
    assert_eq!(registry.len(), 0);
    assert!(registry.should_stop(handle));
    assert!(!registry.is_running(handle));
}

#[test]
fn finishing_takes_out_the_session_it_names_and_no_other() {
    let mut registry = SessionRegistry::new();
    let first = registry.start("a.md").unwrap();
    let second = registry.start("b.md").unwrap();
    let third = registry.start("c.md").unwrap();
    registry.stop(third);
    registry.finish(second);
    assert_eq!(registry.len(), 2);
    assert!(registry.is_running(first));
    assert!(!registry.is_running(second));
    assert!(registry.is_running(third));
    assert!(!registry.should_stop(first));
    assert!(registry.should_stop(third));
    assert_eq!(registry.start("b.md"), Ok(SessionHandle(3)));
}
