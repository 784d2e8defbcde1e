use match_events::registry::ClientRegistry;
use match_events::session::{accepts_name, ActionKind, Event, Phase, Session};

#[test]
fn registry_insert_get_remove() {
    let mut r: ClientRegistry<u16> = ClientRegistry::new();
    assert_eq!(r.len(), 0);
    r.insert(String::from("ana"), 1);
    r.insert(String::from("bia"), 2);
    assert_eq!(r.len(), 2);
    assert_eq!(r.get(&String::from("ana")), Some(&1));
    r.insert(String::from("ana"), 3);
    assert_eq!(r.len(), 2);
    assert_eq!(r.get(&String::from("ana")), Some(&3));
    r.remove(&String::from("ana"));
    assert!(!r.contains(&String::from("ana")));
    assert!(r.contains(&String::from("bia")));
    assert_eq!(r.len(), 1);
    r.remove(&String::from("nobody"));
    assert_eq!(r.len(), 1);
}

#[test]
fn names_accepted() {
    assert!(accepts_name(&String::from("ana")));
    assert!(accepts_name(&String::from("\n\n")));
    assert!(!accepts_name(&String::from("")));
    assert!(!accepts_name(&String::from("\n")));
}

#[test]
fn accepted_session_forwards_then_unregisters() {
    let mut s = Session::new();
    let a = s.greet(Some(String::from("ana")));
    assert_eq!(a.kind, ActionKind::Register);
    assert_eq!(a.text, "ana");
    assert_eq!(s.phase(), Phase::Streaming);
    let a = s.on_event(Event::Broadcast(String::from("{\"game_id\":1}")));
    assert_eq!(a.kind, ActionKind::Send);
    assert_eq!(a.text, "{\"game_id\":1}");
    assert_eq!(s.on_event(Event::OtherFrame).kind, ActionKind::Wait);
    let a = s.on_event(Event::CloseFrame);
    assert_eq!(a.kind, ActionKind::Unregister);
    assert_eq!(a.text, "ana");
    assert_eq!(s.phase(), Phase::Finished);
    assert_eq!(s.on_event(Event::Broadcast(String::from("late"))).kind, ActionKind::Wait);
    assert_eq!(s.on_event(Event::SendFailed).kind, ActionKind::Wait);
}

#[test]
fn refused_name_is_answered_and_ends() {
    let mut s = Session::new();
    let a = s.greet(Some(String::from("\n")));
    assert_eq!(a.kind, ActionKind::Reply);
    assert_eq!(a.text, "Wrong username");
    assert_eq!(s.phase(), Phase::Finished);
    assert_eq!(s.on_event(Event::Broadcast(String::from("x"))).kind, ActionKind::Wait);
    assert_eq!(s.on_event(Event::CloseFrame).kind, ActionKind::Wait);
}

#[test]
fn anonymous_session_streams_and_unregisters_empty_name() {
    let mut s = Session::new();
    assert_eq!(s.greet(None).kind, ActionKind::Wait);
    assert_eq!(s.phase(), Phase::Streaming);
    assert_eq!(s.user_name(), "");
    let a = s.on_event(Event::SendFailed);
    assert_eq!(a.kind, ActionKind::Unregister);
    assert_eq!(a.text, "");
}

#[test]
fn greeting_twice_does_nothing() {
    let mut s = Session::new();
    s.greet(Some(String::from("ana")));
    let a = s.greet(Some(String::from("bia")));
    assert_eq!(a.kind, ActionKind::Wait);
    assert_eq!(s.user_name(), "ana");
}
