use chat_session::present::is_image;
use chat_session::roster::{avatar_url_for, Roster};
use chat_session::session::{Chat, Effect, Msg, SessionState};
use chat_session::wire::{DecodeError, Envelope};

fn users_frame(names: &[&str]) -> Msg {
    Msg::HandleMsg(Envelope {
        message_type: "users".to_string(),
        data_array: Some(names.iter().map(|s| s.to_string()).collect()),
        data: None,
    })
}

fn message_frame(from: &str, body: &str) -> Msg {
    Msg::HandleMsg(Envelope {
        message_type: "message".to_string(),
        data_array: None,
        data: Some(format!("{{\"from\":\"{}\",\"message\":\"{}\"}}", from, body)),
    })
}

fn open_chat(name: &str) -> Chat {
    let mut c = Chat::create(name.to_string());
    c.update(Msg::Connected);
    c
}

fn names(c: &Chat) -> Vec<String> {
    c.users().iter().map(|u| u.name.clone()).collect()
}

fn bodies(c: &Chat) -> Vec<(String, String)> {
    c.messages().iter().map(|m| (m.from.clone(), m.body.clone())).collect()
}

#[test]
fn connect_sends_one_register_frame() {
    let mut c = Chat::create("alice".to_string());
    assert_eq!(c.state(), SessionState::Connecting);
    assert_eq!(c.identity(), "alice");
    match c.update(Msg::Connected) {
        Effect::Send(e) => {
            assert_eq!(e.message_type, "register");
            assert_eq!(e.data, Some("alice".to_string()));
            assert_eq!(e.data_array, None);
        }
        other => panic!("unexpected {:?}", other),
    }
    assert_eq!(c.state(), SessionState::Open);
    assert!(matches!(c.update(Msg::Connected), Effect::Nothing));
}

#[test]
fn users_frame_collapses_duplicates() {
    let mut c = open_chat("alice");
    assert!(matches!(c.update(users_frame(&["alice", "bob", "alice"])), Effect::Rerender));
    assert_eq!(names(&c), vec!["alice", "bob"]);
    assert_eq!(
        c.users()[1].avatar,
        "https://avatars.dicebear.com/api/adventurer-neutral/bob.svg"
    );
}

#[test]
fn users_frames_replace_the_roster() {
    let mut c = open_chat("alice");
    c.update(users_frame(&["alice", "bob"]));
    c.update(users_frame(&["carol", "carol", "dave", "carol"]));
    assert_eq!(names(&c), vec!["carol", "dave"]);
    c.update(users_frame(&[]));
    assert!(names(&c).is_empty());
    c.update(users_frame(&["erin"]));
    c.update(users_frame(&["erin"]));
    assert_eq!(names(&c), vec!["erin"]);
}

#[test]
fn message_from_unlisted_user_is_kept() {
    let mut c = open_chat("alice");
    assert!(matches!(c.update(message_frame("bob", "hi")), Effect::Rerender));
    assert_eq!(bodies(&c), vec![("bob".to_string(), "hi".to_string())]);
    let views = c.message_views();
    assert_eq!(views.len(), 1);
    assert_eq!(views[0].avatar, None);
    assert!(!views[0].is_image);
}

#[test]
fn history_keeps_arrival_order() {
    let mut c = open_chat("alice");
    c.update(message_frame("bob", "one"));
    c.update(users_frame(&["bob"]));
    c.update(message_frame("carol", "two"));
    c.update(message_frame("bob", "three"));
    assert_eq!(
        bodies(&c),
        vec![
            ("bob".to_string(), "one".to_string()),
            ("carol".to_string(), "two".to_string()),
            ("bob".to_string(), "three".to_string()),
        ]
    );
    let views = c.message_views();
    assert_eq!(
        views[0].avatar,
        Some("https://avatars.dicebear.com/api/adventurer-neutral/bob.svg".to_string())
    );
    assert_eq!(views[1].avatar, None);
}

#[test]
fn submit_gif_is_shown_as_picture() {
    let mut c = open_chat("alice");
    match c.update(Msg::SubmitMessage("gif-link.gif".to_string())) {
        Effect::Send(e) => {
            assert_eq!(e.message_type, "message");
            assert_eq!(e.data, Some("gif-link.gif".to_string()));
        }
        other => panic!("unexpected {:?}", other),
    }
    c.update(message_frame("alice", "gif-link.gif"));
    assert!(c.message_views()[0].is_image);
    assert!(is_image(&"gif-link.gif".to_string()));
    assert!(is_image(&".gif".to_string()));
    assert!(!is_image(&"gif".to_string()));
    assert!(!is_image(&"a.GIF".to_string()));
    assert!(!is_image(&"a.gif ".to_string()));
}

#[test]
fn submit_before_connect_sends_nothing() {
    let mut c = Chat::create("alice".to_string());
    assert!(matches!(c.update(Msg::SubmitMessage("x".to_string())), Effect::Nothing));
}

#[test]
fn unknown_frame_changes_nothing() {
    let mut c = open_chat("alice");
    c.update(users_frame(&["bob"]));
    c.update(message_frame("bob", "hi"));
    let r = c.update(Msg::HandleMsg(Envelope {
        message_type: "typing".to_string(),
        data_array: Some(vec!["x".to_string()]),
        data: Some("y".to_string()),
    }));
    assert!(matches!(r, Effect::Dropped(DecodeError::UnknownType)));
    assert_eq!(names(&c), vec!["bob"]);
    assert_eq!(bodies(&c).len(), 1);
}

#[test]
fn malformed_payload_is_dropped() {
    let mut c = open_chat("alice");
    let r = c.update(Msg::HandleMsg(Envelope {
        message_type: "message".to_string(),
        data_array: None,
        data: Some("{\"from\":\"bob\"}".to_string()),
    }));
    assert!(matches!(r, Effect::Dropped(DecodeError::MalformedPayload)));
    let r = c.update(Msg::HandleMsg(Envelope {
        message_type: "message".to_string(),
        data_array: None,
        data: None,
    }));
    assert!(matches!(r, Effect::Dropped(DecodeError::MissingData)));
    assert!(c.messages().is_empty());
}

#[test]
fn register_frame_from_server_is_ignored() {
    let mut c = open_chat("alice");
    let r = c.update(Msg::HandleMsg(Envelope {
        message_type: "register".to_string(),
        data_array: None,
        data: Some("bob".to_string()),
    }));
    assert!(matches!(r, Effect::Nothing));
    assert!(names(&c).is_empty());
}

#[test]
fn frames_after_disconnect_are_ignored() {
    let mut c = open_chat("alice");
    c.update(users_frame(&["alice", "bob"]));
    c.update(message_frame("bob", "hi"));
    c.update(Msg::Disconnected);
    assert_eq!(c.state(), SessionState::Closed);
    assert!(matches!(c.update(users_frame(&["carol"])), Effect::Nothing));
    assert!(matches!(c.update(message_frame("carol", "late")), Effect::Nothing));
    assert!(matches!(c.update(Msg::Connected), Effect::Nothing));
    assert!(matches!(c.update(Msg::SubmitMessage("x".to_string())), Effect::Nothing));
    assert_eq!(c.state(), SessionState::Closed);
    assert_eq!(names(&c), vec!["alice", "bob"]);
    assert_eq!(bodies(&c), vec![("bob".to_string(), "hi".to_string())]);
}

#[test]
fn disconnect_while_connecting_closes() {
    let mut c = Chat::create("alice".to_string());
    c.update(Msg::Disconnected);
    assert_eq!(c.state(), SessionState::Closed);
    assert!(matches!(c.update(Msg::Connected), Effect::Nothing));
}

#[test]
fn avatar_url_and_roster_lookup() {
    assert_eq!(
        avatar_url_for(&"alice".to_string()),
        "https://avatars.dicebear.com/api/adventurer-neutral/alice.svg"
    );
    let mut r = Roster::new();
    assert!(r.current().is_empty());
    r.replace(&vec!["x".to_string(), "y".to_string(), "x".to_string()]);
    assert_eq!(r.current().len(), 2);
    assert_eq!(
        r.avatar_for(&"y".to_string()),
        Some("https://avatars.dicebear.com/api/adventurer-neutral/y.svg".to_string())
    );
    assert_eq!(r.avatar_for(&"z".to_string()), None);
}
