use quickstart_chat::command::{route_input, Action};
use quickstart_chat::model::{Identity, Message, User};
use quickstart_chat::session::{ChatClient, Phase};

fn id(n: u128) -> Identity {
    Identity::new(0, n)
}

fn user(n: u128, name: Option<&str>) -> User {
    User { identity: id(n), name: name.map(|s| s.to_string()) }
}

fn msg(sender: u128, sent: i64, text: &str) -> Message {
    Message { sender: id(sender), sent, text: text.to_string() }
}

/// A client connected as identity 1 under attempt 1.
fn connected_client(name: &str) -> ChatClient {
    let mut c = ChatClient::new(None);
    c.set_desired_name(name.to_string());
    let req = c.connect().expect("a name was set");
    c.on_connected(req.attempt, id(1), "tok".to_string());
    c
}

fn shown(c: &ChatClient) -> Vec<(i64, String, String)> {
    c.display_buffer()
        .iter()
        .map(|e| (e.message.sent, e.message.text.clone(), e.sender_name.clone()))
        .collect()
}

#[test]
fn route_rename_command() {
    match route_input("/name Alice") {
        Some(Action::SetName(n)) => assert_eq!(n, "Alice"),
        other => panic!("expected a rename, got {:?}", other),
    }
}

#[test]
fn route_plain_message() {
    match route_input("hello") {
        Some(Action::SendMessage(m)) => assert_eq!(m, "hello"),
        other => panic!("expected a message, got {:?}", other),
    }
}

#[test]
fn route_empty_and_blank_input() {
    assert!(route_input("").is_none());
    assert!(route_input("   \t\n").is_none());
    assert!(route_input("\u{3000}").is_none());
}

#[test]
fn route_keeps_message_verbatim() {
    match route_input("  hi there ") {
        Some(Action::SendMessage(m)) => assert_eq!(m, "  hi there "),
        other => panic!("expected a message, got {:?}", other),
    }
    match route_input("/names are fun") {
        Some(Action::SendMessage(m)) => assert_eq!(m, "/names are fun"),
        other => panic!("expected a message, got {:?}", other),
    }
    match route_input("/name ") {
        Some(Action::SetName(n)) => assert_eq!(n, ""),
        other => panic!("expected a rename, got {:?}", other),
    }
    match route_input("/name Zoë ☕") {
        Some(Action::SetName(n)) => assert_eq!(n, "Zoë ☕"),
        other => panic!("expected a rename, got {:?}", other),
    }
}

#[test]
fn submit_routes_only_while_connected() {
    let mut c = ChatClient::new(None);
    assert!(c.submit("hello").is_none());
    c.set_desired_name("Bob".to_string());
    let req = c.connect().unwrap();
    assert!(c.submit("hello").is_none());
    c.on_connected(req.attempt, id(1), "tok".to_string());
    assert!(matches!(c.submit("/name Alice"), Some(Action::SetName(ref n)) if n == "Alice"));
    assert!(matches!(c.submit("hello"), Some(Action::SendMessage(ref m)) if m == "hello"));
    assert!(c.submit("").is_none());
}

#[test]
fn end_to_end_bob_says_hi() {
    let mut c = ChatClient::new(None);
    c.set_desired_name("Bob".to_string());
    let req = c.connect().unwrap();
    assert!(req.token.is_none());
    let actions = c.on_connected(req.attempt, id(1), "secret".to_string());
    assert_eq!(actions.len(), 3);
    assert!(matches!(actions[0], Action::Subscribe));
    assert!(matches!(actions[1], Action::StoreToken(ref t) if t == "secret"));
    assert!(matches!(actions[2], Action::SetName(ref n) if n == "Bob"));
    assert!(c.is_connected());
    assert_eq!(c.identity(), Some(id(1)));
    c.on_user_inserted(req.attempt, user(1, Some("Bob")));
    c.on_message_inserted(req.attempt, msg(1, 1000, "hi"));
    assert_eq!(shown(&c), vec![(1000, "hi".to_string(), "Bob".to_string())]);
}

#[test]
fn second_success_report_is_ignored() {
    let mut c = ChatClient::new(None);
    c.set_desired_name("Bob".to_string());
    let req = c.connect().unwrap();
    let first = c.on_connected(req.attempt, id(1), "t1".to_string());
    let subscribes = first.iter().filter(|a| matches!(a, Action::Subscribe)).count();
    assert_eq!(subscribes, 1);
    let second = c.on_connected(req.attempt, id(2), "t2".to_string());
    assert!(second.is_empty());
    assert_eq!(c.identity(), Some(id(1)));
    assert_eq!(c.stored_token().as_deref(), Some("t1"));
    c.on_user_inserted(req.attempt, user(1, Some("Bob")));
    c.on_message_inserted(req.attempt, msg(1, 5, "once"));
    assert_eq!(c.display_buffer().len(), 1);
}

#[test]
fn superseded_attempt_is_ignored() {
    let mut c = ChatClient::new(None);
    c.set_desired_name("Bob".to_string());
    let first = c.connect().unwrap();
    let second = c.connect().unwrap();
    assert_eq!(first.attempt + 1, second.attempt);
    assert!(c.on_connected(first.attempt, id(7), "old".to_string()).is_empty());
    assert!(!c.is_connected());
    assert_eq!(c.on_connected(second.attempt, id(8), "new".to_string()).len(), 3);
    c.on_message_inserted(first.attempt, msg(7, 1, "stale"));
    c.on_disconnected(first.attempt);
    assert!(c.is_connected());
    assert!(c.display_buffer().is_empty());
}

#[test]
fn unknown_sender_resolves_to_unknown() {
    let mut c = connected_client("Bob");
    let a = c.attempt();
    c.on_message_inserted(a, msg(42, 10, "who am I"));
    c.on_user_inserted(a, user(3, None));
    c.on_message_inserted(a, msg(3, 11, "nameless"));
    assert_eq!(
        shown(&c),
        vec![
            (10, "who am I".to_string(), "unknown".to_string()),
            (11, "nameless".to_string(), "unknown".to_string()),
        ]
    );
    assert_eq!(c.resolve(id(42)), "unknown");
}

#[test]
fn sender_name_is_a_snapshot() {
    let mut c = connected_client("Bob");
    let a = c.attempt();
    c.on_user_inserted(a, user(2, None));
    c.on_message_inserted(a, msg(2, 1, "early"));
    c.on_user_updated(a, user(2, None), user(2, Some("Carol")));
    c.on_message_inserted(a, msg(2, 2, "later"));
    assert_eq!(
        shown(&c),
        vec![
            (1, "early".to_string(), "unknown".to_string()),
            (2, "later".to_string(), "Carol".to_string()),
        ]
    );
    c.on_user_deleted(a, user(2, Some("Carol")));
    assert_eq!(c.resolve(id(2)), "unknown");
    assert_eq!(shown(&c)[1].2, "Carol");
}

#[test]
fn disconnect_resets_and_keeps_token() {
    let mut c = ChatClient::new(Some("stored".to_string()));
    c.set_desired_name("Bob".to_string());
    let req = c.connect().unwrap();
    assert_eq!(req.token.as_deref(), Some("stored"));
    c.on_connected(req.attempt, id(1), "fresh".to_string());
    c.on_user_inserted(req.attempt, user(1, Some("Bob")));
    c.on_message_inserted(req.attempt, msg(1, 3, "hi"));
    assert!(!c.users_empty());
    c.on_disconnected(req.attempt);
    assert!(!c.is_connected());
    assert_eq!(c.phase(), Phase::Idle);
    assert!(c.display_buffer().is_empty());
    assert!(c.users_empty());
    assert_eq!(c.stored_token().as_deref(), Some("fresh"));
    let again = c.connect().unwrap();
    assert_eq!(again.token.as_deref(), Some("fresh"));
    assert_eq!(again.attempt, req.attempt + 1);
}

#[test]
fn failed_connect_clears_and_allows_retry() {
    let mut c = ChatClient::new(None);
    c.set_desired_name("Bob".to_string());
    let req = c.connect().unwrap();
    c.on_disconnected(req.attempt);
    assert_eq!(c.phase(), Phase::Idle);
    let retry = c.connect().unwrap();
    assert_eq!(c.phase(), Phase::Connecting);
    assert_eq!(c.on_connected(retry.attempt, id(1), "t".to_string()).len(), 3);
    assert!(c.is_connected());
}

#[test]
fn connect_needs_a_name() {
    let mut c = ChatClient::new(None);
    assert!(c.connect().is_none());
    c.set_desired_name(String::new());
    assert!(c.desired_name().is_none());
    assert!(c.connect().is_none());
    assert_eq!(c.phase(), Phase::Idle);
    c.set_desired_name("Ann".to_string());
    assert_eq!(c.desired_name().as_deref(), Some("Ann"));
    assert!(c.connect().is_some());
}

#[test]
fn buffer_sorted_with_ties_in_arrival_order() {
    let mut c = connected_client("Bob");
    let a = c.attempt();
    c.on_user_inserted(a, user(1, Some("Bob")));
    c.on_message_inserted(a, msg(1, 30, "c"));
    c.on_message_inserted(a, msg(1, 10, "a"));
    c.on_message_inserted(a, msg(1, 20, "b1"));
    c.on_message_inserted(a, msg(1, 20, "b2"));
    c.on_message_inserted(a, msg(1, -5, "first"));
    c.on_message_inserted(a, msg(1, 30, "d"));
    let texts: Vec<String> = shown(&c).into_iter().map(|(_, t, _)| t).collect();
    assert_eq!(texts, vec!["first", "a", "b1", "b2", "c", "d"]);
    let times: Vec<i64> = shown(&c).into_iter().map(|(t, _, _)| t).collect();
    assert!(times.windows(2).all(|w| w[0] <= w[1]));
}

#[test]
fn user_insert_replaces_existing_row() {
    let mut c = connected_client("Bob");
    let a = c.attempt();
    c.on_user_inserted(a, user(5, Some("Eve")));
    c.on_user_inserted(a, user(5, Some("Eva")));
    assert_eq!(c.resolve(id(5)), "Eva");
    c.on_user_deleted(a, user(5, None));
    assert!(c.users_empty());
}

#[test]
fn events_before_connect_are_dropped() {
    let mut c = ChatClient::new(None);
    c.on_user_inserted(0, user(1, Some("Bob")));
    c.on_message_inserted(0, msg(1, 1, "x"));
    assert!(c.users_empty());
    assert!(c.display_buffer().is_empty());
}
