use titanium_web_extension::hint_map::{HintMap, HintTarget};
use titanium_web_extension::message_client::{Follow, MessageClient, Msg, Task};
use titanium_web_extension::protocol::{Action, Message};

fn target(element: u64, is_html: bool) -> HintTarget {
    HintTarget { element, is_html }
}

fn client_with_hints() -> MessageClient {
    let mut map = HintMap::new();
    map.insert("a".to_string(), target(1, true));
    map.insert("sd".to_string(), target(2, true));
    map.insert("ff".to_string(), target(3, false));
    let mut client = MessageClient::new();
    let task = client.update(Msg::MsgRecv(Message::ShowHints("asdf".to_string())));
    assert_eq!(task, Task::ShowHints("asdf".to_string()));
    client.set_hint_map(map);
    client
}

fn key(client: &mut MessageClient, c: char) -> Task {
    client.update(Msg::MsgRecv(Message::EnterHintKey(c)))
}

#[test]
fn hint_map_insert_then_get() {
    let mut map = HintMap::new();
    assert_eq!(map.get("a"), None);
    map.insert("a".to_string(), target(4, true));
    map.insert("b".to_string(), target(5, false));
    assert_eq!(map.get("a"), Some(target(4, true)));
    assert_eq!(map.get("b"), Some(target(5, false)));
    assert_eq!(map.get("c"), None);
    assert_eq!(map.get(""), None);
}

#[test]
fn hint_map_insert_replaces_target() {
    let mut map = HintMap::new();
    map.insert("ab".to_string(), target(4, true));
    map.insert("ab".to_string(), target(9, false));
    assert_eq!(map.get("ab"), Some(target(9, false)));
    assert_eq!(map.get("a"), None);
}

#[test]
fn typed_keys_accumulate() {
    let mut client = client_with_hints();
    assert_eq!(client.model.hint_keys().as_str(), "");
    key(&mut client, 's');
    assert_eq!(client.model.hint_keys().as_str(), "s");
    key(&mut client, 'x');
    assert_eq!(client.model.hint_keys().as_str(), "sx");
}

#[test]
fn partial_keys_hide_unrelevant_hints() {
    let mut client = client_with_hints();
    assert_eq!(key(&mut client, 's'), Task::HideUnrelevantHints);
    assert_eq!(client.model.hint_map().get("sd"), Some(target(2, true)));
}

#[test]
fn typed_hint_sends_click_hint_element() {
    let mut client = client_with_hints();
    key(&mut client, 's');
    assert_eq!(key(&mut client, 'd'), Task::Send(Message::ClickHintElement));
    assert_eq!(client.model.hint_keys().as_str(), "sd");
}

#[test]
fn typed_non_html_hint_hides_unrelevant_hints() {
    let mut client = client_with_hints();
    key(&mut client, 'f');
    assert_eq!(key(&mut client, 'f'), Task::HideUnrelevantHints);
}

#[test]
fn activate_hint_hover_follows_and_clears() {
    let mut client = client_with_hints();
    key(&mut client, 's');
    key(&mut client, 'd');
    let task = client.update(Msg::MsgRecv(Message::ActivateHint("hover".to_string())));
    assert_eq!(task, Task::FollowHint(Follow::Hover, 2));
    assert_eq!(client.model.hint_keys().as_str(), "");
    assert_eq!(client.model.hint_map().get("sd"), None);
    assert_eq!(client.model.hint_map().get("a"), None);
}

#[test]
fn activate_hint_other_mode_clicks() {
    let mut client = client_with_hints();
    key(&mut client, 'a');
    let task = client.update(Msg::MsgRecv(Message::ActivateHint("follow".to_string())));
    assert_eq!(task, Task::FollowHint(Follow::Click, 1));
    let task_empty_mode = {
        let mut c = client_with_hints();
        key(&mut c, 'a');
        c.update(Msg::MsgRecv(Message::ActivateHint(String::new())))
    };
    assert_eq!(task_empty_mode, Task::FollowHint(Follow::Click, 1));
}

#[test]
fn activate_unknown_hint_sends_no_action() {
    let mut client = client_with_hints();
    key(&mut client, 'z');
    let task = client.update(Msg::MsgRecv(Message::ActivateHint("hover".to_string())));
    assert_eq!(task, Task::Send(Message::ActivateAction(Action::NoAction.code())));
    assert_eq!(task, Task::Send(Message::ActivateAction(2)));
    assert_eq!(client.model.hint_keys().as_str(), "z");
    assert_eq!(client.model.hint_map().get("a"), Some(target(1, true)));
}

#[test]
fn activate_non_html_hint_sends_no_action() {
    let mut client = client_with_hints();
    key(&mut client, 'f');
    key(&mut client, 'f');
    let task = client.update(Msg::MsgRecv(Message::ActivateHint("click".to_string())));
    assert_eq!(task, Task::Send(Message::ActivateAction(2)));
    assert_eq!(client.model.hint_map().get("ff"), Some(target(3, false)));
}

#[test]
fn show_hints_restarts_keys() {
    let mut client = client_with_hints();
    key(&mut client, 's');
    let task = client.update(Msg::MsgRecv(Message::ShowHints("jk".to_string())));
    assert_eq!(task, Task::ShowHints("jk".to_string()));
    assert_eq!(client.model.hint_keys().as_str(), "");
    assert_eq!(client.model.hint_map().get("sd"), Some(target(2, true)));
}

#[test]
fn all_hidden_restarts_typing() {
    let mut client = client_with_hints();
    key(&mut client, 'q');
    assert!(client.finish_hint_key(true));
    assert_eq!(client.model.hint_keys().as_str(), "");
    assert_eq!(key(&mut client, 'a'), Task::Send(Message::ClickHintElement));
    assert_eq!(client.model.hint_keys().as_str(), "a");
}

#[test]
fn some_shown_keeps_typed_keys() {
    let mut client = client_with_hints();
    key(&mut client, 's');
    assert!(!client.finish_hint_key(false));
    assert_eq!(client.model.hint_keys().as_str(), "s");
}
