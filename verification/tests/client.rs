use titanium_web_extension::message_client::{
    Credential, DomAction, ElementKind, InputCandidate, MessageClient, Msg, Task,
};
use titanium_web_extension::protocol::{Action, Message};

fn input(t: &str) -> ElementKind {
    ElementKind::Input(Some(t.to_string()))
}

#[test]
fn new_client_knows_nothing() {
    let client = MessageClient::new();
    assert_eq!(client.model.page_id(), None);
    assert_eq!(client.model.hint_keys().as_str(), "");
    assert_eq!(client.model.activated_file_input(), None);
    assert_eq!(client.model.last_hovered_element(), None);
}

#[test]
fn set_page_id_keeps_the_last() {
    let mut client = MessageClient::new();
    assert_eq!(client.update(Msg::SetPageId(7)), Task::Idle);
    assert_eq!(client.model.page_id(), Some(7));
    client.update(Msg::MsgRecv(Message::ScrollTop));
    client.update(Msg::MsgRecv(Message::EnterHintKey('a')));
    assert_eq!(client.model.page_id(), Some(7));
    client.update(Msg::SetPageId(3));
    assert_eq!(client.model.page_id(), Some(3));
}

#[test]
fn click_pressable_inputs() {
    for t in ["button", "checkbox", "image", "radio", "reset", "submit"] {
        let mut client = MessageClient::new();
        assert_eq!(client.click(1, &input(t)), (Action::NoAction, DomAction::Click));
        assert_eq!(client.model.activated_file_input(), None);
    }
}

#[test]
fn click_color_input_does_nothing() {
    let mut client = MessageClient::new();
    assert_eq!(client.click(1, &input("color")), (Action::NoAction, DomAction::Nothing));
}

#[test]
fn click_file_input_waits_for_file() {
    let mut client = MessageClient::new();
    assert_eq!(client.click(4, &input("file")), (Action::FileInput, DomAction::Nothing));
    assert_eq!(client.model.activated_file_input(), Some(4));
    assert_eq!(Action::FileInput.code(), 0);
}

#[test]
fn click_text_inputs_focus() {
    for t in ["text", "password", "email", "search", ""] {
        let mut client = MessageClient::new();
        assert_eq!(client.click(1, &input(t)), (Action::GoInInsertMode, DomAction::Focus));
    }
    assert_eq!(Action::GoInInsertMode.code(), 1);
}

#[test]
fn click_input_without_type_does_nothing() {
    let mut client = MessageClient::new();
    assert_eq!(client.click(1, &ElementKind::Input(None)), (Action::NoAction, DomAction::Nothing));
}

#[test]
fn click_other_elements() {
    let mut client = MessageClient::new();
    assert_eq!(client.click(1, &ElementKind::TextArea), (Action::GoInInsertMode, DomAction::Focus));
    assert_eq!(client.click(1, &ElementKind::Select(true)), (Action::GoInInsertMode, DomAction::Focus));
    assert_eq!(client.click(1, &ElementKind::Select(false)), (Action::NoAction, DomAction::MouseDown));
    assert_eq!(client.click(1, &ElementKind::Other), (Action::NoAction, DomAction::Click));
    assert_eq!(client.model.activated_file_input(), None);
}

#[test]
fn file_input_gets_one_file() {
    let mut client = MessageClient::new();
    client.click(4, &input("file"));
    let task = client.update(Msg::MsgRecv(Message::SelectFile("/tmp/a.txt".to_string())));
    assert_eq!(task, Task::SelectFile(4, "/tmp/a.txt".to_string()));
    assert_eq!(client.model.activated_file_input(), None);
    let task = client.update(Msg::MsgRecv(Message::SelectFile("/tmp/b.txt".to_string())));
    assert_eq!(task, Task::Idle);
}

#[test]
fn select_file_without_input_does_nothing() {
    let mut client = MessageClient::new();
    assert_eq!(client.update(Msg::MsgRecv(Message::SelectFile("f".to_string()))), Task::Idle);
}

#[test]
fn hover_leaves_previous() {
    let mut client = MessageClient::new();
    assert_eq!(client.hover(5), (None, Action::NoAction));
    assert_eq!(client.hover(6), (Some(5), Action::NoAction));
    assert_eq!(client.model.last_hovered_element(), Some(6));
    assert_eq!(Action::NoAction.code(), 2);
}

#[test]
fn activation_reply_carries_code() {
    assert_eq!(MessageClient::activation_reply(Action::FileInput), Message::ActivateAction(0));
    assert_eq!(MessageClient::activation_reply(Action::GoInInsertMode), Message::ActivateAction(1));
    assert_eq!(MessageClient::activation_reply(Action::NoAction), Message::ActivateAction(2));
}

#[test]
fn own_messages_are_ignored() {
    let mut client = MessageClient::new();
    client.update(Msg::SetPageId(1));
    for m in [
        Message::ActivateAction(0),
        Message::ClickHintElement,
        Message::Credentials("u".to_string(), "p".to_string()),
        Message::EnterInsertMode,
        Message::ScrollPercentage(50),
    ] {
        assert_eq!(client.update(Msg::MsgRecv(m)), Task::Idle);
    }
    assert_eq!(client.model.page_id(), Some(1));
    assert_eq!(client.model.hint_keys().as_str(), "");
}

#[test]
fn read_errors_are_printed() {
    let mut client = MessageClient::new();
    let task = client.update(Msg::MsgError("io error".to_string()));
    assert_eq!(task, Task::PrintError("io error".to_string()));
    assert_eq!(client.model.page_id(), None);
}

#[test]
fn page_messages_become_tasks() {
    let mut client = MessageClient::new();
    let cases = [
        (Message::ActivateSelection, Task::ActivateSelection),
        (Message::FocusInput, Task::FocusInput),
        (Message::GetCredentials, Task::SendCredentials),
        (Message::GetScrollPercentage, Task::SendScrollPercentage),
        (Message::HideHints, Task::HideHints),
        (Message::LoadPassword("pw".to_string()), Task::LoadPassword("pw".to_string())),
        (Message::LoadUsername("me".to_string()), Task::LoadUsername("me".to_string())),
        (Message::ScrollBottom, Task::ScrollBottom),
        (Message::ScrollBy(-40), Task::ScrollBy(-40)),
        (Message::ScrollByX(25), Task::ScrollByX(25)),
        (Message::ScrollTop, Task::ScrollTop),
        (Message::SubmitLoginForm, Task::SubmitLoginForm),
    ];
    for (message, task) in cases {
        assert_eq!(client.update(Msg::MsgRecv(message)), task);
    }
}

fn candidate(element: u64, hidden: bool, enabled: bool, text_input: bool, tabindex: Option<&str>) -> InputCandidate {
    InputCandidate { element, hidden, enabled, text_input, tabindex: tabindex.map(|t| t.to_string()) }
}

fn candidates() -> Vec<InputCandidate> {
    vec![
        candidate(1, false, true, true, None),
        candidate(2, true, true, true, None),
        candidate(3, false, false, true, None),
        candidate(4, false, true, false, None),
        candidate(5, false, true, true, Some("-1")),
        candidate(6, false, true, true, Some("0")),
        candidate(7, false, true, true, Some("-12")),
    ]
}

#[test]
fn focus_input_takes_first_focusable() {
    assert_eq!(MessageClient::focus_input(&candidates()), Some(1));
    let mut later: Vec<InputCandidate> = candidates().into_iter().skip(1).collect();
    assert_eq!(MessageClient::focus_input(&later), Some(6));
    later.truncate(4);
    assert_eq!(MessageClient::focus_input(&later), None);
    assert_eq!(MessageClient::focus_input(&Vec::new()), None);
}

#[test]
fn credentials_message_from_form() {
    let m = MessageClient::credentials_message(Some(Credential {
        username: "user".to_string(),
        password: "secret".to_string(),
    }));
    assert_eq!(m, Message::Credentials("user".to_string(), "secret".to_string()));
    assert_eq!(
        MessageClient::credentials_message(None),
        Message::Credentials(String::new(), String::new())
    );
}

#[test]
fn scroll_percentage_message_defaults_to_zero() {
    assert_eq!(MessageClient::scroll_percentage_message(Some(42)), Message::ScrollPercentage(42));
    assert_eq!(MessageClient::scroll_percentage_message(Some(-1)), Message::ScrollPercentage(-1));
    assert_eq!(MessageClient::scroll_percentage_message(None), Message::ScrollPercentage(0));
}

#[test]
fn each_request_gets_one_reply() {
    let mut client = MessageClient::new();
    let task = client.update(Msg::MsgRecv(Message::ActivateHint("hover".to_string())));
    assert_eq!(task, Task::Send(Message::ActivateAction(2)));

    let mut map = titanium_web_extension::hint_map::HintMap::new();
    map.insert("a".to_string(), titanium_web_extension::hint_map::HintTarget { element: 8, is_html: true });
    client.set_hint_map(map);
    client.update(Msg::MsgRecv(Message::EnterHintKey('a')));
    let task = client.update(Msg::MsgRecv(Message::ActivateHint("click".to_string())));
    assert_eq!(task, Task::FollowHint(titanium_web_extension::message_client::Follow::Click, 8));
    let (action, _) = client.click(8, &input("file"));
    assert_eq!(MessageClient::activation_reply(action), Message::ActivateAction(0));

    assert_eq!(client.update(Msg::MsgRecv(Message::GetCredentials)), Task::SendCredentials);
    assert!(matches!(MessageClient::credentials_message(None), Message::Credentials(_, _)));
    assert_eq!(client.update(Msg::MsgRecv(Message::GetScrollPercentage)), Task::SendScrollPercentage);
    assert!(matches!(MessageClient::scroll_percentage_message(Some(10)), Message::ScrollPercentage(10)));
}
