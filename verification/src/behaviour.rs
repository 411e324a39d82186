use vstd::prelude::*;
use crate::hint_map::ElementId;
use crate::laws::{law_typed_keys_accumulate, type_keys};
use crate::message_client::{
    click_model, click_outcome, finish_hint_key_model, focus_target, focusable, hover_model,
    is_credentials_reply, is_first_focusable, scroll_percentage_reply, update_model, update_task,
    Credential, DomAction, ElementKind, Follow, InputCandidate, ModelView, Msg, Task,
};
use crate::protocol::{Action, Message};

verus! {

/// Clicking a hinted `input` of type `t`: buttons, check boxes, images, radio
/// buttons, reset and submit buttons are clicked; a color chooser is left
/// alone; a file chooser becomes the input that waits for a file and the UI
/// process is asked for one; an input of any other type (text, number,
/// password, ...) is focused and the UI process enters insert mode.
pub proof fn law_click_by_input_type(m: ModelView, element: ElementId, t: String)
    ensures
        (t@ == "button"@ || t@ == "checkbox"@ || t@ == "image"@ || t@ == "radio"@ || t@ == "reset"@
            || t@ == "submit"@) ==> click_outcome(ElementKind::Input(Some(t))) == (
            Action::NoAction,
            DomAction::Click,
        ),
        t@ == "color"@ ==> click_outcome(ElementKind::Input(Some(t))) == (Action::NoAction, DomAction::Nothing),
        t@ == "file"@ ==> click_outcome(ElementKind::Input(Some(t))) == (Action::FileInput, DomAction::Nothing),
        (t@ != "button"@ && t@ != "checkbox"@ && t@ != "image"@ && t@ != "radio"@ && t@ != "reset"@
            && t@ != "submit"@ && t@ != "color"@ && t@ != "file"@) ==> click_outcome(
            ElementKind::Input(Some(t)),
        ) == (Action::GoInInsertMode, DomAction::Focus),
        t@ == "file"@ ==> click_model(m, element, ElementKind::Input(Some(t))) == (ModelView {
            activated_file_input: Some(element),
            ..m
        }),
        t@ != "file"@ ==> click_model(m, element, ElementKind::Input(Some(t))) == m,
{
    reveal_strlit("button");
    reveal_strlit("checkbox");
    reveal_strlit("image");
    reveal_strlit("radio");
    reveal_strlit("reset");
    reveal_strlit("submit");
    reveal_strlit("color");
    reveal_strlit("file");
    let pressable = seq!["button"@, "checkbox"@, "image"@, "radio"@, "reset"@, "submit"@];
    assert forall|i: int| 0 <= i < pressable.len() implies #[trigger] pressable[i] != "file"@ by {
        assert(pressable[i][0] != "file"@[0]);
    }
    assert("color"@ != "button"@ && "color"@ != "checkbox"@ && "color"@ != "submit"@) by {
        assert("color"@.len() == 5);
    }
    assert("color"@ != "image"@ && "color"@ != "radio"@ && "color"@ != "reset"@) by {
        assert("color"@[0] != "image"@[0] && "color"@[0] != "radio"@[0]);
    }
    assert(pressable[0] == "button"@ && pressable[1] == "checkbox"@ && pressable[2] == "image"@);
    assert(pressable[3] == "radio"@ && pressable[4] == "reset"@ && pressable[5] == "submit"@);
    assert("file"@ != "color"@) by {
        assert("file"@.len() == 4);
    }
}

/// Clicking a hinted element that is not an `input` with a type: an input
/// without a type is left alone; a text area, and a list that allows several
/// choices, are focused and the UI process enters insert mode; a list of one
/// choice gets a mouse-down that opens it; any other element is clicked.
/// None of these changes the state.
pub proof fn law_click_other_elements(m: ModelView, element: ElementId)
    ensures
        click_outcome(ElementKind::Input(None)) == (Action::NoAction, DomAction::Nothing),
        click_outcome(ElementKind::TextArea) == (Action::GoInInsertMode, DomAction::Focus),
        click_outcome(ElementKind::Select(true)) == (Action::GoInInsertMode, DomAction::Focus),
        click_outcome(ElementKind::Select(false)) == (Action::NoAction, DomAction::MouseDown),
        click_outcome(ElementKind::Other) == (Action::NoAction, DomAction::Click),
        click_model(m, element, ElementKind::Input(None)) == m,
        click_model(m, element, ElementKind::TextArea) == m,
        click_model(m, element, ElementKind::Select(true)) == m,
        click_model(m, element, ElementKind::Select(false)) == m,
        click_model(m, element, ElementKind::Other) == m,
{
}

/// The codes by which the actions travel, and the reply to a hint that names
/// nothing: `FileInput` 0, `GoInInsertMode` 1, `NoAction` 2.
pub proof fn law_action_codes()
    ensures
        Action::FileInput.code_spec() == 0,
        Action::GoInInsertMode.code_spec() == 1,
        Action::NoAction.code_spec() == 2,
{
}

/// Typing a key appends it to the typed keys, whatever their length, and
/// changes nothing else; the UI process is told `ClickHintElement` exactly
/// when the typed keys are now the label of a hint on an HTML element, and
/// otherwise the hints they no longer name are to be hidden.
pub proof fn law_hint_key_reports_named_hint(m: ModelView, key: char)
    ensures
        ({
            let keys = m.hint_keys.push(key);
            let event = Msg::MsgRecv(Message::EnterHintKey(key));
            &&& update_model(m, event) == (ModelView { hint_keys: keys, ..m })
            &&& (m.hint_map.contains_key(keys) && m.hint_map[keys].is_html) ==> update_task(m, event)
                == Task::Send(Message::ClickHintElement)
            &&& !(m.hint_map.contains_key(keys) && m.hint_map[keys].is_html) ==> update_task(m, event)
                == Task::HideUnrelevantHints
        }),
{
}

/// Once hints are shown, typing the whole label of a hint on an HTML element,
/// of any length, ends with `ClickHintElement`: the last key reports it.
pub proof fn law_typing_a_label_reports_it(m: ModelView, label: Seq<char>)
    requires
        m.hint_keys.len() == 0,
        label.len() > 0,
        m.hint_map.contains_key(label),
        m.hint_map[label].is_html,
    ensures
        update_task(
            type_keys(m, label.drop_last()),
            Msg::MsgRecv(Message::EnterHintKey(label.last())),
        ) == Task::Send(Message::ClickHintElement),
{
    law_typed_keys_accumulate(m, label.drop_last());
    assert((m.hint_keys + label.drop_last()).push(label.last()) =~= label);
}

/// Activating the typed keys: where they are the label of a hint on an HTML
/// element, the hints and the typed keys are dropped and the element is
/// followed, hovered for the mode "hover" and clicked for any other; where
/// they are not, nothing changes and the reply is `ActivateAction(2)`, the
/// code of `NoAction`.
pub proof fn law_activate_hint_follows_named_hint(m: ModelView, mode: String)
    ensures
        ({
            let keys = m.hint_keys;
            let event = Msg::MsgRecv(Message::ActivateHint(mode));
            let named = m.hint_map.contains_key(keys) && m.hint_map[keys].is_html;
            &&& named ==> update_task(m, event) == Task::FollowHint(
                if mode@ == "hover"@ {
                    Follow::Hover
                } else {
                    Follow::Click
                },
                m.hint_map[keys].element,
            )
            &&& named ==> update_model(m, event) == (ModelView {
                hint_keys: Seq::empty(),
                hint_map: Map::empty(),
                ..m
            })
            &&& !named ==> update_task(m, event) == Task::Send(Message::ActivateAction(2))
            &&& !named ==> update_model(m, event) == m
        }),
{
}

/// An input takes the focus when it is shown, enabled and takes text, and its
/// `tabindex` is absent or any value but "-1".
pub open spec fn takes_focus(c: InputCandidate) -> bool {
    &&& !c.hidden
    &&& c.enabled
    &&& c.text_input
    &&& match c.tabindex {
        Some(t) => t@ != "-1"@,
        None => true,
    }
}

/// The input focused is the first that takes the focus; where none does,
/// none is focused.
pub proof fn law_focus_goes_to_first_text_input(candidates: Seq<InputCandidate>, i: int)
    ensures
        forall|c: InputCandidate| focusable(c) <==> takes_focus(c),
        (0 <= i < candidates.len() && takes_focus(candidates[i]) && forall|j: int|
            0 <= j < i ==> !takes_focus(#[trigger] candidates[j])) ==> focus_target(candidates) == Some(
            candidates[i].element,
        ),
        (forall|j: int| 0 <= j < candidates.len() ==> !takes_focus(#[trigger] candidates[j]))
            ==> focus_target(candidates) is None,
{
    assert forall|c: InputCandidate| focusable(c) <==> takes_focus(c) by {}
    if 0 <= i < candidates.len() && takes_focus(candidates[i]) && forall|j: int|
        0 <= j < i ==> !takes_focus(#[trigger] candidates[j]) {
        assert(is_first_focusable(candidates, i));
        let k = choose|k: int| is_first_focusable(candidates, k);
        if k < i {
            assert(!takes_focus(candidates[k]));
        }
        if k > i {
            assert(!focusable(candidates[i]));
        }
    }
    if forall|j: int| 0 <= j < candidates.len() ==> !takes_focus(#[trigger] candidates[j]) {
        if exists|k: int| is_first_focusable(candidates, k) {
            let k = choose|k: int| is_first_focusable(candidates, k);
            assert(!takes_focus(candidates[k]));
        }
    }
}

/// The requests that only the page can carry out become the task of the same
/// name with the same values, and change nothing: scrolling by a signed
/// number of pixels (vertically, or horizontally for `ScrollByX`), to the top
/// or the bottom, filling or submitting the login form, hiding the hints,
/// focusing an input, activating the selection and answering with the
/// credentials or the scroll percentage.
pub proof fn law_page_requests_pass_through(
    m: ModelView,
    pixels: i64,
    password: String,
    username: String,
    hint_chars: String,
)
    ensures
        update_task(m, Msg::MsgRecv(Message::ScrollBy(pixels))) == Task::ScrollBy(pixels),
        update_model(m, Msg::MsgRecv(Message::ScrollBy(pixels))) == m,
        update_task(m, Msg::MsgRecv(Message::ScrollByX(pixels))) == Task::ScrollByX(pixels),
        update_model(m, Msg::MsgRecv(Message::ScrollByX(pixels))) == m,
        update_task(m, Msg::MsgRecv(Message::ScrollTop)) == Task::ScrollTop,
        update_model(m, Msg::MsgRecv(Message::ScrollTop)) == m,
        update_task(m, Msg::MsgRecv(Message::ScrollBottom)) == Task::ScrollBottom,
        update_model(m, Msg::MsgRecv(Message::ScrollBottom)) == m,
        update_task(m, Msg::MsgRecv(Message::LoadPassword(password))) == Task::LoadPassword(password),
        update_model(m, Msg::MsgRecv(Message::LoadPassword(password))) == m,
        update_task(m, Msg::MsgRecv(Message::LoadUsername(username))) == Task::LoadUsername(username),
        update_model(m, Msg::MsgRecv(Message::LoadUsername(username))) == m,
        update_task(m, Msg::MsgRecv(Message::SubmitLoginForm)) == Task::SubmitLoginForm,
        update_model(m, Msg::MsgRecv(Message::SubmitLoginForm)) == m,
        update_task(m, Msg::MsgRecv(Message::HideHints)) == Task::HideHints,
        update_model(m, Msg::MsgRecv(Message::HideHints)) == m,
        update_task(m, Msg::MsgRecv(Message::FocusInput)) == Task::FocusInput,
        update_model(m, Msg::MsgRecv(Message::FocusInput)) == m,
        update_task(m, Msg::MsgRecv(Message::ActivateSelection)) == Task::ActivateSelection,
        update_model(m, Msg::MsgRecv(Message::ActivateSelection)) == m,
        update_task(m, Msg::MsgRecv(Message::GetCredentials)) == Task::SendCredentials,
        update_model(m, Msg::MsgRecv(Message::GetCredentials)) == m,
        update_task(m, Msg::MsgRecv(Message::GetScrollPercentage)) == Task::SendScrollPercentage,
        update_model(m, Msg::MsgRecv(Message::GetScrollPercentage)) == m,
        update_task(m, Msg::MsgRecv(Message::ShowHints(hint_chars))) == Task::ShowHints(hint_chars),
        update_model(m, Msg::MsgRecv(Message::ShowHints(hint_chars))) == (ModelView {
            hint_keys: Seq::empty(),
            ..m
        }),
        update_task(m, Msg::SetPageId(7)) == Task::Idle,
        update_model(m, Msg::SetPageId(7)) == (ModelView { page_id: Some(7), ..m }),
{
}

/// A file sent by the UI process goes to the input that waits for it, which
/// then waits no more; where none waits, nothing is done.
pub proof fn law_select_file_goes_to_waiting_input(m: ModelView, file: String)
    ensures
        update_model(m, Msg::MsgRecv(Message::SelectFile(file))) == (ModelView {
            activated_file_input: None,
            ..m
        }),
        match m.activated_file_input {
            Some(input) => update_task(m, Msg::MsgRecv(Message::SelectFile(file))) == Task::SelectFile(input, file),
            None => update_task(m, Msg::MsgRecv(Message::SelectFile(file))) == Task::Idle,
        },
{
}

/// Hovering remembers the element and changes nothing else; when hiding the
/// hints that the typed keys no longer name hides them all, the typed keys
/// start over, and otherwise nothing changes.
pub proof fn law_hover_and_hint_hiding_steps(m: ModelView, element: ElementId)
    ensures
        hover_model(m, element) == (ModelView { last_hovered_element: Some(element), ..m }),
        finish_hint_key_model(m, true) == (ModelView { hint_keys: Seq::empty(), ..m }),
        finish_hint_key_model(m, false) == m,
{
}

/// The scroll percentage of the page is sent as it is, whatever its value
/// (0 at the top, -1 where nothing scrolls); without a page, 0 is sent. The
/// credentials of the form are sent as they are, and two empty strings where
/// the page has none.  An error of the channel is printed and changes nothing.
pub proof fn law_replies_carry_values(m: ModelView, p: i64, c: Credential, r: Message, error: String)
    ensures
        scroll_percentage_reply(Some(p)) == Message::ScrollPercentage(p),
        scroll_percentage_reply(None) == Message::ScrollPercentage(0),
        is_credentials_reply(Some(c), r) ==> r == Message::Credentials(c.username, c.password),
        is_credentials_reply(None, r) ==> (r matches Message::Credentials(u, pw) && u@ == Seq::<char>::empty()
            && pw@ == Seq::<char>::empty()),
        update_task(m, Msg::MsgError(error)) == Task::PrintError(error),
        update_model(m, Msg::MsgError(error)) == m,
{
    if is_credentials_reply(None, r) {
        if let Message::Credentials(u, pw) = r {
            assert(u@ =~= Seq::<char>::empty());
            assert(pw@ =~= Seq::<char>::empty());
        }
    }
}

} // verus!
