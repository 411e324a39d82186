use vstd::prelude::*;
use crate::hint_map::{ElementId, HintMap, HintTarget};
use crate::scroll::scroll_position;
use crate::message_client::{
    click_model, click_outcome, finish_hint_key_model, focus_target, focusable, follow_of,
    is_first_focusable, is_credentials_reply, scroll_percentage_reply, Credential,
    hover_model, is_file_input, update_model, update_task, ElementKind, InputCandidate, ModelView,
    Msg, Task,
};
use crate::protocol::{Action, Message};

verus! {

/// The state after the keys `keys` were typed one by one in hint mode.
pub open spec fn type_keys(m: ModelView, keys: Seq<char>) -> ModelView
    decreases keys.len(),
{
    if keys.len() == 0 {
        m
    } else {
        update_model(type_keys(m, keys.drop_last()), Msg::MsgRecv(Message::EnterHintKey(keys.last())))
    }
}

/// Typing keys in hint mode appends them to the typed keys and changes
/// nothing else.
pub proof fn law_typed_keys_accumulate(m: ModelView, keys: Seq<char>)
    ensures
        type_keys(m, keys) == (ModelView { hint_keys: m.hint_keys + keys, ..m }),
    decreases keys.len(),
{
    if keys.len() > 0 {
        law_typed_keys_accumulate(m, keys.drop_last());
        assert((m.hint_keys + keys.drop_last()).push(keys.last()) =~= m.hint_keys + keys);
    } else {
        assert(m.hint_keys + keys =~= m.hint_keys);
    }
}

/// Showing hints makes the typed keys start over.
pub proof fn law_show_hints_restarts_keys(m: ModelView, hint_chars: String)
    ensures
        update_model(m, Msg::MsgRecv(Message::ShowHints(hint_chars))).hint_keys.len() == 0,
        update_model(m, Msg::MsgRecv(Message::ShowHints(hint_chars))).hint_map == m.hint_map,
        update_task(m, Msg::MsgRecv(Message::ShowHints(hint_chars))) == Task::ShowHints(hint_chars),
{
}

/// Once hints are shown, typing the label of a hint on an HTML element and
/// activating it follows that element, in the mode asked for, and drops the
/// hints and the typed keys.
pub proof fn law_typed_hint_is_activated(m: ModelView, keys: Seq<char>, mode: String)
    requires
        m.hint_keys.len() == 0,
        m.hint_map.contains_key(keys),
        m.hint_map[keys].is_html,
    ensures
        ({
            let typed = type_keys(m, keys);
            let event = Msg::MsgRecv(Message::ActivateHint(mode));
            &&& update_task(typed, event) == Task::FollowHint(follow_of(mode@), m.hint_map[keys].element)
            &&& update_model(typed, event).hint_keys.len() == 0
            &&& update_model(typed, event).hint_map == Map::<Seq<char>, HintTarget>::empty()
        }),
{
    law_typed_keys_accumulate(m, keys);
    assert(m.hint_keys + keys =~= keys);
}

/// Activating keys that name no HTML element changes nothing and tells the UI
/// process that there is nothing to do.
pub proof fn law_unknown_hint_is_no_action(m: ModelView, mode: String)
    requires
        !(m.hint_map.contains_key(m.hint_keys) && m.hint_map[m.hint_keys].is_html),
    ensures
        update_model(m, Msg::MsgRecv(Message::ActivateHint(mode))) == m,
        update_task(m, Msg::MsgRecv(Message::ActivateHint(mode))) == Task::Send(
            Message::ActivateAction(Action::NoAction.code_spec()),
        ),
{
}

/// When hiding the hints that the typed keys no longer name hides them all,
/// typing starts over: the next key is the whole of the typed keys.
pub proof fn law_all_hidden_restarts_typing(m: ModelView, key: char)
    ensures
        update_model(
            finish_hint_key_model(m, true),
            Msg::MsgRecv(Message::EnterHintKey(key)),
        ).hint_keys == seq![key],
        finish_hint_key_model(m, false) == m,
{
    assert(Seq::<char>::empty().push(key) =~= seq![key]);
}

/// A clicked file input waits for exactly one file: the next `SelectFile`
/// gives it the file, and a further one finds no input.
pub proof fn law_file_input_gets_one_file(
    m: ModelView,
    element: ElementId,
    kind: ElementKind,
    file: String,
    next_file: String,
)
    requires
        is_file_input(kind),
    ensures
        click_outcome(kind).0 == Action::FileInput,
        ({
            let clicked = click_model(m, element, kind);
            let selected = update_model(clicked, Msg::MsgRecv(Message::SelectFile(file)));
            &&& update_task(clicked, Msg::MsgRecv(Message::SelectFile(file))) == Task::SelectFile(element, file)
            &&& update_task(selected, Msg::MsgRecv(Message::SelectFile(next_file))) == Task::Idle
        }),
{
}

/// A click answers `FileInput` exactly for a file input, and only a file
/// input changes the state.
pub proof fn law_click_file_input_iff(m: ModelView, element: ElementId, kind: ElementKind)
    ensures
        (click_outcome(kind).0 == Action::FileInput) <==> is_file_input(kind),
        !is_file_input(kind) ==> click_model(m, element, kind) == m,
{
}

/// Hovering an element and then another makes the pointer leave the first.
pub proof fn law_hover_leaves_previous(m: ModelView, first: ElementId, second: ElementId)
    ensures
        hover_model(m, first).last_hovered_element == Some(first),
        hover_model(hover_model(m, first), second).last_hovered_element == Some(second),
{
}

/// The page id is the last one set: no other message, and no step of a
/// task, changes it.
pub proof fn law_page_id_is_last_set(m: ModelView, event: Msg, element: ElementId, kind: ElementKind, all_hidden: bool)
    ensures
        update_model(m, event).page_id == (match event {
            Msg::SetPageId(id) => Some(id),
            _ => m.page_id,
        }),
        click_model(m, element, kind).page_id == m.page_id,
        hover_model(m, element).page_id == m.page_id,
        finish_hint_key_model(m, all_hidden).page_id == m.page_id,
{
}

/// The messages that the extension itself sends, and errors of the channel,
/// change nothing.
pub proof fn law_own_messages_ignored(m: ModelView, message: Message, error: String)
    requires
        message is ActivateAction || message is ClickHintElement || message is Credentials
            || message is EnterInsertMode || message is ScrollPercentage,
    ensures
        update_model(m, Msg::MsgRecv(message)) == m,
        update_task(m, Msg::MsgRecv(message)) == Task::Idle,
        update_model(m, Msg::MsgError(error)) == m,
        update_task(m, Msg::MsgError(error)) == Task::PrintError(error),
{
}

/// The input to focus is the first focusable candidate: it is focusable and
/// no candidate before it is; where no candidate is focusable, none is
/// focused.
pub proof fn law_focus_target_is_first_focusable(candidates: Seq<InputCandidate>)
    ensures
        match focus_target(candidates) {
            Some(element) => exists|i: int|
                is_first_focusable(candidates, i) && #[trigger] candidates[i].element == element,
            None => forall|i: int| 0 <= i < candidates.len() ==> !focusable(#[trigger] candidates[i]),
        },
{
    if focus_target(candidates) is None {
        assert forall|i: int| 0 <= i < candidates.len() implies !focusable(#[trigger] candidates[i]) by {
            if focusable(candidates[i]) {
                lemma_first_focusable_exists(candidates, i);
            }
        }
    } else {
        let k = choose|i: int| is_first_focusable(candidates, i);
        assert(candidates[k].element == focus_target(candidates)->0);
    }
}

/// Where some candidate up to `i` is focusable, a first focusable one exists.
proof fn lemma_first_focusable_exists(candidates: Seq<InputCandidate>, i: int)
    requires
        0 <= i < candidates.len(),
        focusable(candidates[i]),
    ensures
        exists|k: int| is_first_focusable(candidates, k),
    decreases i,
{
    if forall|j: int| 0 <= j < i ==> !focusable(#[trigger] candidates[j]) {
        assert(is_first_focusable(candidates, i));
    } else {
        let j = choose|j: int| 0 <= j < i && focusable(#[trigger] candidates[j]);
        lemma_first_focusable_exists(candidates, j);
    }
}

/// A hint map gives back what was last written for a label, and writing one
/// label leaves the others as they were: after `HintMap::insert(label,
/// target)`, `HintMap::get(label)` gives the target and `HintMap::get` of any
/// other label gives what it gave before.
pub proof fn law_hint_map_read_after_write(
    before: HintMap,
    after: HintMap,
    label: Seq<char>,
    target: HintTarget,
    other: Seq<char>,
)
    requires
        after@ == before@.insert(label, target),
    ensures
        after@.get(label) == Some(target),
        other != label ==> after@.get(other) == before@.get(other),
{
}

/// Scrolling by `a` and then by `b` ends where scrolling by `a + b` does, and
/// scrolling back by the same amount returns to the start.
pub proof fn law_scrolls_compose(top: int, a: int, b: int)
    ensures
        scroll_position(scroll_position(top, a), b) == scroll_position(top, a + b),
        scroll_position(scroll_position(top, a), -a) == top,
{
}

/// Each request of a reply gets exactly one reply of its kind, whatever the
/// state, the page or the hints:
/// - `ActivateHint` is answered at once with one `ActivateAction`, or asks to
///   follow a hint, whose click or hover gives the one action that
///   `activation_reply` turns into one `ActivateAction`;
/// - `GetCredentials` asks for the form's credentials, which
///   `credentials_message` turns into one `Credentials`;
/// - `GetScrollPercentage` asks for the percentage, which
///   `scroll_percentage_message` turns into one `ScrollPercentage`.
/// None of the three changes the state but for the dropped hints of a
/// followed hint.
pub proof fn law_one_reply_per_request(
    m: ModelView,
    mode: String,
    element: ElementId,
    kind: ElementKind,
    credential: Option<Credential>,
    credentials: Message,
    percentage: Option<i64>,
)
    ensures
        match update_task(m, Msg::MsgRecv(Message::ActivateHint(mode))) {
            Task::Send(reply) => reply is ActivateAction
                && update_model(m, Msg::MsgRecv(Message::ActivateHint(mode))) == m,
            Task::FollowHint(follow, e) => follow == follow_of(mode@),
            _ => false,
        },
        Message::ActivateAction(click_outcome(kind).0.code_spec()) is ActivateAction,
        Message::ActivateAction(Action::NoAction.code_spec()) is ActivateAction,
        update_task(m, Msg::MsgRecv(Message::GetCredentials)) == Task::SendCredentials,
        update_model(m, Msg::MsgRecv(Message::GetCredentials)) == m,
        is_credentials_reply(credential, credentials) ==> credentials is Credentials,
        update_task(m, Msg::MsgRecv(Message::GetScrollPercentage)) == Task::SendScrollPercentage,
        update_model(m, Msg::MsgRecv(Message::GetScrollPercentage)) == m,
        scroll_percentage_reply(percentage) is ScrollPercentage,
{
}

} // verus!
