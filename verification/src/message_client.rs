use vstd::prelude::*;
use crate::hint_map::{ElementId, HintMap, HintTarget};
use crate::protocol::{Action, Message};
use crate::text::{push_char, str_eq};

verus! {

/// The state of the extension for its page, as values.
pub struct ModelView {
    /// The file input that was clicked and waits for its file.
    pub activated_file_input: Option<ElementId>,
    /// The keys typed since the hints were shown.
    pub hint_keys: Seq<char>,
    /// The hints shown on the page.
    pub hint_map: Map<Seq<char>, HintTarget>,
    /// The element that was hovered last.
    pub last_hovered_element: Option<ElementId>,
    /// The page that the extension works on.
    pub page_id: Option<u64>,
}

/// The state of the extension for its page.
pub struct Model {
    activated_file_input: Option<ElementId>,
    hint_keys: String,
    hint_map: HintMap,
    last_hovered_element: Option<ElementId>,
    page_id: Option<u64>,
}

impl View for Model {
    type V = ModelView;

    closed spec fn view(&self) -> ModelView {
        ModelView {
            activated_file_input: self.activated_file_input,
            hint_keys: self.hint_keys@,
            hint_map: self.hint_map@,
            last_hovered_element: self.last_hovered_element,
            page_id: self.page_id,
        }
    }
}

/// The state before any message: no page, no hint, nothing activated or hovered.
pub open spec fn initial_model() -> ModelView {
    ModelView {
        activated_file_input: None,
        hint_keys: Seq::empty(),
        hint_map: Map::empty(),
        last_hovered_element: None,
        page_id: None,
    }
}

impl Model {
    pub fn new() -> (r: Model)
        ensures
            r@ == initial_model(),
    {
        Model {
            activated_file_input: None,
            hint_keys: String::new(),
            hint_map: HintMap::new(),
            last_hovered_element: None,
            page_id: None,
        }
    }

    /// The page that the extension works on, once it is known.
    pub fn page_id(&self) -> (r: Option<u64>)
        ensures
            r == self@.page_id,
    {
        self.page_id
    }

    /// The keys typed since the hints were shown.
    pub fn hint_keys(&self) -> (r: &String)
        ensures
            r@ == self@.hint_keys,
    {
        &self.hint_keys
    }

    /// The hints shown on the page.
    pub fn hint_map(&self) -> (r: &HintMap)
        ensures
            r@ == self@.hint_map,
    {
        &self.hint_map
    }

    /// The file input that waits for its file.
    pub fn activated_file_input(&self) -> (r: Option<ElementId>)
        ensures
            r == self@.activated_file_input,
    {
        self.activated_file_input
    }

    /// The element that was hovered last.
    pub fn last_hovered_element(&self) -> (r: Option<ElementId>)
        ensures
            r == self@.last_hovered_element,
    {
        self.last_hovered_element
    }
}

/// How a hint is followed.
#[derive(Clone, Copy, Debug, PartialEq, Eq, Structural)]
pub enum Follow {
    Click,
    Hover,
}

/// The follow mode "hover" hovers the element; any other clicks it.
pub open spec fn follow_of(mode: Seq<char>) -> Follow {
    if mode == "hover"@ {
        Follow::Hover
    } else {
        Follow::Click
    }
}

/// What the element to click is, as the page tells it.
#[derive(Debug, PartialEq, Eq)]
pub enum ElementKind {
    /// An `input` element, with its `type` where it has one.
    Input(Option<String>),
    /// A `textarea` element.
    TextArea,
    /// A `select` element, with whether it allows several choices (`multiple`).
    Select(bool),
    /// Any other HTML element.
    Other,
}

/// What to do to the clicked element on the page.
#[derive(Clone, Copy, Debug, PartialEq, Eq, Structural)]
pub enum DomAction {
    Click,
    Focus,
    MouseDown,
    Nothing,
}

/// How an input of a given `type` reacts to a click.
#[derive(Clone, Copy, Debug, PartialEq, Eq, Structural)]
pub enum InputClass {
    /// Buttons, check boxes, images, radio buttons, reset and submit: clicked.
    Pressable,
    /// A color chooser: left alone.
    Color,
    /// A file chooser: waits for a file.
    File,
    /// Anything else takes text: focused.
    Text,
}

pub open spec fn input_class(input_type: Seq<char>) -> InputClass {
    if input_type == "button"@ || input_type == "checkbox"@ || input_type == "image"@
        || input_type == "radio"@ || input_type == "reset"@ || input_type == "submit"@ {
        InputClass::Pressable
    } else if input_type == "color"@ {
        InputClass::Color
    } else if input_type == "file"@ {
        InputClass::File
    } else {
        InputClass::Text
    }
}

/// The action sent after clicking an element of this kind, and what is done to it.
pub open spec fn click_outcome(kind: ElementKind) -> (Action, DomAction) {
    match kind {
        ElementKind::Input(None) => (Action::NoAction, DomAction::Nothing),
        ElementKind::Input(Some(t)) => match input_class(t@) {
            InputClass::Pressable => (Action::NoAction, DomAction::Click),
            InputClass::Color => (Action::NoAction, DomAction::Nothing),
            InputClass::File => (Action::FileInput, DomAction::Nothing),
            InputClass::Text => (Action::GoInInsertMode, DomAction::Focus),
        },
        ElementKind::TextArea => (Action::GoInInsertMode, DomAction::Focus),
        ElementKind::Select(multiple) => if multiple {
            (Action::GoInInsertMode, DomAction::Focus)
        } else {
            (Action::NoAction, DomAction::MouseDown)
        },
        ElementKind::Other => (Action::NoAction, DomAction::Click),
    }
}

/// Whether the element is a file input.
pub open spec fn is_file_input(kind: ElementKind) -> bool {
    kind matches ElementKind::Input(Some(t)) && input_class(t@) == InputClass::File
}

/// The state after clicking `element`: a file input becomes the activated one.
pub open spec fn click_model(m: ModelView, element: ElementId, kind: ElementKind) -> ModelView {
    if is_file_input(kind) {
        ModelView { activated_file_input: Some(element), ..m }
    } else {
        m
    }
}

/// The state after hovering `element`.
pub open spec fn hover_model(m: ModelView, element: ElementId) -> ModelView {
    ModelView { last_hovered_element: Some(element), ..m }
}

/// The state once the hints that the typed keys no longer name are hidden:
/// where they all are, the typed keys start over.
pub open spec fn finish_hint_key_model(m: ModelView, all_hidden: bool) -> ModelView {
    if all_hidden {
        ModelView { hint_keys: Seq::empty(), ..m }
    } else {
        m
    }
}

/// A message from the UI process, or what happened to the channel.
pub enum Msg {
    /// A message that was read.
    MsgRecv(Message),
    /// A message could not be read; the error as text.
    MsgError(String),
    /// The page that the extension works on.
    SetPageId(u64),
}

/// What the page or the channel is asked to do after a message.
#[derive(Debug, PartialEq, Eq)]
pub enum Task {
    /// Nothing.
    Idle,
    /// Print this error.
    PrintError(String),
    /// Send this message to the UI process.
    Send(Message),
    /// Hide the hints, then follow the element (`click` or `hover`), then send
    /// the `activation_reply` of the action that the follow returns.
    FollowHint(Follow, ElementId),
    /// Click the link of the selected text.
    ActivateSelection,
    /// Hide the hints that the typed keys (`Model::hint_keys`) no longer name,
    /// then report whether all are hidden to `finish_hint_key`.
    HideUnrelevantHints,
    /// Hand the text inputs of the page to `focus_input`; where it returns
    /// one, focus it and send `EnterInsertMode`.
    FocusInput,
    /// Read the login form, and send what `credentials_message` makes of it.
    SendCredentials,
    /// Read the scroll percentage, and send what `scroll_percentage_message`
    /// makes of it.
    SendScrollPercentage,
    /// Hide the hints.
    HideHints,
    /// Fill the password of the login form.
    LoadPassword(String),
    /// Fill the user name of the login form.
    LoadUsername(String),
    ScrollBottom,
    ScrollBy(i64),
    ScrollByX(i64),
    ScrollTop,
    /// Give this file to this file input.
    SelectFile(ElementId, String),
    /// Create hints made of these characters and show them; where they were
    /// created, hand their map to `set_hint_map`.
    ShowHints(String),
    /// Submit the login form.
    SubmitLoginForm,
}

/// The HTML element that the hint labelled `keys` names, if there is one.
pub open spec fn html_hint(m: ModelView, keys: Seq<char>) -> Option<ElementId> {
    if m.hint_map.contains_key(keys) && m.hint_map[keys].is_html {
        Some(m.hint_map[keys].element)
    } else {
        None
    }
}

/// The state after a message.
pub open spec fn update_model(m: ModelView, event: Msg) -> ModelView {
    match event {
        Msg::MsgError(_) => m,
        Msg::SetPageId(id) => ModelView { page_id: Some(id), ..m },
        Msg::MsgRecv(message) => match message {
            Message::ActivateHint(_) => if html_hint(m, m.hint_keys) is Some {
                ModelView { hint_map: Map::empty(), hint_keys: Seq::empty(), ..m }
            } else {
                m
            },
            Message::EnterHintKey(key) => ModelView { hint_keys: m.hint_keys.push(key), ..m },
            Message::SelectFile(_) => ModelView { activated_file_input: None, ..m },
            Message::ShowHints(_) => ModelView { hint_keys: Seq::empty(), ..m },
            _ => m,
        },
    }
}

/// What the page or the channel is asked to do after a message.
pub open spec fn update_task(m: ModelView, event: Msg) -> Task {
    match event {
        Msg::MsgError(error) => Task::PrintError(error),
        Msg::SetPageId(_) => Task::Idle,
        Msg::MsgRecv(message) => match message {
            Message::ActivateHint(mode) => match html_hint(m, m.hint_keys) {
                Some(element) => Task::FollowHint(follow_of(mode@), element),
                None => Task::Send(Message::ActivateAction(Action::NoAction.code_spec())),
            },
            Message::ActivateSelection => Task::ActivateSelection,
            Message::EnterHintKey(key) => if html_hint(m, m.hint_keys.push(key)) is Some {
                Task::Send(Message::ClickHintElement)
            } else {
                Task::HideUnrelevantHints
            },
            Message::FocusInput => Task::FocusInput,
            Message::GetCredentials => Task::SendCredentials,
            Message::GetScrollPercentage => Task::SendScrollPercentage,
            Message::HideHints => Task::HideHints,
            Message::LoadPassword(password) => Task::LoadPassword(password),
            Message::LoadUsername(username) => Task::LoadUsername(username),
            Message::ScrollBottom => Task::ScrollBottom,
            Message::ScrollBy(pixels) => Task::ScrollBy(pixels),
            Message::ScrollByX(pixels) => Task::ScrollByX(pixels),
            Message::ScrollTop => Task::ScrollTop,
            Message::SelectFile(file) => match m.activated_file_input {
                Some(input) => Task::SelectFile(input, file),
                None => Task::Idle,
            },
            Message::ShowHints(hint_chars) => Task::ShowHints(hint_chars),
            Message::SubmitLoginForm => Task::SubmitLoginForm,
            _ => Task::Idle,
        },
    }
}

/// A text input of the page, as the page describes it.
pub struct InputCandidate {
    pub element: ElementId,
    pub hidden: bool,
    pub enabled: bool,
    pub text_input: bool,
    /// Its `tabindex` attribute, where it has one.
    pub tabindex: Option<String>,
}

/// An input is focused when it is shown, enabled, takes text and is not taken
/// out of the tab order (`tabindex` "-1").
pub open spec fn focusable(c: InputCandidate) -> bool {
    &&& !c.hidden
    &&& c.enabled
    &&& c.text_input
    &&& !(c.tabindex matches Some(t) && t@ == "-1"@)
}

/// Whether `i` is the position of the first focusable candidate.
pub open spec fn is_first_focusable(candidates: Seq<InputCandidate>, i: int) -> bool {
    &&& 0 <= i < candidates.len()
    &&& focusable(candidates[i])
    &&& forall|j: int| 0 <= j < i ==> !focusable(#[trigger] candidates[j])
}

/// The input to focus: the first focusable candidate, where there is one.
pub open spec fn focus_target(candidates: Seq<InputCandidate>) -> Option<ElementId> {
    if exists|i: int| is_first_focusable(candidates, i) {
        Some(candidates[choose|i: int| is_first_focusable(candidates, i)].element)
    } else {
        None
    }
}

/// The user name and the password found in a login form.
pub struct Credential {
    pub username: String,
    pub password: String,
}

/// Whether `r` is the reply that carries `credential`: the user name and the
/// password found in the form, or two empty strings where there is none.
pub open spec fn is_credentials_reply(credential: Option<Credential>, r: Message) -> bool {
    match credential {
        Some(c) => r == Message::Credentials(c.username, c.password),
        None => r matches Message::Credentials(u, p) && u@.len() == 0 && p@.len() == 0,
    }
}

/// The reply that carries the scroll percentage of the page: 0 where there is
/// no page.
pub open spec fn scroll_percentage_reply(percentage: Option<i64>) -> Message {
    Message::ScrollPercentage(
        match percentage {
            Some(p) => p,
            None => 0,
        },
    )
}

/// The extension's handler of the messages from the UI process.
pub struct MessageClient {
    pub model: Model,
}

impl MessageClient {
    /// A handler in the state before any message.
    pub fn new() -> (r: MessageClient)
        ensures
            r.model@ == initial_model(),
    {
        MessageClient { model: Model::new() }
    }

    /// The HTML element that the typed keys name, if any.
    fn typed_html_hint(&self) -> (r: Option<ElementId>)
        ensures
            r == html_hint(self.model@, self.model@.hint_keys),
    {
        match self.model.hint_map.get(self.model.hint_keys.as_str()) {
            Some(target) => if target.is_html {
                Some(target.element)
            } else {
                None
            },
            None => None,
        }
    }

    /// Handles a message: changes the state and says what the page or the
    /// channel is to do.
    pub fn update(&mut self, event: Msg) -> (task: Task)
        ensures
            final(self).model@ == update_model(old(self).model@, event),
            task == update_task(old(self).model@, event),
    {
        match event {
            Msg::MsgError(error) => Task::PrintError(error),
            Msg::SetPageId(page_id) => {
                self.model.page_id = Some(page_id);
                Task::Idle
            },
            Msg::MsgRecv(message) => match message {
                Message::ActivateHint(follow_mode) => self.activate_hint(&follow_mode),
                Message::ActivateSelection => Task::ActivateSelection,
                Message::EnterHintKey(key) => self.enter_hint_key(key),
                Message::FocusInput => Task::FocusInput,
                Message::GetCredentials => Task::SendCredentials,
                Message::GetScrollPercentage => Task::SendScrollPercentage,
                Message::HideHints => Task::HideHints,
                Message::LoadPassword(password) => Task::LoadPassword(password),
                Message::LoadUsername(username) => Task::LoadUsername(username),
                Message::ScrollBottom => Task::ScrollBottom,
                Message::ScrollBy(pixels) => Task::ScrollBy(pixels),
                Message::ScrollByX(pixels) => Task::ScrollByX(pixels),
                Message::ScrollTop => Task::ScrollTop,
                Message::SelectFile(file) => self.select_file(file),
                Message::ShowHints(hint_chars) => {
                    self.model.hint_keys = String::new();
                    Task::ShowHints(hint_chars)
                },
                Message::SubmitLoginForm => Task::SubmitLoginForm,
                _ => Task::Idle,
            },
        }
    }

    /// Activates the hint named by the typed keys: the hints are dropped and
    /// the element is to be followed; where the keys name no HTML element,
    /// the UI process is told that there is nothing to do.
    fn activate_hint(&mut self, follow_mode: &String) -> (task: Task)
        ensures
            final(self).model@ == update_model(
                old(self).model@,
                Msg::MsgRecv(Message::ActivateHint(*follow_mode)),
            ),
            task == update_task(old(self).model@, Msg::MsgRecv(Message::ActivateHint(*follow_mode))),
    {
        let follow = if str_eq(follow_mode.as_str(), "hover") {
            Follow::Hover
        } else {
            Follow::Click
        };
        match self.typed_html_hint() {
            Some(element) => {
                self.model.hint_map = HintMap::new();
                self.model.hint_keys = String::new();
                Task::FollowHint(follow, element)
            },
            None => Task::Send(Self::activation_reply(Action::NoAction)),
        }
    }

    /// Adds a key to the typed keys: where they now name an HTML element, the
    /// UI process is told so; else the hints they no longer name are to be
    /// hidden.
    fn enter_hint_key(&mut self, key: char) -> (task: Task)
        ensures
            final(self).model@ == update_model(old(self).model@, Msg::MsgRecv(Message::EnterHintKey(key))),
            task == update_task(old(self).model@, Msg::MsgRecv(Message::EnterHintKey(key))),
    {
        push_char(&mut self.model.hint_keys, key);
        if self.typed_html_hint().is_some() {
            Task::Send(Message::ClickHintElement)
        } else {
            Task::HideUnrelevantHints
        }
    }

    /// Takes the activated file input, which is to get the file.
    fn select_file(&mut self, file: String) -> (task: Task)
        ensures
            final(self).model@ == update_model(old(self).model@, Msg::MsgRecv(Message::SelectFile(file))),
            task == update_task(old(self).model@, Msg::MsgRecv(Message::SelectFile(file))),
    {
        match self.model.activated_file_input.take() {
            Some(input) => Task::SelectFile(input, file),
            None => Task::Idle,
        }
    }

    /// Clicks an element of a hint: returns the action to send and what to do
    /// to the element; a file input becomes the one that waits for a file.
    pub fn click(&mut self, element: ElementId, kind: &ElementKind) -> (r: (Action, DomAction))
        ensures
            r == click_outcome(*kind),
            final(self).model@ == click_model(old(self).model@, element, *kind),
    {
        match kind {
            ElementKind::Input(input_type) => match input_type {
                Some(t) => {
                    let t = t.as_str();
                    if str_eq(t, "button") || str_eq(t, "checkbox") || str_eq(t, "image") || str_eq(
                        t,
                        "radio",
                    ) || str_eq(t, "reset") || str_eq(t, "submit") {
                        (Action::NoAction, DomAction::Click)
                    } else if str_eq(t, "color") {
                        (Action::NoAction, DomAction::Nothing)
                    } else if str_eq(t, "file") {
                        self.model.activated_file_input = Some(element);
                        (Action::FileInput, DomAction::Nothing)
                    } else {
                        (Action::GoInInsertMode, DomAction::Focus)
                    }
                },
                None => (Action::NoAction, DomAction::Nothing),
            },
            ElementKind::TextArea => (Action::GoInInsertMode, DomAction::Focus),
            ElementKind::Select(multiple) => if *multiple {
                (Action::GoInInsertMode, DomAction::Focus)
            } else {
                (Action::NoAction, DomAction::MouseDown)
            },
            ElementKind::Other => (Action::NoAction, DomAction::Click),
        }
    }

    /// Hovers an element of a hint: returns the element hovered before, which
    /// the pointer leaves, and the action to send.
    pub fn hover(&mut self, element: ElementId) -> (r: (Option<ElementId>, Action))
        ensures
            r == (old(self).model@.last_hovered_element, Action::NoAction),
            final(self).model@ == hover_model(old(self).model@, element),
    {
        let left = self.model.last_hovered_element;
        self.model.last_hovered_element = Some(element);
        (left, Action::NoAction)
    }

    /// Takes note of whether hiding the hints that the typed keys no longer
    /// name hid them all; returns whether all hints are to be shown again.
    pub fn finish_hint_key(&mut self, all_hidden: bool) -> (show_all_hints: bool)
        ensures
            show_all_hints == all_hidden,
            final(self).model@ == finish_hint_key_model(old(self).model@, all_hidden),
    {
        if all_hidden {
            self.model.hint_keys = String::new();
        }
        all_hidden
    }

    /// Takes the map of the hints that were created and shown.
    pub fn set_hint_map(&mut self, hint_map: HintMap)
        ensures
            final(self).model@ == (ModelView { hint_map: hint_map@, ..old(self).model@ }),
    {
        self.model.hint_map = hint_map;
    }

    /// The text input to focus: the first focusable one of `candidates`.
    pub fn focus_input(candidates: &Vec<InputCandidate>) -> (r: Option<ElementId>)
        ensures
            r == focus_target(candidates@),
    {
        let n: usize = candidates.len();
        let mut i: usize = 0;
        while i < n
            invariant
                n == candidates@.len(),
                i <= n,
                forall|j: int| 0 <= j < i ==> !focusable(#[trigger] candidates@[j]),
            decreases n - i,
        {
            let c = &candidates[i];
            let skipped = match &c.tabindex {
                Some(t) => str_eq(t.as_str(), "-1"),
                None => false,
            };
            if !c.hidden && c.enabled && c.text_input && !skipped {
                proof {
                    assert(is_first_focusable(candidates@, i as int));
                    let k = choose|k: int| is_first_focusable(candidates@, k);
                    if k < i {
                        assert(!focusable(candidates@[k]));
                    }
                    if k > i {
                        assert(!focusable(candidates@[i as int]));
                    }
                }
                return Some(c.element);
            }
            i = i + 1;
        }
        assert(!exists|k: int| is_first_focusable(candidates@, k));
        None
    }

    /// The reply that tells the UI process the action that follows the
    /// activation of a hint.
    pub fn activation_reply(action: Action) -> (r: Message)
        ensures
            r == Message::ActivateAction(action.code_spec()),
    {
        Message::ActivateAction(action.code())
    }

    /// The message that carries the credentials of the login form: empty
    /// ones where the page has none.
    pub fn credentials_message(credential: Option<Credential>) -> (r: Message)
        ensures
            is_credentials_reply(credential, r),
    {
        match credential {
            Some(c) => Message::Credentials(c.username, c.password),
            None => Message::Credentials(String::new(), String::new()),
        }
    }

    /// The message that carries the scroll percentage of the page: 0 where
    /// there is no page.
    pub fn scroll_percentage_message(percentage: Option<i64>) -> (r: Message)
        ensures
            r == scroll_percentage_reply(percentage),
    {
        let percentage: i64 = match percentage {
            Some(p) => p,
            None => 0,
        };
        Message::ScrollPercentage(percentage)
    }
}

} // verus!
