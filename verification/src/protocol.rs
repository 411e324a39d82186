use vstd::prelude::*;

verus! {

/// What the UI process does after a hint was activated.
#[derive(Clone, Copy, Debug, PartialEq, Eq, Structural)]
pub enum Action {
    /// A file input was activated: the UI process asks for a file.
    FileInput,
    /// A text field got the focus: the UI process enters insert mode.
    GoInInsertMode,
    /// Nothing more to do.
    NoAction,
}

impl Action {
    /// The number by which an action travels in an `ActivateAction` message:
    /// its position in the declaration of `Action`.
    pub open spec fn code_spec(self) -> i32 {
        match self {
            Action::FileInput => 0,
            Action::GoInInsertMode => 1,
            Action::NoAction => 2,
        }
    }

    pub fn code(&self) -> (r: i32)
        ensures
            r == self.code_spec(),
    {
        match self {
            Action::FileInput => 0,
            Action::GoInInsertMode => 1,
            Action::NoAction => 2,
        }
    }
}

/// The messages exchanged between the web extension and the UI process.
#[derive(Clone, Debug, PartialEq, Eq)]
pub enum Message {
    /// Sent: the action that follows the activation of a hint (its code).
    ActivateAction(i32),
    /// Received: activate the hint named by the typed keys ("hover" hovers it,
    /// anything else clicks it).
    ActivateHint(String),
    /// Received: click the link of the selected text.
    ActivateSelection,
    /// Sent: the typed keys name a hint.
    ClickHintElement,
    /// Sent: the user name and the password found in the login form.
    Credentials(String, String),
    /// Received: a key typed in hint mode.
    EnterHintKey(char),
    /// Sent: a text field got the focus.
    EnterInsertMode,
    /// Received: focus the first text input.
    FocusInput,
    /// Received: send the credentials of the login form.
    GetCredentials,
    /// Received: send the vertical scroll percentage.
    GetScrollPercentage,
    /// Received: hide the hints.
    HideHints,
    /// Received: fill the password of the login form.
    LoadPassword(String),
    /// Received: fill the user name of the login form.
    LoadUsername(String),
    /// Received: scroll to the bottom of the page.
    ScrollBottom,
    /// Received: scroll vertically by this many pixels.
    ScrollBy(i64),
    /// Received: scroll horizontally by this many pixels.
    ScrollByX(i64),
    /// Sent: the vertical scroll percentage.
    ScrollPercentage(i64),
    /// Received: scroll to the top of the page.
    ScrollTop,
    /// Received: the file chosen for the activated file input.
    SelectFile(String),
    /// Received: show hints made of these characters.
    ShowHints(String),
    /// Received: submit the login form.
    SubmitLoginForm,
}

} // verus!
