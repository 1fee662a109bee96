//! What the user can choose at the prompt.
use vstd::prelude::*;
use crate::method::BitburnerMethod;
use crate::text::text_eq;

verus! {

/// A choice of the user.
#[derive(Clone, Copy, Debug, PartialEq, Eq, Structural)]
pub enum Action {
    /// Push all script files to the remote host.
    PushAllFiles,
    /// Fetch the definition file.
    GetDefinitions,
    /// List the file names on the remote host.
    GetAllFileNames,
    /// Quit the application.
    Quit,
}

impl Action {
    /// The label shown for the action.
    pub open spec fn label(self) -> Seq<char> {
        match self {
            Action::PushAllFiles => "push all files"@,
            Action::GetDefinitions => "show definitions"@,
            Action::GetAllFileNames => "show all filenames on home"@,
            Action::Quit => "quit"@,
        }
    }

    /// The action whose label is `s`, if any.
    pub open spec fn of_label(s: Seq<char>) -> Option<Action> {
        if s == "push all files"@ {
            Some(Action::PushAllFiles)
        } else if s == "show definitions"@ {
            Some(Action::GetDefinitions)
        } else if s == "show all filenames on home"@ {
            Some(Action::GetAllFileNames)
        } else if s == "quit"@ {
            Some(Action::Quit)
        } else {
            None
        }
    }

    /// The operation an action asks of the remote host; none for quitting.
    pub open spec fn spec_method(self) -> Option<BitburnerMethod> {
        match self {
            Action::PushAllFiles => Some(BitburnerMethod::PushFile),
            Action::GetDefinitions => Some(BitburnerMethod::GetDefinitionFile),
            Action::GetAllFileNames => Some(BitburnerMethod::GetFileNames),
            Action::Quit => None,
        }
    }

    /// The label shown for the action.
    pub fn as_str(&self) -> (r: &'static str)
        ensures
            r@ == self.label(),
    {
        match self {
            Action::PushAllFiles => "push all files",
            Action::GetDefinitions => "show definitions",
            Action::GetAllFileNames => "show all filenames on home",
            Action::Quit => "quit",
        }
    }

    /// The action that the prompt's selection names; `None` for any other text.
    pub fn from(selection: &str) -> (r: Option<Action>)
        ensures
            r == Action::of_label(selection@),
    {
        if text_eq(selection, "push all files") {
            Some(Action::PushAllFiles)
        } else if text_eq(selection, "show definitions") {
            Some(Action::GetDefinitions)
        } else if text_eq(selection, "show all filenames on home") {
            Some(Action::GetAllFileNames)
        } else if text_eq(selection, "quit") {
            Some(Action::Quit)
        } else {
            None
        }
    }

    /// The operation an action asks of the remote host; `None` for quitting.
    pub fn method(&self) -> (r: Option<BitburnerMethod>)
        ensures
            r == self.spec_method(),
    {
        match self {
            Action::PushAllFiles => Some(BitburnerMethod::PushFile),
            Action::GetDefinitions => Some(BitburnerMethod::GetDefinitionFile),
            Action::GetAllFileNames => Some(BitburnerMethod::GetFileNames),
            Action::Quit => None,
        }
    }

    /// The choices offered at the prompt, in the order they are shown.
    pub fn menu() -> (r: Vec<Action>)
        ensures
            r@ == seq![Action::GetAllFileNames, Action::PushAllFiles, Action::GetDefinitions, Action::Quit],
    {
        vec![Action::GetAllFileNames, Action::PushAllFiles, Action::GetDefinitions, Action::Quit]
    }
}

/// Each action is found again from its label.
pub proof fn lemma_label_round_trip(a: Action)
    ensures
        Action::of_label(a.label()) == Some(a),
{
    reveal_strlit("push all files");
    reveal_strlit("show definitions");
    reveal_strlit("show all filenames on home");
    reveal_strlit("quit");
    assert("push all files"@.len() == 14);
    assert("show definitions"@.len() == 16);
    assert("show all filenames on home"@.len() == 26);
    assert("quit"@.len() == 4);
}

} // verus!
