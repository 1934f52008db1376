//! What can go wrong without ending the shell, and the line that tells the
//! user of it.

use vstd::prelude::*;
use vstd::string::StringExecFns;

verus! {

/// Why a builtin could not do its work.
#[derive(Debug, PartialEq, Eq)]
pub enum BuiltinError {
    /// `cd` was given no directory, and the user's home directory is not known.
    HomeNotFound,
    /// `cd -` was asked before the shell had left any directory.
    OldPwdNotSet,
    /// The operating system refused; the text is the cause as it reported it.
    Os(String),
}

/// A [`BuiltinError`] with its text as a sequence of characters.
pub enum BuiltinErrorView {
    HomeNotFound,
    OldPwdNotSet,
    Os(Seq<char>),
}

impl View for BuiltinError {
    type V = BuiltinErrorView;

    open spec fn view(&self) -> BuiltinErrorView {
        match self {
            BuiltinError::HomeNotFound => BuiltinErrorView::HomeNotFound,
            BuiltinError::OldPwdNotSet => BuiltinErrorView::OldPwdNotSet,
            BuiltinError::Os(cause) => BuiltinErrorView::Os(cause@),
        }
    }
}

impl BuiltinErrorView {
    /// What the error says of itself.
    pub open spec fn text(self) -> Seq<char> {
        match self {
            BuiltinErrorView::HomeNotFound => "cd: could not find home directory"@,
            BuiltinErrorView::OldPwdNotSet => "cd: OLDPWD not set"@,
            BuiltinErrorView::Os(cause) => cause,
        }
    }
}

impl BuiltinError {
    /// What the error says of itself.
    pub fn message(&self) -> (text: String)
        ensures
            text@ == self@.text(),
    {
        match self {
            BuiltinError::HomeNotFound => String::from_str("cd: could not find home directory"),
            BuiltinError::OldPwdNotSet => String::from_str("cd: OLDPWD not set"),
            BuiltinError::Os(cause) => cause.clone(),
        }
    }
}

/// A failure that the loop reports and survives.
#[derive(Debug, PartialEq, Eq)]
pub enum ShellError {
    /// A builtin failed.
    Builtin(BuiltinError),
    /// No program could be started under `name`; `cause` is what the operating
    /// system reported.
    CommandNotFound { name: String, cause: String },
}

/// A [`ShellError`] with its texts as sequences of characters.
pub enum ShellErrorView {
    Builtin(BuiltinErrorView),
    CommandNotFound { name: Seq<char>, cause: Seq<char> },
}

impl View for ShellError {
    type V = ShellErrorView;

    open spec fn view(&self) -> ShellErrorView {
        match self {
            ShellError::Builtin(error) => ShellErrorView::Builtin(error@),
            ShellError::CommandNotFound { name, cause } => ShellErrorView::CommandNotFound {
                name: name@,
                cause: cause@,
            },
        }
    }
}

impl ShellErrorView {
    /// The one line shown to the user: what failed, a colon and a space, then
    /// the cause.
    pub open spec fn text(self) -> Seq<char> {
        match self {
            ShellErrorView::Builtin(error) => "rlsh"@ + ": "@ + error.text(),
            ShellErrorView::CommandNotFound { name, cause } => name + ": command not found"@
                + ": "@ + cause,
        }
    }
}

impl ShellError {
    /// The one line shown to the user.
    pub fn message(&self) -> (line: String)
        ensures
            line@ == self@.text(),
    {
        match self {
            ShellError::Builtin(error) => {
                let cause = error.message();
                String::from_str("rlsh").concat(": ").concat(cause.as_str())
            },
            ShellError::CommandNotFound { name, cause } => {
                name.clone().concat(": command not found").concat(": ").concat(cause.as_str())
            },
        }
    }
}

} // verus!
