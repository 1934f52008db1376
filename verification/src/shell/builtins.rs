//! The commands that the shell carries out itself: `cd`, `help` and `exit`.

use crate::action::Action;
use crate::action::ActionView;
use crate::action::Destination;
use crate::action::DestinationView;
use crate::error::BuiltinError;
use crate::error::BuiltinErrorView;
use crate::shell::Rlsh;
use crate::shell::ShellState;
use crate::text::same_text;
use crate::text::view_result;
use std::path::PathBuf;
use vstd::prelude::*;
use vstd::string::StringExecFns;

verus! {

/// The builtin commands. The set is closed: there are these three, always.
#[derive(Clone, Copy, Debug, PartialEq, Eq, Structural)]
pub enum Builtins {
    /// Change the working directory.
    Cd,
    /// Show what the builtins are.
    Help,
    /// End the shell.
    Exit,
}

impl Builtins {
    /// All builtins, in the order in which they are shown.
    pub open spec fn all() -> Seq<Builtins> {
        seq![Builtins::Cd, Builtins::Help, Builtins::Exit]
    }

    /// The word by which the user calls the builtin.
    pub open spec fn spec_name(self) -> Seq<char> {
        match self {
            Builtins::Cd => "cd"@,
            Builtins::Help => "help"@,
            Builtins::Exit => "exit"@,
        }
    }

    /// One line that says what the builtin does.
    pub open spec fn spec_message(self) -> Seq<char> {
        match self {
            Builtins::Cd => "change the shell working directory"@,
            Builtins::Help => "display information about builtin commands"@,
            Builtins::Exit => "exit the shell"@,
        }
    }

    /// The builtin that `name` calls: the one whose name it is, letter for
    /// letter, and none for any other word.
    pub open spec fn resolve(name: Seq<char>) -> Option<Builtins> {
        if name == Builtins::Cd.spec_name() {
            Some(Builtins::Cd)
        } else if name == Builtins::Help.spec_name() {
            Some(Builtins::Help)
        } else if name == Builtins::Exit.spec_name() {
            Some(Builtins::Exit)
        } else {
            None
        }
    }

    /// Every builtin is found under its own name.
    pub proof fn lemma_resolve_name(builtin: Builtins)
        ensures
            Self::resolve(builtin.spec_name()) == Some(builtin),
    {
        reveal_strlit("cd");
        reveal_strlit("help");
        reveal_strlit("exit");
        assert("cd"@.len() == 2 && "help"@.len() == 4 && "exit"@.len() == 4);
        assert("help"@[0] == 'h' && "exit"@[0] == 'e');
    }

    /// A word calls a builtin only if it is that builtin's name.
    pub proof fn lemma_resolve_is_exact(name: Seq<char>, builtin: Builtins)
        requires
            Self::resolve(name) == Some(builtin),
        ensures
            name == builtin.spec_name(),
    {
    }

    /// Looks `s` up among the builtins. The match is exact: case counts, and
    /// no prefix or alias is accepted.
    pub fn from_str(s: &str) -> (found: Option<Self>)
        ensures
            found == Self::resolve(s@),
    {
        if same_text(s, "cd") {
            Some(Builtins::Cd)
        } else if same_text(s, "help") {
            Some(Builtins::Help)
        } else if same_text(s, "exit") {
            Some(Builtins::Exit)
        } else {
            None
        }
    }

    /// All builtins, in the order in which they are shown. Every call gives
    /// the same list anew.
    pub fn iter() -> (all: Vec<Builtins>)
        ensures
            all@ == Self::all(),
    {
        let mut all: Vec<Builtins> = Vec::new();
        all.push(Builtins::Cd);
        all.push(Builtins::Help);
        all.push(Builtins::Exit);
        all
    }

    /// The word by which the user calls the builtin.
    pub fn name(&self) -> (name: &'static str)
        ensures
            name@ == self.spec_name(),
    {
        match self {
            Builtins::Cd => "cd",
            Builtins::Help => "help",
            Builtins::Exit => "exit",
        }
    }

    /// One line that says what the builtin does.
    pub fn message(&self) -> (message: &'static str)
        ensures
            message@ == self.spec_message(),
    {
        match self {
            Builtins::Cd => "change the shell working directory",
            Builtins::Help => "display information about builtin commands",
            Builtins::Exit => "exit the shell",
        }
    }
}

/// The line of the help text that presents `builtin`: a tab, its name, a
/// dash between two spaces, and what it does.
pub open spec fn help_line(builtin: Builtins) -> Seq<char> {
    "\t"@ + builtin.spec_name() + " - "@ + builtin.spec_message()
}

/// The help text, line by line: three lines of introduction, one line for each
/// builtin in the order of [`Builtins::all`], and a closing line.
pub open spec fn help_text() -> Seq<Seq<char>> {
    seq![
        "SandWood Jones' RLSH (a clone of Stephen Brennan's LSH)"@,
        "Type program names and arguments, and hit enter."@,
        "The following are built in:"@,
    ] + Builtins::all().map_values(|builtin: Builtins| help_line(builtin))
        + seq!["Use the man command for information on other programs."@]
}

/// The help text presents every builtin once, in the order of
/// [`Builtins::all`]: after three lines of introduction comes one line for
/// each, with its name and what it does, and one closing line ends the text.
pub proof fn lemma_help_presents_each_builtin()
    ensures
        help_text().len() == 3 + Builtins::all().len() + 1,
        forall|i: int|
            0 <= i < Builtins::all().len() ==> #[trigger] help_text()[3 + i] == help_line(
                Builtins::all()[i],
            ),
        forall|i: int|
            0 <= i < Builtins::all().len() ==> #[trigger] help_line(Builtins::all()[i])
                == "\t"@ + Builtins::all()[i].spec_name() + " - "@
                + Builtins::all()[i].spec_message(),
{
}

/// Where `cd` wants to go. `args` is the whole command, its name first, and
/// `home` is the user's home directory if one is known.
///
/// Without an argument `cd` goes home. The argument `-` goes back to the
/// directory left last. Any other argument names the directory as typed.
/// Words after the first argument are not looked at.
pub open spec fn cd_destination(
    state: ShellState,
    args: Seq<Seq<char>>,
    home: Option<PathBuf>,
) -> Result<DestinationView, BuiltinErrorView>
    recommends
        args.len() > 0,
{
    if args.len() == 1 {
        match home {
            Some(directory) => Ok(DestinationView::Home(directory)),
            None => Err(BuiltinErrorView::HomeNotFound),
        }
    } else if args[1] == "-"@ {
        match state.previous_directory {
            Some(directory) => Ok(DestinationView::Previous(directory)),
            None => Err(BuiltinErrorView::OldPwdNotSet),
        }
    } else {
        Ok(DestinationView::Named(args[1]))
    }
}

impl Builtins {
    /// Whether the builtin, called as `args`, has to know the user's home
    /// directory: only a bare `cd` does.
    pub open spec fn asks_home(self, args: Seq<Seq<char>>) -> bool {
        self == Builtins::Cd && args.len() == 1
    }

    /// What the builtin answers when it is called as `args` in `state`, with
    /// `home` the user's home directory if one is known.
    pub open spec fn reply(
        self,
        state: ShellState,
        args: Seq<Seq<char>>,
        home: Option<PathBuf>,
    ) -> Result<ActionView, BuiltinErrorView>
        recommends
            self == Builtins::Cd ==> args.len() > 0,
    {
        match self {
            Builtins::Cd => match cd_destination(state, args, home) {
                Ok(destination) => Ok(ActionView::ChangeDirectory(destination)),
                Err(error) => Err(error),
            },
            Builtins::Help => Ok(ActionView::Print(help_text())),
            Builtins::Exit => Ok(ActionView::Exit),
        }
    }

    /// Calls the builtin with the whole command in `args`, its name first.
    ///
    /// No builtin changes `state`. The answer is an action for the loop to
    /// carry out, or the reason why there is none.
    pub fn func(&self, state: &mut Rlsh, args: Vec<String>) -> (reply: Result<
        Action,
        BuiltinError,
    >)
        requires
            *self == Builtins::Cd ==> args.len() > 0,
        ensures
            final(state)@ == old(state)@,
            !self.asks_home(args.deep_view()) ==> view_result(reply) == self.reply(
                old(state)@,
                args.deep_view(),
                None,
            ),
            exists|home: Option<PathBuf>|
                view_result(reply) == self.reply(old(state)@, args.deep_view(), home),
    {
        match self {
            Builtins::Cd => Self::rlsh_cd(state, args),
            Builtins::Help => Self::rlsh_help(state, args),
            Builtins::Exit => Self::rlsh_exit(state, args),
        }
    }

    /// `cd`: asks the loop to enter a directory. A bare `cd` looks the user's
    /// home directory up and goes there.
    ///
    /// The shell's state stays as it is: the directory left behind is recorded
    /// only once the loop has entered the new one.
    pub fn rlsh_cd(state: &mut Rlsh, args: Vec<String>) -> (reply: Result<Action, BuiltinError>)
        requires
            args.len() > 0,
        ensures
            final(state)@ == old(state)@,
            args.len() > 1 ==> view_result(reply) == Builtins::Cd.reply(
                old(state)@,
                args.deep_view(),
                None,
            ),
            exists|home: Option<PathBuf>|
                view_result(reply) == Builtins::Cd.reply(old(state)@, args.deep_view(), home),
    {
        let home = if args.len() == 1 {
            home::home_dir()
        } else {
            None
        };
        let reply = match Self::rlsh_cd_to(state, &args, home) {
            Ok(destination) => Ok(Action::ChangeDirectory(destination)),
            Err(error) => Err(error),
        };
        assert(view_result(reply) == Builtins::Cd.reply(state@, args.deep_view(), home));
        reply
    }

    /// Where `cd` wants to go, given the user's home directory in `home`.
    pub fn rlsh_cd_to(state: &Rlsh, args: &Vec<String>, home: Option<PathBuf>) -> (destination:
        Result<Destination, BuiltinError>)
        requires
            args.len() > 0,
        ensures
            view_result(destination) == cd_destination(state@, args.deep_view(), home),
    {
        if args.len() == 1 {
            match home {
                Some(directory) => Ok(Destination::Home(directory)),
                None => Err(BuiltinError::HomeNotFound),
            }
        } else if same_text(args[1].as_str(), "-") {
            match state.old_pwd() {
                Some(directory) => Ok(Destination::Previous(directory.clone())),
                None => Err(BuiltinError::OldPwdNotSet),
            }
        } else {
            Ok(Destination::Named(args[1].clone()))
        }
    }

    /// `help`: asks the loop to print the help text.
    pub fn rlsh_help(state: &mut Rlsh, _args: Vec<String>) -> (reply: Result<
        Action,
        BuiltinError,
    >)
        ensures
            final(state)@ == old(state)@,
            view_result(reply) == Ok::<ActionView, BuiltinErrorView>(
                ActionView::Print(help_text()),
            ),
    {
        let mut lines: Vec<String> = Vec::new();
        lines.push(String::from_str("SandWood Jones' RLSH (a clone of Stephen Brennan's LSH)"));
        lines.push(String::from_str("Type program names and arguments, and hit enter."));
        lines.push(String::from_str("The following are built in:"));
        let ghost head = lines.deep_view();
        assert(head == seq![
            "SandWood Jones' RLSH (a clone of Stephen Brennan's LSH)"@,
            "Type program names and arguments, and hit enter."@,
            "The following are built in:"@,
        ]);
        let all = Self::iter();
        let mut i: usize = 0;
        while i < all.len()
            invariant
                i <= all.len(),
                all@ == Self::all(),
                lines.deep_view() == head + all@.take(i as int).map_values(
                    |builtin: Builtins| help_line(builtin),
                ),
            decreases all.len() - i,
        {
            let builtin = all[i];
            let line = String::from_str("\t").concat(builtin.name()).concat(" - ").concat(
                builtin.message(),
            );
            let ghost before = lines.deep_view();
            lines.push(line);
            assert(lines.deep_view() == before + seq![help_line(builtin)]);
            assert(all@.take(i + 1).map_values(|builtin: Builtins| help_line(builtin))
                == all@.take(i as int).map_values(|builtin: Builtins| help_line(builtin))
                + seq![help_line(builtin)]);
            i = i + 1;
        }
        assert(all@.take(i as int) == all@);
        let ghost before = lines.deep_view();
        lines.push(String::from_str("Use the man command for information on other programs."));
        assert(lines.deep_view() == before + seq![
            "Use the man command for information on other programs."@,
        ]);
        Ok(Action::Print(lines))
    }

    /// `exit`: tells the loop to end, whatever the arguments are.
    pub fn rlsh_exit(state: &mut Rlsh, _args: Vec<String>) -> (reply: Result<
        Action,
        BuiltinError,
    >)
        ensures
            final(state)@ == old(state)@,
            view_result(reply) == Ok::<ActionView, BuiltinErrorView>(ActionView::Exit),
    {
        Ok(Action::Exit)
    }
}

} // verus!
