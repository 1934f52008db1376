//! The shell: what it remembers, what it makes of a command, and how it
//! answers the loop that runs it.

use crate::action::Action;
use crate::action::ActionView;
use crate::action::Launch;
use crate::action::LaunchView;
use crate::error::BuiltinError;
use crate::error::BuiltinErrorView;
use crate::error::ShellError;
use crate::error::ShellErrorView;
use crate::line::split_words;
use crate::line::words;
use crate::protocol::Event;
use crate::protocol::EventView;
use crate::protocol::Reply;
use crate::protocol::ReplyView;
use crate::protocol::Request;
use crate::protocol::RequestView;
use crate::shell::builtins::Builtins;
use crate::text::view_result;
use std::path::PathBuf;
use vstd::prelude::*;
use vstd::string::StringExecFns;

pub mod builtins;
pub mod guarantees;

verus! {

/// What the shell remembers between two command lines.
pub struct ShellState {
    /// Whether the shell has been told to end. A shell that has not is
    /// running.
    pub terminating: bool,
    /// The directory that the shell was in before it last changed directory,
    /// or nothing as long as it never did.
    pub previous_directory: Option<PathBuf>,
}

impl ShellState {
    /// The shell as it starts: running, and with no directory left behind.
    pub open spec fn initial() -> ShellState {
        ShellState { terminating: false, previous_directory: None }
    }

    /// The shell after it has changed directory and left `from` behind.
    pub open spec fn leaving(self, from: PathBuf) -> ShellState {
        ShellState { previous_directory: Some(from), ..self }
    }

    /// The shell once it has been told to end.
    pub open spec fn ended(self) -> ShellState {
        ShellState { terminating: true, ..self }
    }
}

/// The program that the command `args` starts: its first word is the program,
/// the words after it are the arguments.
pub open spec fn launch(args: Seq<Seq<char>>) -> LaunchView
    recommends
        args.len() > 0,
{
    LaunchView { program: args[0], arguments: args.skip(1) }
}

/// Whether the command `args` has to know the user's home directory: only a
/// bare `cd` does.
pub open spec fn asks_home(args: Seq<Seq<char>>) -> bool {
    args.len() == 1 && Builtins::resolve(args[0]) == Some(Builtins::Cd)
}

/// What the shell makes of the command `args` in `state`, with `home` the
/// user's home directory if one is known: the state afterwards, and the action
/// that the command asks for or the error to report.
///
/// A command without words asks for nothing. A command whose first word names
/// a builtin is answered by that builtin, and the shell ends if the builtin
/// says so. Any other command starts a program.
pub open spec fn execute(state: ShellState, args: Seq<Seq<char>>, home: Option<PathBuf>) -> (
    ShellState,
    Result<ActionView, ShellErrorView>,
) {
    if args.len() == 0 {
        (state, Ok(ActionView::Nothing))
    } else {
        match Builtins::resolve(args[0]) {
            Some(builtin) => match builtin.reply(state, args, home) {
                Ok(ActionView::Exit) => (state.ended(), Ok(ActionView::Exit)),
                Ok(action) => (state, Ok(action)),
                Err(error) => (state, Err(ShellErrorView::Builtin(error))),
            },
            None => (state, Ok(ActionView::Launch(launch(args)))),
        }
    }
}

/// What the loop does once a command is done with: it prompts and reads the
/// next line, unless the shell has been told to end.
pub open spec fn resume(state: ShellState) -> RequestView {
    if state.terminating {
        RequestView::Stop
    } else {
        RequestView::Read { prompt: "$ "@ }
    }
}

/// Whether the shell has to know the user's home directory to answer `event`:
/// only for a line that holds a bare `cd`, read while the shell is running.
pub open spec fn turn_asks_home(state: ShellState, event: EventView) -> bool {
    &&& !state.terminating
    &&& event matches EventView::Line(line)
    &&& asks_home(words(line))
}

/// One turn of the loop: the state after `event` and the shell's answer to it,
/// with `home` the user's home directory if one is known.
///
/// A shell that has been told to end answers every event with the request to
/// stop. A running shell answers
/// - a line by what its words ask for: a change of directory or a program to
///   start is handed on as the next request, the help text is printed, and an
///   error is printed on one line; where nothing is left to do for the line,
///   the loop resumes;
/// - the end of the input by ending;
/// - a change of directory that was made by remembering the directory left;
/// - one that was refused, and a program that could not be started, by
///   printing the error on one line;
/// - a program that has ended by resuming.
pub open spec fn turn(state: ShellState, event: EventView, home: Option<PathBuf>) -> (
    ShellState,
    ReplyView,
) {
    if state.terminating {
        (state, ReplyView { output: Seq::empty(), next: RequestView::Stop })
    } else {
        match event {
            EventView::Line(line) => {
                let (after, result) = execute(state, words(line), home);
                match result {
                    Ok(ActionView::ChangeDirectory(destination)) => (
                        after,
                        ReplyView {
                            output: Seq::empty(),
                            next: RequestView::ChangeDirectory(destination),
                        },
                    ),
                    Ok(ActionView::Launch(program)) => (
                        after,
                        ReplyView { output: Seq::empty(), next: RequestView::Launch(program) },
                    ),
                    Ok(ActionView::Print(lines)) => (
                        after,
                        ReplyView { output: lines, next: resume(after) },
                    ),
                    Ok(ActionView::Nothing) | Ok(ActionView::Exit) => (
                        after,
                        ReplyView { output: Seq::empty(), next: resume(after) },
                    ),
                    Err(error) => (
                        after,
                        ReplyView { output: seq![error.text()], next: resume(after) },
                    ),
                }
            },
            EventView::EndOfInput => (
                state.ended(),
                ReplyView { output: Seq::empty(), next: RequestView::Stop },
            ),
            EventView::Entered(from) => (
                state.leaving(from),
                ReplyView { output: Seq::empty(), next: resume(state) },
            ),
            EventView::Refused(cause) => (
                state,
                ReplyView {
                    output: seq![
                        ShellErrorView::Builtin(BuiltinErrorView::Os(cause)).text(),
                    ],
                    next: resume(state),
                },
            ),
            EventView::Exited => (
                state,
                ReplyView { output: Seq::empty(), next: resume(state) },
            ),
            EventView::NotStarted { program, cause } => (
                state,
                ReplyView {
                    output: seq![
                        ShellErrorView::CommandNotFound { name: program, cause }.text(),
                    ],
                    next: resume(state),
                },
            ),
        }
    }
}

/// The shell's state, owned by the loop for as long as it runs.
pub struct Rlsh {
    terminate: bool,
    old_pwd: Option<PathBuf>,
}

impl View for Rlsh {
    type V = ShellState;

    closed spec fn view(&self) -> ShellState {
        ShellState { terminating: self.terminate, previous_directory: self.old_pwd }
    }
}

impl Default for Rlsh {
    fn default() -> (shell: Self)
        ensures
            shell@ == ShellState::initial(),
    {
        Rlsh { terminate: false, old_pwd: None }
    }
}

impl Rlsh {
    /// A shell that runs and has not changed directory yet.
    pub fn new() -> (shell: Self)
        ensures
            shell@ == ShellState::initial(),
    {
        Rlsh { terminate: false, old_pwd: None }
    }

    /// Starts a shell: gives the new shell, and what its loop has to do first,
    /// which is to prompt and to read a line. From then on the loop carries
    /// out each request and hands the outcome to [`Rlsh::rlsh_loop`], until it
    /// is asked to stop.
    pub fn run() -> (start: (Self, Request))
        ensures
            start.0@ == ShellState::initial(),
            start.1@ == resume(ShellState::initial()),
    {
        let shell = Self::new();
        let first = shell.resume();
        (shell, first)
    }

    /// One turn of the loop: takes note of `event` and answers with the lines
    /// to print and the next thing to do.
    ///
    /// Only a bare `cd` looks the user's home directory up; no other answer
    /// depends on it.
    pub fn rlsh_loop(&mut self, event: Event) -> (reply: Reply)
        ensures
            !turn_asks_home(old(self)@, event@) ==> (final(self)@, reply@) == turn(
                old(self)@,
                event@,
                None,
            ),
            exists|home: Option<PathBuf>|
                (final(self)@, reply@) == turn(old(self)@, event@, home),
    {
        if self.terminate {
            return Self::silent(Request::Stop);
        }
        match event {
            Event::Line(line) => {
                let ghost typed = line@;
                let args = Self::rlsh_split_line(line);
                let result = self.rlsh_execute(args);
                let ghost home = choose|home: Option<PathBuf>|
                    (self@, view_result(result)) == execute(old(self)@, words(typed), home);
                let reply = match result {
                    Ok(Action::ChangeDirectory(destination)) => Self::silent(
                        Request::ChangeDirectory(destination),
                    ),
                    Ok(Action::Launch(program)) => Self::silent(Request::Launch(program)),
                    Ok(Action::Print(lines)) => Reply { output: lines, next: self.resume() },
                    Ok(Action::Nothing) | Ok(Action::Exit) => Self::silent(self.resume()),
                    Err(error) => self.report(&error),
                };
                assert((self@, reply@) == turn(old(self)@, event@, home));
                reply
            },
            Event::EndOfInput => {
                self.terminate = true;
                Self::silent(Request::Stop)
            },
            Event::Entered(from) => {
                self.old_pwd = Some(from);
                Self::silent(self.resume())
            },
            Event::Refused(cause) => self.report(&ShellError::Builtin(BuiltinError::Os(cause))),
            Event::Exited => Self::silent(self.resume()),
            Event::NotStarted { program, cause } => self.report(
                &ShellError::CommandNotFound { name: program, cause },
            ),
        }
    }

    /// Whether the shell has been told to end.
    pub fn terminate(&self) -> (terminating: bool)
        ensures
            terminating == self@.terminating,
    {
        self.terminate
    }

    /// The directory that the shell was in before it last changed directory.
    pub fn old_pwd(&self) -> (previous: Option<&PathBuf>)
        ensures
            match previous {
                Some(directory) => self@.previous_directory == Some(*directory),
                None => self@.previous_directory is None,
            },
    {
        self.old_pwd.as_ref()
    }

    /// Splits a line of input into the words of a command: the first names the
    /// command, the others are its arguments.
    pub fn rlsh_split_line(line: String) -> (args: Vec<String>)
        ensures
            args.deep_view() == words(line@),
    {
        split_words(line.as_str())
    }

    /// Decides what the command `args` asks for.
    ///
    /// The answer is the action that the command asks for, or an error to
    /// report. Only `exit` changes the shell: it will end. A bare `cd` looks
    /// the user's home directory up; nothing else depends on it.
    pub fn rlsh_execute(&mut self, args: Vec<String>) -> (result: Result<Action, ShellError>)
        ensures
            !asks_home(args.deep_view()) ==> (final(self)@, view_result(result)) == execute(
                old(self)@,
                args.deep_view(),
                None,
            ),
            exists|home: Option<PathBuf>|
                (final(self)@, view_result(result)) == execute(
                    old(self)@,
                    args.deep_view(),
                    home,
                ),
    {
        if args.len() == 0 {
            let result = Ok(Action::Nothing);
            assert((self@, view_result(result)) == execute(self@, args.deep_view(), None));
            return result;
        }
        match Builtins::from_str(args[0].as_str()) {
            Some(builtin) => {
                let ghost words = args.deep_view();
                let reply = builtin.func(self, args);
                let ghost home = choose|home: Option<PathBuf>|
                    view_result(reply) == builtin.reply(self@, words, home);
                let result = match reply {
                    Ok(Action::Exit) => {
                        self.terminate = true;
                        Ok(Action::Exit)
                    },
                    Ok(action) => Ok(action),
                    Err(error) => Err(ShellError::Builtin(error)),
                };
                assert((self@, view_result(result)) == execute(old(self)@, words, home));
                result
            },
            None => Ok(Action::Launch(Self::rlsh_launch(args))),
        }
    }

    /// The program that the command `args` starts.
    pub fn rlsh_launch(args: Vec<String>) -> (program: Launch)
        requires
            args.len() > 0,
        ensures
            program@ == launch(args.deep_view()),
    {
        let mut arguments = args;
        let program = arguments.remove(0);
        assert(arguments.deep_view() == args.deep_view().skip(1));
        Launch { program, arguments }
    }

    /// What the loop does once a command is done with.
    fn resume(&self) -> (next: Request)
        ensures
            next@ == resume(self@),
    {
        if self.terminate {
            Request::Stop
        } else {
            Request::Read { prompt: String::from_str("$ ") }
        }
    }

    /// The answer that prints nothing and asks for `next`.
    fn silent(next: Request) -> (reply: Reply)
        ensures
            reply@ == (ReplyView { output: Seq::empty(), next: next@ }),
    {
        let output: Vec<String> = Vec::new();
        assert(output.deep_view() == Seq::<Seq<char>>::empty());
        Reply { output, next }
    }

    /// The answer that shows `error` on one line and lets the loop resume.
    fn report(&self, error: &ShellError) -> (reply: Reply)
        ensures
            reply@ == (ReplyView { output: seq![error@.text()], next: resume(self@) }),
    {
        let mut output: Vec<String> = Vec::new();
        output.push(error.message());
        assert(output.deep_view() == seq![error@.text()]);
        Reply { output, next: self.resume() }
    }
}

} // verus!
