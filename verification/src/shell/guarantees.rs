//! What holds of every turn of the loop, whatever the shell's state and
//! whatever the loop reports.

use crate::action::DestinationView;
use crate::error::BuiltinErrorView;
use crate::error::ShellErrorView;
use crate::line::is_blank;
use crate::line::lemma_no_words_iff_blank;
use crate::line::words;
use crate::protocol::EventView;
use crate::protocol::ReplyView;
use crate::protocol::RequestView;
use crate::shell::builtins::help_text;
use crate::shell::builtins::Builtins;
use crate::shell::launch;
use crate::shell::turn;
use crate::shell::turn_asks_home;
use crate::shell::ShellState;
use std::path::PathBuf;
use vstd::prelude::*;

verus! {

/// The answer that prints nothing and has the loop prompt for the next line.
pub open spec fn prompt_again() -> ReplyView {
    ReplyView { output: Seq::empty(), next: RequestView::Read { prompt: "$ "@ } }
}

/// The answer that prints `line` and has the loop prompt for the next line.
pub open spec fn say(line: Seq<char>) -> ReplyView {
    ReplyView { output: seq![line], next: RequestView::Read { prompt: "$ "@ } }
}

/// The answer that prints nothing and asks for `next`.
pub open spec fn ask(next: RequestView) -> ReplyView {
    ReplyView { output: Seq::empty(), next }
}

/// The home directory has a say only where [`turn_asks_home`] holds.
pub proof fn lemma_turn_without_home(
    state: ShellState,
    event: EventView,
    home: Option<PathBuf>,
    other: Option<PathBuf>,
)
    requires
        !turn_asks_home(state, event),
    ensures
        turn(state, event, home) == turn(state, event, other),
{
}

/// A shell that has been told to end stays so: it answers every event with
/// the request to stop, prints nothing and remembers what it did.
pub proof fn lemma_ended_shell_stops(state: ShellState, event: EventView, home: Option<PathBuf>)
    requires
        state.terminating,
    ensures
        turn(state, event, home) == (state, ask(RequestView::Stop)),
{
}

/// Whether `event` tells the shell to end: the end of the input does, and so
/// does a line whose first word is `exit`.
pub open spec fn tells_to_end(event: EventView) -> bool {
    match event {
        EventView::EndOfInput => true,
        EventView::Line(line) => words(line).len() > 0 && words(line)[0]
            == Builtins::Exit.spec_name(),
        _ => false,
    }
}

/// A running shell ends when it is told to, and at no other time; it asks the
/// loop to stop in just these turns.
pub proof fn lemma_shell_ends_when_told(
    state: ShellState,
    event: EventView,
    home: Option<PathBuf>,
)
    requires
        !state.terminating,
    ensures
        turn(state, event, home).0.terminating <==> tells_to_end(event),
        turn(state, event, home).1.next is Stop <==> tells_to_end(event),
{
    Builtins::lemma_resolve_name(Builtins::Exit);
}

/// The previous directory is the one that the shell left when it last entered
/// another: it changes when the loop reports such an entry to a running
/// shell, and at no other time.
pub proof fn lemma_previous_directory_is_the_one_left(
    state: ShellState,
    event: EventView,
    home: Option<PathBuf>,
)
    ensures
        turn(state, event, home).0.previous_directory == (if !state.terminating {
            match event {
                EventView::Entered(from) => Some(from),
                _ => state.previous_directory,
            }
        } else {
            state.previous_directory
        }),
{
}

/// A blank line, and only a blank line, is answered by nothing but the next
/// prompt; it leaves the shell as it was.
pub proof fn lemma_blank_line_only_prompts(
    state: ShellState,
    line: Seq<char>,
    home: Option<PathBuf>,
)
    requires
        !state.terminating,
    ensures
        is_blank(line) ==> turn(state, EventView::Line(line), home) == (state, prompt_again()),
        !is_blank(line) ==> turn(state, EventView::Line(line), home).1 != prompt_again(),
{
    lemma_no_words_iff_blank(line);
    assert(help_text().len() > 0);
}

/// A bare `cd` asks for the user's home directory, whenever one is known, and
/// fails without a change where none is. Once the loop has entered the
/// directory, the one that it left is the previous directory.
pub proof fn lemma_bare_cd_goes_home(
    state: ShellState,
    line: Seq<char>,
    home: PathBuf,
    from: PathBuf,
)
    requires
        !state.terminating,
        words(line) == seq![Builtins::Cd.spec_name()],
    ensures
        turn(state, EventView::Line(line), Some(home)) == (
            state,
            ask(RequestView::ChangeDirectory(DestinationView::Home(home))),
        ),
        turn(state, EventView::Line(line), None) == (
            state,
            say(ShellErrorView::Builtin(BuiltinErrorView::HomeNotFound).text()),
        ),
        turn(state, EventView::Entered(from), None) == (state.leaving(from), prompt_again()),
        state.leaving(from).previous_directory == Some(from),
{
}

/// `cd` with a directory asks to enter it as it was typed, and changes
/// nothing by itself.
pub proof fn lemma_cd_asks_for_the_named_directory(
    state: ShellState,
    line: Seq<char>,
    home: Option<PathBuf>,
)
    requires
        !state.terminating,
        words(line).len() >= 2,
        words(line)[0] == Builtins::Cd.spec_name(),
        words(line)[1] != "-"@,
    ensures
        turn(state, EventView::Line(line), home) == (
            state,
            ask(RequestView::ChangeDirectory(DestinationView::Named(words(line)[1]))),
        ),
{
}

/// `cd -` undoes itself. A shell that stands in `here` and came from `there`
/// asks to go back to `there`. Once the loop has entered it, `here` is the
/// previous directory, so that a second `cd -` asks for `here`; and after
/// that change the shell remembers what it did at the start.
pub proof fn lemma_cd_back_and_forth(
    state: ShellState,
    line: Seq<char>,
    home: Option<PathBuf>,
    here: PathBuf,
    there: PathBuf,
)
    requires
        !state.terminating,
        words(line).len() >= 2,
        words(line)[0] == Builtins::Cd.spec_name(),
        words(line)[1] == "-"@,
        state.previous_directory == Some(there),
    ensures
        ({
            let (asked, going) = turn(state, EventView::Line(line), home);
            let (away, arrived) = turn(asked, EventView::Entered(here), home);
            let (asked_again, returning) = turn(away, EventView::Line(line), home);
            let (back, returned) = turn(asked_again, EventView::Entered(there), home);
            &&& going == ask(RequestView::ChangeDirectory(DestinationView::Previous(there)))
            &&& away.previous_directory == Some(here)
            &&& returning == ask(RequestView::ChangeDirectory(DestinationView::Previous(here)))
            &&& arrived == prompt_again()
            &&& returned == prompt_again()
            &&& back == state
        }),
{
}

/// `cd -` in a shell that never changed directory fails: it asks for no
/// change, says why on one line, and leaves the shell as it was.
pub proof fn lemma_cd_back_needs_a_past(
    state: ShellState,
    line: Seq<char>,
    home: Option<PathBuf>,
)
    requires
        !state.terminating,
        words(line).len() >= 2,
        words(line)[0] == Builtins::Cd.spec_name(),
        words(line)[1] == "-"@,
        state.previous_directory is None,
    ensures
        turn(state, EventView::Line(line), home) == (
            state,
            say(ShellErrorView::Builtin(BuiltinErrorView::OldPwdNotSet).text()),
        ),
{
}

/// A change of directory that the operating system refused leaves the shell
/// as it was: the cause is printed on one line, and the loop goes on.
pub proof fn lemma_refused_change_is_reported(
    state: ShellState,
    cause: Seq<char>,
    home: Option<PathBuf>,
)
    requires
        !state.terminating,
    ensures
        turn(state, EventView::Refused(cause), home) == (state, say("rlsh"@ + ": "@ + cause)),
{
}

/// `exit` ends the shell whatever its arguments are: the loop is asked to
/// stop, and no further prompt is shown.
pub proof fn lemma_exit_ends_the_shell(state: ShellState, line: Seq<char>, home: Option<PathBuf>)
    requires
        !state.terminating,
        words(line).len() > 0,
        words(line)[0] == Builtins::Exit.spec_name(),
    ensures
        turn(state, EventView::Line(line), home) == (state.ended(), ask(RequestView::Stop)),
{
    Builtins::lemma_resolve_name(Builtins::Exit);
}

/// `help` prints the help text, whatever its arguments are, and leaves the
/// shell as it was.
pub proof fn lemma_help_prints_the_help_text(
    state: ShellState,
    line: Seq<char>,
    home: Option<PathBuf>,
)
    requires
        !state.terminating,
        words(line).len() > 0,
        words(line)[0] == Builtins::Help.spec_name(),
    ensures
        turn(state, EventView::Line(line), home) == (
            state,
            ReplyView { output: help_text(), next: RequestView::Read { prompt: "$ "@ } },
        ),
{
    Builtins::lemma_resolve_name(Builtins::Help);
}

/// A command whose first word names no builtin starts the program of that
/// name with the remaining words as its arguments.
pub proof fn lemma_other_commands_start_a_program(
    state: ShellState,
    line: Seq<char>,
    home: Option<PathBuf>,
)
    requires
        !state.terminating,
        words(line).len() > 0,
        Builtins::resolve(words(line)[0]) is None,
    ensures
        turn(state, EventView::Line(line), home) == (
            state,
            ask(RequestView::Launch(launch(words(line)))),
        ),
        launch(words(line)).program == words(line)[0],
        launch(words(line)).arguments == words(line).skip(1),
{
}

/// A program that could not be started is reported as a command that was not
/// found, with the cause, on one line. The shell stays as it was and the loop
/// goes on.
pub proof fn lemma_missing_program_is_reported(
    state: ShellState,
    program: Seq<char>,
    cause: Seq<char>,
    home: Option<PathBuf>,
)
    requires
        !state.terminating,
    ensures
        turn(state, EventView::NotStarted { program, cause }, home) == (
            state,
            say(program + ": command not found"@ + ": "@ + cause),
        ),
{
}

/// The prompt waits for the program. The answer that asks to start a program
/// asks for nothing else and prints nothing; the next prompt is asked for in
/// the answer to the report that the program has ended, or that it could not
/// be started.
pub proof fn lemma_prompt_waits_for_the_program(
    state: ShellState,
    line: Seq<char>,
    home: Option<PathBuf>,
)
    requires
        !state.terminating,
        turn(state, EventView::Line(line), home).1.next is Launch,
    ensures
        turn(state, EventView::Line(line), home).0 == state,
        turn(state, EventView::Line(line), home).1.output.len() == 0,
        turn(state, EventView::Exited, home) == (state, prompt_again()),
{
}

} // verus!
