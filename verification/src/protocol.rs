//! What passes between the shell and the loop that runs it.
//!
//! The loop tells the shell what happened, as an [`Event`]. The shell answers
//! with a [`Reply`]: lines to print, and a [`Request`] for the one thing to do
//! next. The loop carries the request out and comes back with the event that
//! tells how it went.
//!
//! A failure to read a line, to write, or to wait for a program is no event:
//! the loop cannot go on without them, and ends with that failure.

use crate::action::Destination;
use crate::action::DestinationView;
use crate::action::Launch;
use crate::action::LaunchView;
use std::path::PathBuf;
use vstd::prelude::*;

verus! {

/// What the loop tells the shell.
#[derive(Debug, PartialEq, Eq)]
pub enum Event {
    /// A line was read; it may still end in its line break.
    Line(String),
    /// The input has ended: there is no line left to read.
    EndOfInput,
    /// The directory that the shell asked for was entered. The path is the
    /// working directory as it was before, taken before the change.
    Entered(PathBuf),
    /// The working directory could not be changed; the text is the cause as
    /// the operating system reported it.
    Refused(String),
    /// The program that the shell asked for was started and has ended.
    Exited,
    /// No program could be started under the name `program`; `cause` is what
    /// the operating system reported.
    NotStarted { program: String, cause: String },
}

/// An [`Event`] with its texts as sequences of characters.
pub enum EventView {
    Line(Seq<char>),
    EndOfInput,
    Entered(PathBuf),
    Refused(Seq<char>),
    Exited,
    NotStarted { program: Seq<char>, cause: Seq<char> },
}

impl View for Event {
    type V = EventView;

    open spec fn view(&self) -> EventView {
        match self {
            Event::Line(line) => EventView::Line(line@),
            Event::EndOfInput => EventView::EndOfInput,
            Event::Entered(from) => EventView::Entered(*from),
            Event::Refused(cause) => EventView::Refused(cause@),
            Event::Exited => EventView::Exited,
            Event::NotStarted { program, cause } => EventView::NotStarted {
                program: program@,
                cause: cause@,
            },
        }
    }
}

/// The one thing that the loop has to do next.
#[derive(Debug, PartialEq, Eq)]
pub enum Request {
    /// Show `prompt`, then read a line. Answered by [`Event::Line`] or
    /// [`Event::EndOfInput`].
    Read { prompt: String },
    /// Take note of the working directory, then enter the destination.
    /// Answered by [`Event::Entered`] or [`Event::Refused`].
    ChangeDirectory(Destination),
    /// Start the program and wait until it has ended. Answered by
    /// [`Event::Exited`] or [`Event::NotStarted`].
    Launch(Launch),
    /// Leave the loop: the shell has ended.
    Stop,
}

/// A [`Request`] with its texts as sequences of characters.
pub enum RequestView {
    Read { prompt: Seq<char> },
    ChangeDirectory(DestinationView),
    Launch(LaunchView),
    Stop,
}

impl View for Request {
    type V = RequestView;

    open spec fn view(&self) -> RequestView {
        match self {
            Request::Read { prompt } => RequestView::Read { prompt: prompt@ },
            Request::ChangeDirectory(destination) => RequestView::ChangeDirectory(destination@),
            Request::Launch(launch) => RequestView::Launch(launch@),
            Request::Stop => RequestView::Stop,
        }
    }
}

/// The shell's answer to an event.
#[derive(Debug, PartialEq, Eq)]
pub struct Reply {
    /// Lines to print, each on a line of its own, before anything else is
    /// done.
    pub output: Vec<String>,
    /// What to do once the lines are printed.
    pub next: Request,
}

/// A [`Reply`] with its texts as sequences of characters.
pub struct ReplyView {
    pub output: Seq<Seq<char>>,
    pub next: RequestView,
}

impl View for Reply {
    type V = ReplyView;

    open spec fn view(&self) -> ReplyView {
        ReplyView { output: self.output.deep_view(), next: self.next@ }
    }
}

} // verus!
