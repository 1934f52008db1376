//! What a command asks for.

use std::path::PathBuf;
use vstd::prelude::*;

verus! {

/// The directory that `cd` wants to enter.
#[derive(Debug, PartialEq, Eq)]
pub enum Destination {
    /// The user's home directory, as it was resolved.
    Home(PathBuf),
    /// The directory that the shell was in before the last change.
    Previous(PathBuf),
    /// The directory that the user named, taken as it was typed.
    Named(String),
}

/// A [`Destination`] with its text as a sequence of characters.
pub enum DestinationView {
    Home(PathBuf),
    Previous(PathBuf),
    Named(Seq<char>),
}

impl View for Destination {
    type V = DestinationView;

    open spec fn view(&self) -> DestinationView {
        match self {
            Destination::Home(path) => DestinationView::Home(*path),
            Destination::Previous(path) => DestinationView::Previous(*path),
            Destination::Named(name) => DestinationView::Named(name@),
        }
    }
}

/// A program to start: its name, looked up by the operating system, and the
/// arguments handed to it unchanged.
#[derive(Debug, PartialEq, Eq)]
pub struct Launch {
    pub program: String,
    pub arguments: Vec<String>,
}

/// A [`Launch`] with its texts as sequences of characters.
pub struct LaunchView {
    pub program: Seq<char>,
    pub arguments: Seq<Seq<char>>,
}

impl View for Launch {
    type V = LaunchView;

    open spec fn view(&self) -> LaunchView {
        LaunchView { program: self.program@, arguments: self.arguments.deep_view() }
    }
}

/// What one command asks for.
#[derive(Debug, PartialEq, Eq)]
pub enum Action {
    /// Nothing: the command held no word.
    Nothing,
    /// To enter the destination.
    ChangeDirectory(Destination),
    /// To print these lines, one after the other.
    Print(Vec<String>),
    /// To end the shell.
    Exit,
    /// To start the program.
    Launch(Launch),
}

/// An [`Action`] with its texts as sequences of characters.
pub enum ActionView {
    Nothing,
    ChangeDirectory(DestinationView),
    Print(Seq<Seq<char>>),
    Exit,
    Launch(LaunchView),
}

impl View for Action {
    type V = ActionView;

    open spec fn view(&self) -> ActionView {
        match self {
            Action::Nothing => ActionView::Nothing,
            Action::ChangeDirectory(destination) => ActionView::ChangeDirectory(destination@),
            Action::Print(lines) => ActionView::Print(lines.deep_view()),
            Action::Exit => ActionView::Exit,
            Action::Launch(launch) => ActionView::Launch(launch@),
        }
    }
}

} // verus!
