//! The core of a small interactive shell: it splits a line into words,
//! resolves the first word against three builtins (`cd`, `help`, `exit`), and
//! tells the read-eval loop what to do next.
//!
//! The library decides and never touches the process around it. Whatever
//! reaches the world outside (reading a line, printing, changing the working
//! directory, starting a program) is asked of the loop in a
//! [`protocol::Request`]; how it went comes back as a [`protocol::Event`].
//! [`shell::Rlsh::run`] starts a shell and [`shell::Rlsh::rlsh_loop`] takes it
//! through one turn. There is no quoting, no pipe, no redirection and no job
//! control.

pub mod action;
pub mod error;
pub mod line;
pub mod path;
pub mod protocol;
pub mod shell;
pub mod text;
