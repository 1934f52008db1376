//! Directories, as the operating system names them.
//!
//! A path is carried through unread: the shell remembers paths and hands them
//! back, and never looks inside one.

use std::path::PathBuf;
use vstd::prelude::*;

verus! {

/// `std::path::PathBuf`, an owned path of the operating system. Nothing is
/// said of what a path holds.
#[verifier::external_type_specification]
#[verifier::external_body]
pub struct ExPathBuf(PathBuf);

/// `PathBuf::clone`: the copy is the same path.
pub assume_specification[ <PathBuf as Clone>::clone ](path: &PathBuf) -> (copy: PathBuf)
    ensures
        copy == *path,
;

/// `home::home_dir`: the home directory of the user who runs the process, read
/// from the process environment or asked of the operating system. The answer
/// depends on that environment, so nothing is claimed of it: there may be a
/// directory or none, and two calls need not agree.
pub assume_specification[ home::home_dir ]() -> (home: Option<PathBuf>)
;

} // verus!
