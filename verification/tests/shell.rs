use rlsh::action::Action;
use rlsh::action::Destination;
use rlsh::action::Launch;
use rlsh::error::BuiltinError;
use rlsh::error::ShellError;
use rlsh::protocol::Event;
use rlsh::shell::Rlsh;
use rlsh::text::same_text;
use std::path::PathBuf;

fn command(words: &[&str]) -> Vec<String> {
    words.iter().map(|word| String::from(*word)).collect()
}

fn shell_that_left(directory: &str) -> Rlsh {
    let mut shell = Rlsh::new();
    shell.rlsh_loop(Event::Entered(PathBuf::from(directory)));
    shell
}

#[test]
fn a_new_shell_runs_and_has_no_past() {
    let shell = Rlsh::new();
    assert!(!shell.terminate());
    assert_eq!(shell.old_pwd(), None);
    let shell = Rlsh::default();
    assert!(!shell.terminate());
    assert_eq!(shell.old_pwd(), None);
}

#[test]
fn a_command_without_words_asks_for_nothing() {
    let mut shell = shell_that_left("/tmp");
    assert_eq!(shell.rlsh_execute(Vec::new()), Ok(Action::Nothing));
    assert!(!shell.terminate());
    assert_eq!(shell.old_pwd(), Some(&PathBuf::from("/tmp")));
}

#[test]
fn exit_is_executed_by_ending_the_shell() {
    for args in [command(&["exit"]), command(&["exit", "3"]), command(&["exit", "-", "cd"])] {
        let mut shell = shell_that_left("/tmp");
        assert_eq!(shell.rlsh_execute(args), Ok(Action::Exit));
        assert!(shell.terminate());
        assert_eq!(shell.old_pwd(), Some(&PathBuf::from("/tmp")));
    }
}

#[test]
fn help_is_executed_by_the_builtin() {
    let mut shell = Rlsh::new();
    let lines = match shell.rlsh_execute(command(&["help", "me"])) {
        Ok(Action::Print(lines)) => lines,
        other => panic!("help answered {other:?}"),
    };
    assert_eq!(lines.len(), 7);
    assert_eq!(lines[3], "\tcd - change the shell working directory");
    assert_eq!(lines[4], "\thelp - display information about builtin commands");
    assert_eq!(lines[5], "\texit - exit the shell");
    assert!(!shell.terminate());
}

#[test]
fn cd_is_executed_by_asking_for_the_directory() {
    let mut shell = shell_that_left("/srv");
    assert_eq!(
        shell.rlsh_execute(command(&["cd", "/usr/share"])),
        Ok(Action::ChangeDirectory(Destination::Named(String::from("/usr/share"))))
    );
    assert_eq!(
        shell.rlsh_execute(command(&["cd", "-"])),
        Ok(Action::ChangeDirectory(Destination::Previous(PathBuf::from("/srv"))))
    );
    assert_eq!(shell.old_pwd(), Some(&PathBuf::from("/srv")));
    assert!(!shell.terminate());
}

#[test]
fn bare_cd_is_executed_by_asking_for_the_home_directory() {
    let mut shell = Rlsh::new();
    let expected = match home::home_dir() {
        Some(directory) => Ok(Action::ChangeDirectory(Destination::Home(directory))),
        None => Err(ShellError::Builtin(BuiltinError::HomeNotFound)),
    };
    assert_eq!(shell.rlsh_execute(command(&["cd"])), expected);
    assert_eq!(shell.old_pwd(), None);
}

#[test]
fn a_failing_builtin_is_a_shell_error() {
    let mut shell = Rlsh::new();
    assert_eq!(
        shell.rlsh_execute(command(&["cd", "-"])),
        Err(ShellError::Builtin(BuiltinError::OldPwdNotSet))
    );
    assert!(!shell.terminate());
    assert_eq!(shell.old_pwd(), None);
}

#[test]
fn other_commands_are_executed_by_starting_a_program() {
    let mut shell = Rlsh::new();
    assert_eq!(
        shell.rlsh_execute(command(&["ls", "-l", "/tmp"])),
        Ok(Action::Launch(Launch {
            program: String::from("ls"),
            arguments: vec![String::from("-l"), String::from("/tmp")],
        }))
    );
    for name in ["CD", "Help", "exit!", "cdd", "hel", "-"] {
        assert_eq!(
            shell.rlsh_execute(command(&[name])),
            Ok(Action::Launch(Launch { program: String::from(name), arguments: Vec::new() }))
        );
    }
    assert!(!shell.terminate());
    assert_eq!(shell.old_pwd(), None);
}

#[test]
fn launch_takes_the_first_word_as_the_program() {
    assert_eq!(
        Rlsh::rlsh_launch(command(&["echo", "a", "b", "a"])),
        Launch {
            program: String::from("echo"),
            arguments: vec![String::from("a"), String::from("b"), String::from("a")],
        }
    );
    assert_eq!(
        Rlsh::rlsh_launch(command(&["sh"])),
        Launch { program: String::from("sh"), arguments: Vec::new() }
    );
}

#[test]
fn errors_are_shown_on_one_line() {
    assert_eq!(
        ShellError::Builtin(BuiltinError::HomeNotFound).message(),
        "rlsh: cd: could not find home directory"
    );
    assert_eq!(
        ShellError::Builtin(BuiltinError::OldPwdNotSet).message(),
        "rlsh: cd: OLDPWD not set"
    );
    assert_eq!(
        ShellError::Builtin(BuiltinError::Os(String::from("Not a directory (os error 20)")))
            .message(),
        "rlsh: Not a directory (os error 20)"
    );
    assert_eq!(
        ShellError::CommandNotFound {
            name: String::from("frobnicate"),
            cause: String::from("Permission denied (os error 13)"),
        }
        .message(),
        "frobnicate: command not found: Permission denied (os error 13)"
    );
}

#[test]
fn same_text_compares_characters() {
    assert!(same_text("", ""));
    assert!(same_text("cd", "cd"));
    assert!(same_text("grüße", "grüße"));
    assert!(!same_text("cd", "cD"));
    assert!(!same_text("cd", "cd "));
    assert!(!same_text("cd", "c"));
    assert!(!same_text("", "-"));
    assert!(!same_text("é", "e\u{301}"));
}
