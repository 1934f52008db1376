use rlsh::action::Action;
use rlsh::action::Destination;
use rlsh::error::BuiltinError;
use rlsh::protocol::Event;
use rlsh::shell::builtins::Builtins;
use rlsh::shell::Rlsh;
use std::path::PathBuf;

fn command(words: &[&str]) -> Vec<String> {
    words.iter().map(|word| String::from(*word)).collect()
}

fn shell_that_left(directory: &str) -> Rlsh {
    let mut shell = Rlsh::new();
    shell.rlsh_loop(Event::Entered(PathBuf::from(directory)));
    shell
}

#[test]
fn builtins_are_found_by_name() {
    assert_eq!(Builtins::from_str("cd"), Some(Builtins::Cd));
    assert_eq!(Builtins::from_str("help"), Some(Builtins::Help));
    assert_eq!(Builtins::from_str("exit"), Some(Builtins::Exit));
}

#[test]
fn other_words_name_no_builtin() {
    let words =
        ["", "ls", "c", "cdd", "cd ", " cd", "CD", "Cd", "Help", "EXIT", "hel", "exit\n", "quit"];
    for word in words {
        assert_eq!(Builtins::from_str(word), None, "{word:?}");
    }
}

#[test]
fn builtins_are_listed_in_a_fixed_order() {
    assert_eq!(Builtins::iter(), vec![Builtins::Cd, Builtins::Help, Builtins::Exit]);
    assert_eq!(Builtins::iter(), Builtins::iter());
}

#[test]
fn each_builtin_has_its_name_and_message() {
    assert_eq!(Builtins::Cd.name(), "cd");
    assert_eq!(Builtins::Help.name(), "help");
    assert_eq!(Builtins::Exit.name(), "exit");
    assert_eq!(Builtins::Cd.message(), "change the shell working directory");
    assert_eq!(Builtins::Help.message(), "display information about builtin commands");
    assert_eq!(Builtins::Exit.message(), "exit the shell");
}

#[test]
fn each_builtin_is_found_under_its_own_name() {
    for builtin in Builtins::iter() {
        assert_eq!(Builtins::from_str(builtin.name()), Some(builtin));
    }
}

#[test]
fn help_prints_one_line_for_each_builtin() {
    let mut shell = Rlsh::new();
    let reply = Builtins::rlsh_help(&mut shell, command(&["help"]));
    let expected = vec![
        String::from("SandWood Jones' RLSH (a clone of Stephen Brennan's LSH)"),
        String::from("Type program names and arguments, and hit enter."),
        String::from("The following are built in:"),
        String::from("\tcd - change the shell working directory"),
        String::from("\thelp - display information about builtin commands"),
        String::from("\texit - exit the shell"),
        String::from("Use the man command for information on other programs."),
    ];
    assert_eq!(reply, Ok(Action::Print(expected)));
    assert!(!shell.terminate());
    assert_eq!(shell.old_pwd(), None);
}

#[test]
fn help_lines_hold_name_and_message_in_order() {
    let mut shell = Rlsh::new();
    let lines = match Builtins::rlsh_help(&mut shell, Vec::new()) {
        Ok(Action::Print(lines)) => lines,
        other => panic!("help answered {other:?}"),
    };
    let all = Builtins::iter();
    assert_eq!(lines.len(), 3 + all.len() + 1);
    for (i, builtin) in all.iter().enumerate() {
        assert_eq!(lines[3 + i], format!("\t{} - {}", builtin.name(), builtin.message()));
    }
}

#[test]
fn help_does_not_look_at_its_arguments() {
    let mut shell = Rlsh::new();
    let bare = Builtins::rlsh_help(&mut shell, command(&["help"]));
    let more = Builtins::rlsh_help(&mut shell, command(&["help", "cd", "--all"]));
    assert_eq!(bare, more);
}

#[test]
fn exit_tells_the_loop_to_end() {
    let mut shell = Rlsh::new();
    assert_eq!(Builtins::rlsh_exit(&mut shell, command(&["exit"])), Ok(Action::Exit));
    assert_eq!(Builtins::rlsh_exit(&mut shell, command(&["exit", "1", "now"])), Ok(Action::Exit));
    assert_eq!(Builtins::rlsh_exit(&mut shell, Vec::new()), Ok(Action::Exit));
    assert!(!shell.terminate());
}

#[test]
fn bare_cd_goes_home() {
    let shell = Rlsh::new();
    let home = PathBuf::from("/home/ada");
    assert_eq!(
        Builtins::rlsh_cd_to(&shell, &command(&["cd"]), Some(home.clone())),
        Ok(Destination::Home(home))
    );
}

#[test]
fn bare_cd_without_a_home_fails() {
    let shell = shell_that_left("/var");
    assert_eq!(
        Builtins::rlsh_cd_to(&shell, &command(&["cd"]), None),
        Err(BuiltinError::HomeNotFound)
    );
}

#[test]
fn cd_dash_goes_back() {
    let shell = shell_that_left("/var/log");
    assert_eq!(
        Builtins::rlsh_cd_to(&shell, &command(&["cd", "-"]), None),
        Ok(Destination::Previous(PathBuf::from("/var/log")))
    );
    assert_eq!(shell.old_pwd(), Some(&PathBuf::from("/var/log")));
}

#[test]
fn cd_dash_without_a_past_fails() {
    let shell = Rlsh::new();
    assert_eq!(
        Builtins::rlsh_cd_to(&shell, &command(&["cd", "-"]), Some(PathBuf::from("/home/ada"))),
        Err(BuiltinError::OldPwdNotSet)
    );
    assert_eq!(shell.old_pwd(), None);
}

#[test]
fn cd_takes_any_other_argument_as_typed() {
    let shell = shell_that_left("/var");
    for name in ["/tmp", "..", "relative/dir", "~", "--", "-x", "/no/such/place"] {
        assert_eq!(
            Builtins::rlsh_cd_to(&shell, &command(&["cd", name]), Some(PathBuf::from("/home/ada"))),
            Ok(Destination::Named(String::from(name)))
        );
    }
}

#[test]
fn cd_looks_at_its_first_argument_only() {
    let shell = shell_that_left("/var");
    assert_eq!(
        Builtins::rlsh_cd_to(&shell, &command(&["cd", "/tmp", "/usr"]), None),
        Ok(Destination::Named(String::from("/tmp")))
    );
    assert_eq!(
        Builtins::rlsh_cd_to(&shell, &command(&["cd", "-", "more"]), None),
        Ok(Destination::Previous(PathBuf::from("/var")))
    );
}

#[test]
fn cd_asks_the_environment_for_the_home_directory() {
    let mut shell = Rlsh::new();
    let expected = match home::home_dir() {
        Some(directory) => Ok(Action::ChangeDirectory(Destination::Home(directory))),
        None => Err(BuiltinError::HomeNotFound),
    };
    assert_eq!(Builtins::rlsh_cd(&mut shell, command(&["cd"])), expected);
    assert_eq!(shell.old_pwd(), None);
}

#[test]
fn cd_with_an_argument_does_not_ask_for_the_home_directory() {
    let mut shell = shell_that_left("/srv");
    assert_eq!(
        Builtins::rlsh_cd(&mut shell, command(&["cd", "/tmp"])),
        Ok(Action::ChangeDirectory(Destination::Named(String::from("/tmp"))))
    );
    assert_eq!(
        Builtins::rlsh_cd(&mut shell, command(&["cd", "-"])),
        Ok(Action::ChangeDirectory(Destination::Previous(PathBuf::from("/srv"))))
    );
    assert_eq!(shell.old_pwd(), Some(&PathBuf::from("/srv")));
}

#[test]
fn func_calls_the_builtin() {
    let mut shell = shell_that_left("/srv");
    assert_eq!(
        Builtins::Cd.func(&mut shell, command(&["cd", "-"])),
        Ok(Action::ChangeDirectory(Destination::Previous(PathBuf::from("/srv"))))
    );
    assert_eq!(Builtins::Exit.func(&mut shell, command(&["exit", "0"])), Ok(Action::Exit));
    let help = Builtins::Help.func(&mut shell, command(&["help"]));
    assert_eq!(help, Builtins::rlsh_help(&mut shell, command(&["help"])));
    assert!(!shell.terminate());
    assert_eq!(shell.old_pwd(), Some(&PathBuf::from("/srv")));
}

#[test]
fn builtin_errors_say_what_failed() {
    assert_eq!(BuiltinError::HomeNotFound.message(), "cd: could not find home directory");
    assert_eq!(BuiltinError::OldPwdNotSet.message(), "cd: OLDPWD not set");
    assert_eq!(
        BuiltinError::Os(String::from("Permission denied (os error 13)")).message(),
        "Permission denied (os error 13)"
    );
}
