use minishell::builtins::{get_type, is_builtin, type_line, CommandType};
use minishell::input_command::InputCommand;
use minishell::resolver::{candidate_path, resolve_first, split_path_list};

fn s(x: &str) -> String {
    x.to_string()
}

fn toks(words: &[&str]) -> Vec<String> {
    words.iter().map(|w| w.to_string()).collect()
}

#[test]
fn the_builtin_set_is_exactly_five_names() {
    for name in ["exit", "echo", "type", "pwd", "cd"] {
        assert!(is_builtin(name), "{name} is a builtin");
    }
    for name in ["ls", "Exit", "ECHO", "exit ", "", "sh"] {
        assert!(!is_builtin(name), "{name} is not a builtin");
    }
}

#[test]
fn type_reports_every_builtin_as_builtin() {
    for name in ["exit", "echo", "type", "pwd", "cd"] {
        let t = get_type(&s(name), None);
        assert_eq!(t, CommandType::Builtin);
        assert_eq!(type_line(&s(name), &t), format!("{name} is a shell builtin\n"));
    }
}

#[test]
fn type_reports_an_unknown_name_as_not_found() {
    let t = get_type(&s("nonexistentcmd123"), None);
    assert_eq!(t, CommandType::Unknown);
    assert_eq!(type_line(&s("nonexistentcmd123"), &t), "nonexistentcmd123: not found\n");
}

#[test]
fn type_reports_a_resolved_name_with_its_path() {
    let t = get_type(&s("ls"), Some(s("/usr/bin/ls")));
    assert_eq!(t, CommandType::Executable { path: s("/usr/bin/ls") });
    assert_eq!(type_line(&s("ls"), &t), "ls is /usr/bin/ls\n");
}

#[test]
fn a_builtin_name_wins_over_a_resolved_executable() {
    // Even when the search path has an executable called `echo`, the
    // builtin is reported and classified first.
    assert_eq!(get_type(&s("echo"), Some(s("/tmp/echo"))), CommandType::Builtin);
    let cmd = InputCommand::from(toks(&["echo", "hi"]), Some(s("/tmp/echo")));
    assert_eq!(cmd, InputCommand::Echo { input: s("hi") });
}

#[test]
fn echo_joins_arguments_with_single_spaces() {
    let cmd = InputCommand::from(toks(&["echo", "a  b", "c d"]), None);
    assert_eq!(cmd, InputCommand::Echo { input: s("a  b c d") });
    let bare = InputCommand::from(toks(&["echo"]), None);
    assert_eq!(bare, InputCommand::Echo { input: s("") });
}

#[test]
fn cd_and_type_take_their_single_argument() {
    assert_eq!(InputCommand::from(toks(&["cd", "/tmp"]), None), InputCommand::Cd {
        path: s("/tmp"),
    });
    assert_eq!(InputCommand::from(toks(&["cd"]), None), InputCommand::Cd { path: s("") });
    assert_eq!(InputCommand::from(toks(&["type", "ls"]), None), InputCommand::Type {
        input: s("ls"),
    });
    assert_eq!(InputCommand::from(toks(&["type"]), None), InputCommand::Type { input: s("") });
    assert_eq!(InputCommand::from(toks(&["exit", "0"]), None), InputCommand::Exit);
    assert_eq!(InputCommand::from(toks(&["pwd"]), None), InputCommand::Pwd);
}

#[test]
fn a_resolved_name_becomes_an_external_command() {
    let cmd = InputCommand::from(toks(&["prog", "-a", "b"]), Some(s("/bin/prog")));
    assert_eq!(cmd, InputCommand::Executable { program: s("prog"), args: toks(&["-a", "b"]) });
}

#[test]
fn an_unresolved_name_is_unrecognized() {
    let cmd = InputCommand::from(toks(&["nosuch", "arg"]), None);
    assert_eq!(cmd, InputCommand::Unknown { name: s("nosuch") });
}

#[test]
fn path_lists_split_on_every_separator() {
    assert_eq!(split_path_list("/usr/bin:/bin"), toks(&["/usr/bin", "/bin"]));
    assert_eq!(split_path_list(""), toks(&[""]));
    assert_eq!(split_path_list("a::b"), toks(&["a", "", "b"]));
    assert_eq!(split_path_list(":x:"), toks(&["", "x", ""]));
}

#[test]
fn candidates_join_directory_and_name() {
    assert_eq!(candidate_path("/usr/bin", "ls"), s("/usr/bin/ls"));
    assert_eq!(candidate_path("/usr/bin/", "ls"), s("/usr/bin/ls"));
    assert_eq!(candidate_path("", "ls"), s("ls"));
}

#[test]
fn resolution_takes_the_first_listed_match() {
    let dirs = toks(&["/first", "/second"]);
    // Both directories hold a match: the earlier one wins.
    assert_eq!(resolve_first("prog", &dirs, &vec![true, true]), Some(s("/first/prog")));
    // Only the later one holds a match.
    assert_eq!(resolve_first("prog", &dirs, &vec![false, true]), Some(s("/second/prog")));
    // No directory holds a match.
    assert_eq!(resolve_first("prog", &dirs, &vec![false, false]), None);
}
