use minishell::input_command::InputCommand;
use minishell::redirection::{check_extract_redirection, Redirection};
use minishell::router::{route, FileWrite, RoutePlan};
use minishell::shell::{Shell, ShellAction};
use minishell::tokenizer::tokenize;

fn s(x: &str) -> String {
    x.to_string()
}

/// Runs one line through tokenizing, redirection extraction, classification
/// and execution, with `resolved` standing in for the search path's answer
/// on the first word.
fn run_line(shell: &mut Shell, line: &str, resolved: Option<String>) -> ShellAction {
    let mut words = tokenize(line).expect("line should tokenize");
    assert!(!words.is_empty(), "line should hold a command");
    let redirection = check_extract_redirection(&mut words).expect("line should be accepted");
    let command = InputCommand::from(words, resolved);
    shell.execute(command, redirection, &s("/somewhere"), &s("/home/user"))
}

#[test]
fn exit_requests_quitting() {
    let mut shell = Shell::new();
    assert!(!shell.should_quit());
    let action = run_line(&mut shell, "exit", None);
    assert_eq!(action, ShellAction::Quit);
    assert!(shell.should_quit());
}

#[test]
fn other_commands_leave_the_quit_flag_alone() {
    let mut shell = Shell::new();
    run_line(&mut shell, "pwd", None);
    assert!(!shell.should_quit());
}

#[test]
fn echo_emits_its_text_with_a_newline() {
    let mut shell = Shell::new();
    let action = run_line(&mut shell, "echo hello world", None);
    assert_eq!(action, ShellAction::Emit {
        plan: RoutePlan {
            console_stdout: Some(s("hello world\n")),
            console_stderr: None,
            file: None,
        },
    });
}

#[test]
fn quoted_spacing_survives_to_the_echoed_text() {
    let mut shell = Shell::new();
    let action = run_line(&mut shell, "echo 'a  b' \"c d\"", None);
    assert_eq!(action, ShellAction::Emit {
        plan: RoutePlan { console_stdout: Some(s("a  b c d\n")), console_stderr: None, file: None },
    });
}

#[test]
fn pwd_emits_the_working_directory() {
    let mut shell = Shell::new();
    let action = run_line(&mut shell, "pwd", None);
    assert_eq!(action, ShellAction::Emit {
        plan: RoutePlan { console_stdout: Some(s("/somewhere\n")), console_stderr: None, file: None },
    });
}

#[test]
fn cd_to_a_missing_path_reports_and_changes_nothing() {
    let mut shell = Shell::new();
    let action = run_line(&mut shell, "cd /nonexistent/path", None);
    // The caller only attempts the change to `target`; on failure it
    // performs `on_failure`, so the working directory stays as it was.
    assert_eq!(action, ShellAction::ChangeDir {
        target: s("/nonexistent/path"),
        on_failure: RoutePlan {
            console_stdout: None,
            console_stderr: Some(s("cd: /nonexistent/path: No such file or directory\n")),
            file: None,
        },
    });
}

#[test]
fn cd_tilde_goes_home() {
    let mut shell = Shell::new();
    // `#` must be quoted to survive tokenization; both special names mean
    // the home directory.
    for line in ["cd ~", "cd '#'"] {
        let action = run_line(&mut shell, line, None);
        match action {
            ShellAction::ChangeDir { target, .. } => assert_eq!(target, s("/home/user")),
            other => panic!("expected a directory change, got {other:?}"),
        }
    }
    let action = run_line(&mut shell, "cd /tmp", None);
    match action {
        ShellAction::ChangeDir { target, .. } => assert_eq!(target, s("/tmp")),
        other => panic!("expected a directory change, got {other:?}"),
    }
}

#[test]
fn an_unknown_name_reports_not_found_on_stderr() {
    let mut shell = Shell::new();
    let action = run_line(&mut shell, "nosuchcmd", None);
    assert_eq!(action, ShellAction::Emit {
        plan: RoutePlan {
            console_stdout: None,
            console_stderr: Some(s("nosuchcmd: command not found\n")),
            file: None,
        },
    });
}

#[test]
fn an_external_command_is_spawned_with_its_arguments() {
    let mut shell = Shell::new();
    let action = run_line(&mut shell, "prog -x 'a b'", Some(s("/bin/prog")));
    assert_eq!(action, ShellAction::Run {
        program: s("prog"),
        args: vec![s("-x"), s("a b")],
        redirection: None,
    });
}

#[test]
fn type_asks_for_a_lookup_and_reports_it() {
    let mut shell = Shell::new();
    let action = run_line(&mut shell, "type exit", None);
    assert_eq!(action, ShellAction::ResolveType { name: s("exit"), redirection: None });
    // The five builtins answer without consulting the search path.
    for name in ["exit", "echo", "type", "pwd", "cd"] {
        let plan = Shell::type_report(&s(name), Some(s("/tmp/decoy")), None);
        assert_eq!(plan.console_stdout, Some(format!("{name} is a shell builtin\n")));
        assert_eq!(plan.console_stderr, None);
        assert_eq!(plan.file, None);
    }
    let plan = Shell::type_report(&s("nonexistentcmd123"), None, None);
    assert_eq!(plan.console_stdout, Some(s("nonexistentcmd123: not found\n")));
    let plan = Shell::type_report(&s("cat"), Some(s("/bin/cat")), None);
    assert_eq!(plan.console_stdout, Some(s("cat is /bin/cat\n")));
}

#[test]
fn redirected_echo_writes_the_file_and_stays_silent() {
    let mut shell = Shell::new();
    let action = run_line(&mut shell, "echo hello > /tmp/out.txt", None);
    assert_eq!(action, ShellAction::Emit {
        plan: RoutePlan {
            console_stdout: None,
            console_stderr: None,
            file: Some(FileWrite {
                path: s("/tmp/out.txt"),
                append: false,
                text: Some(s("hello\n")),
            }),
        },
    });
}

#[test]
fn appending_echoes_accumulate_in_order() {
    let mut shell = Shell::new();
    for (line, text) in [("echo one >> /tmp/out.txt", "one\n"), ("echo two >> /tmp/out.txt", "two\n")] {
        let action = run_line(&mut shell, line, None);
        assert_eq!(action, ShellAction::Emit {
            plan: RoutePlan {
                console_stdout: None,
                console_stderr: None,
                file: Some(FileWrite {
                    path: s("/tmp/out.txt"),
                    append: true,
                    text: Some(s(text)),
                }),
            },
        });
    }
}

#[test]
fn redirected_stderr_is_captured_while_stdout_still_prints() {
    let plan = Shell::run_report(
        s("ordinary output\n"),
        s("something failed\n"),
        Some(Redirection::StderrWrite { path: s("/tmp/err.txt") }),
    );
    assert_eq!(plan.file, Some(FileWrite {
        path: s("/tmp/err.txt"),
        append: false,
        text: Some(s("something failed\n")),
    }));
    assert_eq!(plan.console_stdout, Some(s("ordinary output\n")));
    assert_eq!(plan.console_stderr, None);
}

#[test]
fn a_silent_stream_yields_no_output_at_all() {
    let plan = Shell::run_report(s(""), s("only errors\n"), None);
    assert_eq!(plan.console_stdout, None);
    assert_eq!(plan.console_stderr, Some(s("only errors\n")));
    assert_eq!(plan.file, None);
}

#[test]
fn the_other_stream_is_unaffected_when_one_is_redirected() {
    // A directive only moves its own stream; the other one reaches the
    // console byte for byte, trailing white space and all.
    let plan = route(
        Some(s("kept \t\n")),
        Some(s("moved")),
        Some(Redirection::StderrAppend { path: s("/tmp/e") }),
    );
    assert_eq!(plan.console_stdout, Some(s("kept \t\n")));
    assert_eq!(plan.console_stderr, None);
    assert_eq!(plan.file, Some(FileWrite {
        path: s("/tmp/e"),
        append: true,
        text: Some(s("moved")),
    }));

    let plan = route(
        Some(s("to file")),
        Some(s("stays ")),
        Some(Redirection::StdoutWrite { path: s("/tmp/o") }),
    );
    assert_eq!(plan.console_stdout, None);
    assert_eq!(plan.console_stderr, Some(s("stays ")));
    assert_eq!(plan.file, Some(FileWrite {
        path: s("/tmp/o"),
        append: false,
        text: Some(s("to file")),
    }));
}

#[test]
fn a_redirected_stream_with_no_text_still_touches_the_file() {
    let plan = route(None, None, Some(Redirection::StdoutWrite { path: s("/tmp/empty") }));
    assert_eq!(plan.file, Some(FileWrite { path: s("/tmp/empty"), append: false, text: None }));
    assert_eq!(plan.console_stdout, None);
    assert_eq!(plan.console_stderr, None);
}

#[test]
fn without_redirection_both_streams_pass_through_untouched() {
    let plan = route(Some(s("out text")), Some(s("err text")), None);
    assert_eq!(plan, RoutePlan {
        console_stdout: Some(s("out text")),
        console_stderr: Some(s("err text")),
        file: None,
    });
}
