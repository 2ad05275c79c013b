//! The execution engine's decisions.  A classified command becomes an
//! action for the caller: quit the loop, change the working directory, emit
//! routed output, look a name up for a `type` query, or spawn an external
//! program.  The caller performs the action's outside work — the directory
//! change, the lookup, the spawn — and hands the result back to the
//! reporting functions here, which turn it into a routing plan.

use vstd::prelude::*;

use crate::builtins::{command_type_of, get_type, type_line, type_line_of};
use crate::input_command::InputCommand;
use crate::redirection::Redirection;
use crate::router::{plan_routes, route, RoutePlan};
use crate::text::str_eq;

verus! {

/// The interpreter's state across lines: whether an exit command has been
/// executed.
pub struct Shell {
    should_quit: bool,
}

impl Shell {
    /// Whether an exit command has been executed so far.
    pub closed spec fn quit_requested(&self) -> bool {
        self.should_quit
    }
}

/// What the caller must do for one executed command.
#[derive(Debug, PartialEq, Eq)]
pub enum ShellAction {
    /// Stop reading lines.
    Quit,
    /// Change the working directory to `target`; when the change fails,
    /// perform `on_failure` instead.
    ChangeDir { target: String, on_failure: RoutePlan },
    /// Perform this routed output.
    Emit { plan: RoutePlan },
    /// Resolve `name` on the search path and hand the answer to
    /// [`Shell::type_report`], together with `redirection`.
    ResolveType { name: String, redirection: Option<Redirection> },
    /// Spawn `program` with `args`, wait for it, capture both of its
    /// streams, and hand them to [`Shell::run_report`], together with
    /// `redirection`.
    Run { program: String, args: Vec<String>, redirection: Option<Redirection> },
}

/// Where `cd` goes: `~` and `#` stand for the home directory, every other
/// path stands for itself.
pub open spec fn cd_target_of(path: Seq<char>, home: Seq<char>) -> Seq<char> {
    if path == "~"@ || path == "#"@ {
        home
    } else {
        path
    }
}

/// The message a failed directory change leaves on the error stream.
pub open spec fn cd_failure_message(path: Seq<char>) -> Seq<char> {
    "cd: "@ + path + ": No such file or directory\n"@
}

/// The message an unrecognized command name leaves on the error stream.
pub open spec fn not_found_message(name: Seq<char>) -> Seq<char> {
    name + ": command not found\n"@
}

/// The captured output text of an external program's stream, or nothing
/// when the stream produced no bytes.
pub open spec fn nonempty_text(s: Seq<char>) -> Option<Seq<char>> {
    if s.len() == 0 {
        None
    } else {
        Some(s)
    }
}

impl Shell {
    /// A fresh interpreter that has not seen an exit command yet.
    pub fn new() -> (s: Shell)
        ensures
            !s.quit_requested(),
    {
        Shell { should_quit: false }
    }

    /// Whether an exit command has been executed.
    pub fn should_quit(&self) -> (b: bool)
        ensures
            b == self.quit_requested(),
    {
        self.should_quit
    }

    /// Executes one classified command: decides the action the caller must
    /// perform, and for the builtins that only produce text, the routed
    /// output itself.  `cwd` is the current working directory (for `pwd`)
    /// and `home` the home directory (for `cd ~`).
    pub fn execute(
        &mut self,
        command: InputCommand,
        redirection: Option<Redirection>,
        cwd: &String,
        home: &String,
    ) -> (a: ShellAction)
        ensures
            final(self).quit_requested() == (old(self).quit_requested() || command is Exit),
            command is Exit ==> a is Quit,
            command matches InputCommand::Cd { path } ==> (a matches ShellAction::ChangeDir {
                target,
                on_failure,
            } && target@ == cd_target_of(path@, home@) && plan_routes(
                None::<Seq<char>>,
                Some(cd_failure_message(path@)),
                redirection,
                on_failure,
            )),
            command matches InputCommand::Echo { input } ==> (a matches ShellAction::Emit { plan }
                && plan_routes(Some(input@ + "\n"@), None::<Seq<char>>, redirection, plan)),
            command matches InputCommand::Type { input } ==> a == (ShellAction::ResolveType {
                name: input,
                redirection,
            }),
            command is Pwd ==> (a matches ShellAction::Emit { plan } && plan_routes(
                Some(cwd@ + "\n"@),
                None::<Seq<char>>,
                redirection,
                plan,
            )),
            command matches InputCommand::Executable { program, args } ==> a == (ShellAction::Run {
                program,
                args,
                redirection,
            }),
            command matches InputCommand::Unknown { name } ==> (a matches ShellAction::Emit { plan }
                && plan_routes(
                None::<Seq<char>>,
                Some(not_found_message(name@)),
                redirection,
                plan,
            )),
    {
        match command {
            InputCommand::Exit => {
                self.should_quit = true;
                ShellAction::Quit
            },
            InputCommand::Cd { path } => {
                let target = if str_eq(path.as_str(), "~") || str_eq(path.as_str(), "#") {
                    home.clone()
                } else {
                    path.clone()
                };
                let mut msg = String::from_str("cd: ");
                msg.append(path.as_str());
                msg.append(": No such file or directory\n");
                let on_failure = route(None, Some(msg), redirection);
                ShellAction::ChangeDir { target, on_failure }
            },
            InputCommand::Echo { input } => {
                let mut text = input;
                text.append("\n");
                ShellAction::Emit { plan: route(Some(text), None, redirection) }
            },
            InputCommand::Type { input } => ShellAction::ResolveType { name: input, redirection },
            InputCommand::Pwd => {
                let mut text = cwd.clone();
                text.append("\n");
                ShellAction::Emit { plan: route(Some(text), None, redirection) }
            },
            InputCommand::Executable { program, args } => ShellAction::Run {
                program,
                args,
                redirection,
            },
            InputCommand::Unknown { name } => {
                let mut msg = name;
                msg.append(": command not found\n");
                ShellAction::Emit { plan: route(None, Some(msg), redirection) }
            },
        }
    }

    /// Turns the answer of a `type` lookup into routed output.  `resolved`
    /// is the search path's answer for `name`; a builtin name wins over it.
    pub fn type_report(
        name: &String,
        resolved: Option<String>,
        redirection: Option<Redirection>,
    ) -> (plan: RoutePlan)
        ensures
            plan_routes(
                Some(type_line_of(name@, command_type_of(name@, resolved))),
                None::<Seq<char>>,
                redirection,
                plan,
            ),
    {
        let t = get_type(name, resolved);
        let line = type_line(name, &t);
        route(Some(line), None, redirection)
    }

    /// Routes the captured output of a finished external program; a stream
    /// that produced no bytes yields nothing at all.
    pub fn run_report(
        stdout_text: String,
        stderr_text: String,
        redirection: Option<Redirection>,
    ) -> (plan: RoutePlan)
        ensures
            plan_routes(
                nonempty_text(stdout_text@),
                nonempty_text(stderr_text@),
                redirection,
                plan,
            ),
    {
        let out = if stdout_text.as_str().is_empty() {
            None
        } else {
            Some(stdout_text)
        };
        let err = if stderr_text.as_str().is_empty() {
            None
        } else {
            Some(stderr_text)
        };
        route(out, err, redirection)
    }
}

impl Default for Shell {
    /// A fresh interpreter that has not seen an exit command yet.
    fn default() -> (s: Shell)
        ensures
            !s.quit_requested(),
    {
        Shell { should_quit: false }
    }
}

} // verus!
