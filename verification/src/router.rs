//! Routing of captured output.  Without a directive, each stream's text
//! goes to its own console stream, byte for byte.  With a directive, the
//! targeted stream's text goes to the directive's file — truncating or
//! appending — and the file is created (or truncated) even when that stream
//! produced nothing; the other stream still reaches its normal console
//! destination, byte for byte, unaffected by the directive.

use vstd::prelude::*;

use crate::redirection::Redirection;

verus! {

/// One pending write of text to a file.
#[derive(Debug, PartialEq, Eq)]
pub struct FileWrite {
    /// The destination path.
    pub path: String,
    /// Append to the file instead of truncating it.
    pub append: bool,
    /// The text to write; the file is still created or truncated (or left
    /// as it is, in append mode) when there is none.
    pub text: Option<String>,
}

/// Where one line's output goes: text for the console's two streams, and at
/// most one file write.
#[derive(Debug, PartialEq, Eq)]
pub struct RoutePlan {
    pub console_stdout: Option<String>,
    pub console_stderr: Option<String>,
    pub file: Option<FileWrite>,
}

/// The view of an optional text.
pub open spec fn opt_text(o: Option<String>) -> Option<Seq<char>> {
    match o {
        Some(s) => Some(s@),
        None => None,
    }
}

/// The directive's target stream goes to the file at `path`; the other
/// stream's text still reaches its own console destination, unchanged.
pub open spec fn file_gets(
    target: Option<Seq<char>>,
    other: Option<Seq<char>>,
    path: String,
    append: bool,
    file: Option<FileWrite>,
    console_other: Option<String>,
) -> bool {
    &&& file matches Some(f) && f.path == path && f.append == append && opt_text(f.text) == target
    &&& opt_text(console_other) == other
}

/// How a routing plan must relate to the captured output `out` and `err`
/// and the optional directive.
pub open spec fn plan_routes(
    out: Option<Seq<char>>,
    err: Option<Seq<char>>,
    redirection: Option<Redirection>,
    plan: RoutePlan,
) -> bool {
    match redirection {
        None => {
            &&& plan.file is None
            &&& opt_text(plan.console_stdout) == out
            &&& opt_text(plan.console_stderr) == err
        },
        Some(Redirection::StdoutWrite { path }) => {
            &&& file_gets(out, err, path, false, plan.file, plan.console_stderr)
            &&& plan.console_stdout is None
        },
        Some(Redirection::StdoutAppend { path }) => {
            &&& file_gets(out, err, path, true, plan.file, plan.console_stderr)
            &&& plan.console_stdout is None
        },
        Some(Redirection::StderrWrite { path }) => {
            &&& file_gets(err, out, path, false, plan.file, plan.console_stdout)
            &&& plan.console_stderr is None
        },
        Some(Redirection::StderrAppend { path }) => {
            &&& file_gets(err, out, path, true, plan.file, plan.console_stdout)
            &&& plan.console_stderr is None
        },
    }
}

/// Decides where each piece of captured output goes.
pub fn route(
    stdout_text: Option<String>,
    stderr_text: Option<String>,
    redirection: Option<Redirection>,
) -> (plan: RoutePlan)
    ensures
        plan_routes(opt_text(stdout_text), opt_text(stderr_text), redirection, plan),
{
    match redirection {
        None => RoutePlan { console_stdout: stdout_text, console_stderr: stderr_text, file: None },
        Some(Redirection::StdoutWrite { path }) => RoutePlan {
            console_stdout: None,
            console_stderr: stderr_text,
            file: Some(FileWrite { path, append: false, text: stdout_text }),
        },
        Some(Redirection::StdoutAppend { path }) => RoutePlan {
            console_stdout: None,
            console_stderr: stderr_text,
            file: Some(FileWrite { path, append: true, text: stdout_text }),
        },
        Some(Redirection::StderrWrite { path }) => RoutePlan {
            console_stdout: stdout_text,
            console_stderr: None,
            file: Some(FileWrite { path, append: false, text: stderr_text }),
        },
        Some(Redirection::StderrAppend { path }) => RoutePlan {
            console_stdout: stdout_text,
            console_stderr: None,
            file: Some(FileWrite { path, append: true, text: stderr_text }),
        },
    }
}

} // verus!
