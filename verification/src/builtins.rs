//! The closed set of builtin command names, and the classification a `type`
//! query reports for a name: builtin first, then an executable found on the
//! search path, then unknown.

use vstd::prelude::*;

use crate::text::str_eq;

verus! {

/// The five builtin names are pairwise distinct words.
pub proof fn lemma_builtin_names_distinct()
    ensures
        "exit"@ != "cd"@ && "exit"@ != "echo"@ && "exit"@ != "type"@ && "exit"@ != "pwd"@,
        "cd"@ != "echo"@ && "cd"@ != "type"@ && "cd"@ != "pwd"@,
        "echo"@ != "type"@ && "echo"@ != "pwd"@,
        "type"@ != "pwd"@,
{
    reveal_strlit("exit");
    reveal_strlit("cd");
    reveal_strlit("echo");
    reveal_strlit("type");
    reveal_strlit("pwd");
    assert("exit"@.len() == 4 && "cd"@.len() == 2 && "echo"@.len() == 4 && "type"@.len() == 4
        && "pwd"@.len() == 3);
    assert("exit"@[0] == 'e' && "echo"@[0] == 'e' && "type"@[0] == 't');
    assert("exit"@[1] == 'x' && "echo"@[1] == 'c');
}

/// Whether `s` names one of the five builtin commands.
pub open spec fn is_builtin_name(s: Seq<char>) -> bool {
    ||| s == "echo"@
    ||| s == "exit"@
    ||| s == "type"@
    ||| s == "pwd"@
    ||| s == "cd"@
}

/// Executable test for [`is_builtin_name`].
pub fn is_builtin(name: &str) -> (r: bool)
    ensures
        r == is_builtin_name(name@),
{
    str_eq(name, "echo") || str_eq(name, "exit") || str_eq(name, "type") || str_eq(name, "pwd")
        || str_eq(name, "cd")
}

/// What a command name denotes.
#[derive(Debug, PartialEq, Eq)]
pub enum CommandType {
    /// The name is a builtin of the interpreter itself.
    Builtin,
    /// The name resolved to an executable at `path` on the search path.
    Executable { path: String },
    /// The name is neither a builtin nor found on the search path.
    Unknown,
}

/// The classification of `name`, given the search path's answer `resolved`
/// for it.  The builtin set is consulted strictly first, so `resolved` is
/// irrelevant for a builtin name.
pub open spec fn command_type_of(name: Seq<char>, resolved: Option<String>) -> CommandType {
    if is_builtin_name(name) {
        CommandType::Builtin
    } else {
        match resolved {
            Some(path) => CommandType::Executable { path },
            None => CommandType::Unknown,
        }
    }
}

/// Classifies `input` as a builtin, a resolved executable or an unknown
/// name.  `resolved` is the search path's answer for `input`; a builtin name
/// wins over it.
pub fn get_type(input: &String, resolved: Option<String>) -> (r: CommandType)
    ensures
        r == command_type_of(input@, resolved),
{
    if is_builtin(input.as_str()) {
        CommandType::Builtin
    } else {
        match resolved {
            Some(path) => CommandType::Executable { path },
            None => CommandType::Unknown,
        }
    }
}

/// The output line a `type` query produces for `name` classified as `t`.
pub open spec fn type_line_of(name: Seq<char>, t: CommandType) -> Seq<char> {
    match t {
        CommandType::Builtin => name + " is a shell builtin\n"@,
        CommandType::Executable { path } => name + " is "@ + path@ + "\n"@,
        CommandType::Unknown => name + ": not found\n"@,
    }
}

/// Renders the output line of a `type` query.
pub fn type_line(name: &String, t: &CommandType) -> (r: String)
    ensures
        r@ == type_line_of(name@, *t),
{
    let mut r = name.clone();
    match t {
        CommandType::Builtin => {
            r.append(" is a shell builtin\n");
        },
        CommandType::Executable { path } => {
            r.append(" is ");
            r.append(path.as_str());
            r.append("\n");
        },
        CommandType::Unknown => {
            r.append(": not found\n");
        },
    }
    r
}

/// Builtin resolution always wins: whatever the search path answers for a
/// builtin name, the name is classified as a builtin.
pub proof fn lemma_builtin_always_wins(name: Seq<char>, resolved: Option<String>)
    requires
        is_builtin_name(name),
    ensures
        command_type_of(name, resolved) == CommandType::Builtin,
{
}

} // verus!
