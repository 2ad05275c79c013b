//! Classification of a tokenized command line.  The first word picks the
//! command: one of the five builtins, an external program found on the
//! search path, or an unrecognized name.  The builtin set is consulted
//! strictly before the search path, so a builtin name can never be shadowed
//! by an executable of the same name.

use vstd::prelude::*;

use crate::builtins::is_builtin_name;
use crate::text::{join_tokens, joined_with_spaces, str_eq};

verus! {

/// One parsed command, built from a token sequence and consumed once.
#[derive(Debug, PartialEq, Eq)]
pub enum InputCommand {
    /// `cd` with its target path (empty when none was given).
    Cd { path: String },
    /// `echo` with its arguments already joined by single spaces.
    Echo { input: String },
    /// An external program, resolved on the search path, with its arguments.
    Executable { program: String, args: Vec<String> },
    /// `exit`; arguments are ignored.
    Exit,
    /// `pwd`; arguments are ignored.
    Pwd,
    /// `type` with the queried name (empty when none was given).
    Type { input: String },
    /// A name that is neither a builtin nor found on the search path.
    Unknown { name: String },
}

/// The argument a builtin such as `cd` or `type` takes: the second token,
/// or empty when the line has only the command name.
pub open spec fn single_arg_of(tokens: Seq<String>) -> Seq<char> {
    if tokens.len() > 1 {
        tokens[1]@
    } else {
        Seq::<char>::empty()
    }
}

impl InputCommand {
    /// Classifies a non-empty token sequence.  `resolved` is the search
    /// path's answer for the first token; a builtin name wins over it.
    pub fn from(tokens: Vec<String>, resolved: Option<String>) -> (r: InputCommand)
        requires
            tokens@.len() > 0,
        ensures
            ({
                let head = tokens@[0];
                &&& (head@ == "exit"@ ==> r == InputCommand::Exit)
                &&& (head@ == "cd"@ ==> (r matches InputCommand::Cd { path } && path@
                    == single_arg_of(tokens@)))
                &&& (head@ == "echo"@ ==> (r matches InputCommand::Echo { input } && input@
                    == joined_with_spaces(tokens.deep_view().skip(1))))
                &&& (head@ == "type"@ ==> (r matches InputCommand::Type { input } && input@
                    == single_arg_of(tokens@)))
                &&& (head@ == "pwd"@ ==> r == InputCommand::Pwd)
                &&& (!is_builtin_name(head@) ==> match resolved {
                    Some(p) => r matches InputCommand::Executable { program, args } && program
                        == head && args@ == tokens@.skip(1),
                    None => r matches InputCommand::Unknown { name } && name == head,
                })
            }),
    {
        proof {
            crate::builtins::lemma_builtin_names_distinct();
        }
        if str_eq(tokens[0].as_str(), "exit") {
            InputCommand::Exit
        } else if str_eq(tokens[0].as_str(), "cd") {
            let path = if tokens.len() > 1 {
                tokens[1].clone()
            } else {
                String::new()
            };
            InputCommand::Cd { path }
        } else if str_eq(tokens[0].as_str(), "echo") {
            let input = join_tokens(&tokens, 1);
            InputCommand::Echo { input }
        } else if str_eq(tokens[0].as_str(), "type") {
            let input = if tokens.len() > 1 {
                tokens[1].clone()
            } else {
                String::new()
            };
            InputCommand::Type { input }
        } else if str_eq(tokens[0].as_str(), "pwd") {
            InputCommand::Pwd
        } else {
            match resolved {
                Some(_) => {
                    let args = tail_of(&tokens);
                    let mut rest = tokens;
                    let program = rest.remove(0);
                    InputCommand::Executable { program, args }
                },
                None => {
                    let mut rest = tokens;
                    let name = rest.remove(0);
                    InputCommand::Unknown { name }
                },
            }
        }
    }
}

/// Copies every token but the first.
fn tail_of(tokens: &Vec<String>) -> (r: Vec<String>)
    requires
        tokens@.len() >= 1,
    ensures
        r@ == tokens@.skip(1),
{
    let mut r: Vec<String> = Vec::new();
    let mut i: usize = 1;
    while i < tokens.len()
        invariant
            1 <= i <= tokens@.len(),
            r@ == tokens@.subrange(1, i as int),
        decreases tokens@.len() - i,
    {
        proof {
            assert(tokens@.subrange(1, i as int + 1) =~= tokens@.subrange(1, i as int).push(
                tokens@[i as int],
            ));
        }
        r.push(tokens[i].clone());
        i += 1;
    }
    proof {
        assert(tokens@.subrange(1, tokens@.len() as int) =~= tokens@.skip(1));
    }
    r
}

} // verus!
