//! Finds a stream-redirection operator among the words of a command line.
//! Exactly six operator words are recognized: `>`, `>>`, `1>`, `1>>`, `2>`
//! and `2>>`.  Only the leftmost occurrence counts: that operator and the
//! word after it (the destination path) are removed from the line and become
//! a directive; an operator that ends the line has no destination, and the
//! whole line is rejected.

use vstd::prelude::*;

use crate::text::str_eq;

verus! {

/// One stream sent to a file: which stream, whether to truncate or append,
/// and the destination path.
#[derive(Debug, PartialEq, Eq)]
pub enum Redirection {
    StdoutWrite { path: String },
    StderrWrite { path: String },
    StdoutAppend { path: String },
    StderrAppend { path: String },
}

/// Why a line with a redirection operator can be rejected.
#[derive(Debug, PartialEq, Eq)]
pub enum RedirectionError {
    /// The operator is the last word, so no destination path follows it.
    MissingTarget,
}

/// Whether the word `t` is one of the six redirection operators.
pub open spec fn is_redirect_op(t: Seq<char>) -> bool {
    ||| t == ">"@
    ||| t == ">>"@
    ||| t == "1>"@
    ||| t == "1>>"@
    ||| t == "2>"@
    ||| t == "2>>"@
}

/// Executable test for [`is_redirect_op`].
pub fn redirect_op(t: &str) -> (r: bool)
    ensures
        r == is_redirect_op(t@),
{
    str_eq(t, ">") || str_eq(t, ">>") || str_eq(t, "1>") || str_eq(t, "1>>") || str_eq(t, "2>")
        || str_eq(t, "2>>")
}

/// The directive that the operator `op` asks for, sending a stream to `path`.
pub open spec fn directive_for(op: Seq<char>, path: String) -> Redirection {
    if op == ">"@ || op == "1>"@ {
        Redirection::StdoutWrite { path }
    } else if op == ">>"@ || op == "1>>"@ {
        Redirection::StdoutAppend { path }
    } else if op == "2>"@ {
        Redirection::StderrWrite { path }
    } else {
        Redirection::StderrAppend { path }
    }
}

/// The position of the leftmost redirection operator among the words `ts`.
pub open spec fn first_op_index(ts: Seq<Seq<char>>) -> Option<int>
    decreases ts.len(),
{
    if ts.len() == 0 {
        None
    } else if is_redirect_op(ts[0]) {
        Some(0int)
    } else {
        match first_op_index(ts.drop_first()) {
            Some(i) => Some(i + 1),
            None => None,
        }
    }
}

/// An operator at `i` with none before it is the leftmost one.
pub proof fn lemma_first_op_found(ts: Seq<Seq<char>>, i: int)
    requires
        0 <= i < ts.len(),
        is_redirect_op(ts[i]),
        forall|j: int| 0 <= j < i ==> !is_redirect_op(#[trigger] ts[j]),
    ensures
        first_op_index(ts) == Some(i),
    decreases ts.len(),
{
    if i == 0 {
    } else {
        assert(!is_redirect_op(ts[0]));
        assert(forall|j: int|
            0 <= j < i - 1 ==> !is_redirect_op(#[trigger] ts.drop_first()[j]));
        lemma_first_op_found(ts.drop_first(), i - 1);
    }
}

/// Words without any operator have no leftmost one.
pub proof fn lemma_first_op_none(ts: Seq<Seq<char>>)
    requires
        forall|j: int| 0 <= j < ts.len() ==> !is_redirect_op(#[trigger] ts[j]),
    ensures
        first_op_index(ts) is None,
    decreases ts.len(),
{
    if ts.len() == 0 {
    } else {
        assert(forall|j: int|
            0 <= j < ts.drop_first().len() ==> !is_redirect_op(#[trigger] ts.drop_first()[j]));
        lemma_first_op_none(ts.drop_first());
    }
}

/// The leftmost operator points at an operator word, with none before it.
pub proof fn lemma_first_op_is_leftmost(ts: Seq<Seq<char>>)
    ensures
        match first_op_index(ts) {
            Some(i) => 0 <= i < ts.len() && is_redirect_op(ts[i]) && forall|j: int|
                0 <= j < i ==> !is_redirect_op(#[trigger] ts[j]),
            None => forall|j: int| 0 <= j < ts.len() ==> !is_redirect_op(#[trigger] ts[j]),
        },
    decreases ts.len(),
{
    if ts.len() == 0 {
    } else if is_redirect_op(ts[0]) {
    } else {
        lemma_first_op_is_leftmost(ts.drop_first());
        assert(forall|j: int| 1 <= j < ts.len() ==> #[trigger] ts[j] == ts.drop_first()[j - 1]);
    }
}

/// Removes the leftmost redirection operator and its destination path from
/// the words of a line and returns the directive they form; reports when no
/// operator occurs, or when the operator ends the line and the line must be
/// rejected.
pub fn check_extract_redirection(input_split: &mut Vec<String>) -> (r: Result<
    Option<Redirection>,
    RedirectionError,
>)
    ensures
        ({
            let ts = old(input_split).deep_view();
            match first_op_index(ts) {
                None => r == Ok::<Option<Redirection>, RedirectionError>(None)
                    && final(input_split)@ == old(input_split)@,
                Some(pos) => {
                    if pos + 1 < ts.len() {
                        &&& r matches Ok(d_opt)
                        &&& d_opt == Some(directive_for(ts[pos], old(input_split)@[pos + 1]))
                        &&& final(input_split)@ == old(input_split)@.remove(pos + 1).remove(pos)
                    } else {
                        &&& r == Err::<Option<Redirection>, RedirectionError>(
                            RedirectionError::MissingTarget,
                        )
                        &&& final(input_split)@ == old(input_split)@
                    }
                },
            }
        }),
{
    let ghost ts = old(input_split).deep_view();
    let mut pos: usize = 0;
    let mut found = false;
    while !found && pos < input_split.len()
        invariant
            input_split@ == old(input_split)@,
            ts == input_split.deep_view(),
            pos <= input_split@.len(),
            forall|j: int| 0 <= j < pos ==> !is_redirect_op(#[trigger] ts[j]),
            found ==> pos < input_split@.len() && is_redirect_op(ts[pos as int]),
        decreases input_split@.len() - pos + (if found {
            0int
        } else {
            1int
        }),
    {
        proof {
            assert(ts[pos as int] == input_split@[pos as int]@);
        }
        if redirect_op(input_split[pos].as_str()) {
            found = true;
        } else {
            pos += 1;
        }
    }
    if found {
        proof {
            lemma_first_op_found(ts, pos as int);
        }
        let n = input_split.len();
        if pos + 1 < n {
            let path = input_split[pos + 1].clone();
            let d = {
                let op = input_split[pos].as_str();
                if str_eq(op, ">") || str_eq(op, "1>") {
                    Redirection::StdoutWrite { path }
                } else if str_eq(op, ">>") || str_eq(op, "1>>") {
                    Redirection::StdoutAppend { path }
                } else if str_eq(op, "2>") {
                    Redirection::StderrWrite { path }
                } else {
                    Redirection::StderrAppend { path }
                }
            };
            input_split.remove(pos + 1);
            input_split.remove(pos);
            Ok(Some(d))
        } else {
            Err(RedirectionError::MissingTarget)
        }
    } else {
        proof {
            lemma_first_op_none(ts);
        }
        Ok(None)
    }
}

} // verus!
