//! Core of an interactive command interpreter: quote-aware tokenization of an
//! input line, extraction of stream-redirection operators, classification of
//! the leading word as a builtin or an external program, ordered search-path
//! resolution, and routing of captured output to the console or to files.
//!
//! Everything here is pure decision logic over plain values; reading input,
//! touching the file system, and spawning processes are left to the caller.

pub mod builtins;
pub mod input_command;
pub mod redirection;
pub mod resolver;
pub mod router;
pub mod shell;
pub mod text;
pub mod tokenizer;
