//! Command specifications: how a configured invocation string is parsed
//! into a program with arguments, or falls back to a shell line.

use vstd::prelude::*;
use vstd::string::StrSliceExecFns;

use crate::text::{find_char, first_index_of, split_whitespace, split_whitespace_str};

verus! {

/// What one configured invocation runs: either a program with its
/// arguments, or a whole line handed to the system shell (`sh -c`).
#[derive(Debug, Clone)]
pub enum CommandSpec {
    /// A program that exists on the local filesystem, with its arguments.
    Program { program: String, args: Vec<String> },
    /// A line for the system shell, kept exactly as configured.
    Shell { line: String },
}

/// The mathematical value of a [`CommandSpec`].
pub enum CommandSpecView {
    Program { program: Seq<char>, args: Seq<Seq<char>> },
    Shell { line: Seq<char> },
}

impl View for CommandSpec {
    type V = CommandSpecView;

    open spec fn view(&self) -> CommandSpecView {
        match self {
            CommandSpec::Program { program, args } => CommandSpecView::Program {
                program: program@,
                args: args@.map_values(|a: String| a@),
            },
            CommandSpec::Shell { line } => CommandSpecView::Shell { line: line@ },
        }
    }
}

/// The text before the first space of an invocation string: the candidate
/// program name the local filesystem is asked about.
pub open spec fn spec_first_token(s: Seq<char>) -> Seq<char> {
    match first_index_of(s, ' ') {
        Some(i) => s.take(i),
        None => s,
    }
}

/// The candidate program name of an invocation string.
pub fn first_token(input: &str) -> (r: String)
    ensures
        r@ == spec_first_token(input@),
{
    match find_char(input, ' ') {
        Some(i) => {
            proof {
                assert(input@.subrange(0, i as int) =~= input@.take(i as int));
            }
            input.substring_char(0, i).to_owned()
        },
        None => input.to_owned(),
    }
}

/// What parsing an invocation string yields, given whether its first token
/// names a file that exists and is executable on the local filesystem: if
/// it does, the first token is the program and the remainder, split on
/// white space, its arguments; otherwise the whole untouched string is one
/// shell line.
pub open spec fn spec_parse_command(input: Seq<char>, first_token_executable: bool) -> CommandSpecView {
    if first_token_executable {
        match first_index_of(input, ' ') {
            Some(i) => CommandSpecView::Program {
                program: input.take(i),
                args: split_whitespace(input.skip(i + 1)),
            },
            None => CommandSpecView::Program { program: input, args: Seq::empty() },
        }
    } else {
        CommandSpecView::Shell { line: input }
    }
}

/// Parses one configured invocation string.
///
/// `first_token_executable` answers, for [`first_token`] of this input,
/// whether that token names an existing executable file on the local
/// filesystem; the caller settles it there, since only the caller can
/// reach the filesystem. The check is made against the local filesystem
/// even for commands that will run remotely.
pub fn parse_command(input: &str, first_token_executable: bool) -> (r: CommandSpec)
    ensures
        r@ == spec_parse_command(input@, first_token_executable),
{
    if first_token_executable {
        match find_char(input, ' ') {
            Some(i) => {
                let n: usize = input.unicode_len();
                let program: String = input.substring_char(0, i).to_owned();
                let args: Vec<String> = split_whitespace_str(input.substring_char(i + 1, n));
                proof {
                    assert(input@.subrange(0, i as int) =~= input@.take(i as int));
                    assert(input@.subrange(i + 1, n as int) =~= input@.skip(i + 1));
                }
                CommandSpec::Program { program, args }
            },
            None => {
                let program: String = input.to_owned();
                proof {
                    assert(Seq::<String>::empty().map_values(|a: String| a@) =~= Seq::<
                        Seq<char>,
                    >::empty());
                }
                CommandSpec::Program { program, args: Vec::new() }
            },
        }
    } else {
        CommandSpec::Shell { line: input.to_owned() }
    }
}

} // verus!
