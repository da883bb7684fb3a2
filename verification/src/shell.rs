//! Splitting a pager command string into program and arguments.
//!
//! The splitting itself is done by the `shell_words` crate, which follows
//! POSIX shell word semantics (quoting and escaping honored, no expansions).
//! Its result is a function of the input string alone, so it is named by an
//! uninterpreted spec function and every contract downstream speaks of that
//! name.

use vstd::prelude::*;

verus! {

/// What `shell_words::split` returns for a given input: `Some` of the token
/// sequence on success, `None` where the input is malformed (an unterminated
/// quote or a trailing escape).
pub uninterp spec fn shell_split(s: Seq<char>) -> Option<Seq<Seq<char>>>;

#[verifier::external_type_specification]
#[verifier::external_body]
pub struct ExShellParseError(shell_words::ParseError);

/// A pager command string could not be parsed: the resolution protocol
/// surfaces this to its caller rather than guessing what to run.
#[derive(Clone, Copy, Debug, PartialEq, Eq, Structural)]
pub struct CommandParseError;

/// Relies on `shell_words::split`: POSIX-style word splitting whose result
/// depends on the input string alone; it errs exactly on malformed input.
#[verifier::external_body]
pub(crate) fn split_words(s: &str) -> (r: Result<Vec<String>, shell_words::ParseError>)
    ensures
        match r {
            Ok(v) => shell_split(s@) == Some(v.deep_view()),
            Err(_) => shell_split(s@) is None,
        },
{
    shell_words::split(s)
}

} // verus!
