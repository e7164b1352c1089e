//! The result of one submitted command.

use vstd::prelude::*;
use vstd::string::StringExecFns;

verus! {

/// What a caller gets back for one command: the rendered value, or a one-line
/// description of what went wrong.
pub type ExecutionResult = Result<String, String>;

/// An `ExecutionResult` as plain text.
pub type ResultText = Result<Seq<char>, Seq<char>>;

/// The text an `ExecutionResult` carries, with its tag.
pub open spec fn text_of(result: ExecutionResult) -> ResultText {
    match result {
        Ok(value) => Ok(value@),
        Err(description) => Err(description@),
    }
}

/// The error text of a command that is not well formed.
pub open spec fn parse_failure_text(description: Seq<char>) -> Seq<char> {
    "parse error: "@ + description
}

/// The error text of a caller that never won access to the worker.
pub open spec fn access_timeout_text() -> Seq<char> {
    "timeout waiting for interpreter lock"@
}

/// The result for a command whose text the parser refused.
pub fn parse_failure(description: &str) -> (result: ExecutionResult)
    ensures
        text_of(result) == Err::<Seq<char>, Seq<char>>(parse_failure_text(description@)),
{
    Err(String::from_str("parse error: ").concat(description))
}

/// The result for a caller whose wait for access ran out.
pub fn access_timeout() -> (result: ExecutionResult)
    ensures
        text_of(result) == Err::<Seq<char>, Seq<char>>(access_timeout_text()),
{
    Err(String::from_str("timeout waiting for interpreter lock"))
}

} // verus!
