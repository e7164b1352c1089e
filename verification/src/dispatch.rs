//! The dispatcher's decisions: which messages carry a command, what the
//! command is, and how a result is written back.

use vstd::prelude::*;
use vstd::string::{StrSliceExecFns, StringExecFns};
use crate::outcome::{text_of, ExecutionResult, ResultText};
use crate::pattern::{all_replaced, capture_first_group, first_group, option_text, replace_every};

verus! {

/// The most characters a reply may hold.
pub const REPLY_LIMIT: usize = 1000;

/// The name of the one channel whose messages are read.
pub open spec fn channel_text() -> Seq<char> {
    "lisp"@
}

/// The message that asks where the sources are.
pub open spec fn source_request_text() -> Seq<char> {
    "\u{a1}source"@
}

/// A command inside a fenced code block: the call word, white space, the
/// opening fence, white space, the command, the closing fence.
pub open spec fn fenced_pattern_text() -> Seq<char> {
    "(?s)\\A(?:\u{a1}cl|oo)\\s+```scheme\\s+(.*)```\\z"@
}

/// A bare command: the call word, white space, the command.
pub open spec fn plain_pattern_text() -> Seq<char> {
    "(?s)\\A(?:\u{a1}cl|oo)\\s+(.*)\\z"@
}

/// The start of every line.
pub open spec fn line_start_pattern_text() -> Seq<char> {
    "(?m)^"@
}

/// What is put before every quoted line.
pub open spec fn quote_mark_text() -> Seq<char> {
    "> "@
}

/// The command a message carries, the fenced form first.
pub open spec fn command_of(content: Seq<char>) -> Option<Seq<char>> {
    chosen(first_group(fenced_pattern_text(), content), first_group(plain_pattern_text(), content))
}

/// The fenced capture where there is one, else the plain one.
pub open spec fn chosen(fenced: Option<Seq<char>>, plain: Option<Seq<char>>) -> Option<
    Seq<char>,
> {
    match fenced {
        Some(command) => Some(command),
        None => plain,
    }
}

/// A message with the quote mark before each of its lines.
pub open spec fn quoted_text(content: Seq<char>) -> Option<Seq<char>> {
    all_replaced(line_start_pattern_text(), content, quote_mark_text())
}

/// The reply to a quoted message: a value in back quotes, or an error
/// behind its label, on a line of its own below the quotation.
pub open spec fn rendered_text(quoted: Seq<char>, result: ResultText) -> Seq<char> {
    match result {
        Ok(value) => quoted + "\n`"@ + value + "`"@,
        Err(description) => quoted + "\n*Error*: "@ + description,
    }
}

/// A reply cut down to the limit.
pub open spec fn limited_text(response: Seq<char>) -> Seq<char> {
    if response.len() <= REPLY_LIMIT {
        response
    } else {
        response.subrange(0, REPLY_LIMIT as int)
    }
}

/// The whole reply to a message and its result, where the message can be
/// quoted.
pub open spec fn reply_text(content: Seq<char>, result: ResultText) -> Option<Seq<char>> {
    match quoted_text(content) {
        Some(quoted) => Some(limited_text(rendered_text(quoted, result))),
        None => None,
    }
}

/// Whether two pieces of text are the same.
fn same_text(left: &str, right: &str) -> (same: bool)
    ensures
        same == (left@ == right@),
{
    String::from_str(left) == String::from_str(right)
}

/// Whether a message is read at all: it is in the one channel and no bot
/// wrote it.
pub fn is_eligible(channel_name: Option<&str>, author_is_bot: bool) -> (eligible: bool)
    ensures
        eligible <==> !author_is_bot && (match channel_name {
            Some(name) => name@ == channel_text(),
            None => false,
        }),
{
    match channel_name {
        Some(name) => !author_is_bot && same_text(name, "lisp"),
        None => false,
    }
}

/// Whether a message asks where the sources are.
pub fn is_source_request(content: &str) -> (asked: bool)
    ensures
        asked == (content@ == source_request_text()),
{
    same_text(content, "\u{a1}source")
}

/// Picks between the two captures of a message: the fenced one wins.
pub fn pick_command(fenced: Option<String>, plain: Option<String>) -> (command: Option<String>)
    ensures
        option_text(command) == chosen(option_text(fenced), option_text(plain)),
{
    match fenced {
        Some(command) => Some(command),
        None => plain,
    }
}

/// Extracts the command from a trimmed message, or finds that it carries
/// none.
pub fn extract_command(content: &str) -> (command: Option<String>)
    ensures
        option_text(command) == command_of(content@),
{
    let fenced = capture_first_group(
        "(?s)\\A(?:\u{a1}cl|oo)\\s+```scheme\\s+(.*)```\\z",
        content,
    );
    let plain = capture_first_group("(?s)\\A(?:\u{a1}cl|oo)\\s+(.*)\\z", content);
    pick_command(fenced, plain)
}

/// Puts the quote mark before every line of a message.
pub fn quote(content: &str) -> (quoted: Option<String>)
    ensures
        option_text(quoted) == quoted_text(content@),
{
    replace_every("(?m)^", content, "> ")
}

/// Writes a result below a quoted message.
pub fn render_reply(quoted: &str, result: &ExecutionResult) -> (response: String)
    ensures
        response@ == rendered_text(quoted@, text_of(*result)),
{
    match result {
        Ok(value) => String::from_str(quoted).concat("\n`").concat(value.as_str()).concat("`"),
        Err(description) => String::from_str(quoted).concat("\n*Error*: ").concat(
            description.as_str(),
        ),
    }
}

/// Cuts a reply down to the limit, counted in characters.
pub fn limit_reply(response: &str) -> (limited: String)
    ensures
        limited@ == limited_text(response@),
        limited@.len() <= REPLY_LIMIT,
{
    let length: usize = response.unicode_len();
    if length <= REPLY_LIMIT {
        String::from_str(response)
    } else {
        String::from_str(response.substring_char(0, REPLY_LIMIT))
    }
}

/// The reply to post for a message and the result of its command; `None`
/// where the message could not be quoted.
pub fn reply_for(content: &str, result: &ExecutionResult) -> (reply: Option<String>)
    ensures
        option_text(reply) == reply_text(content@, text_of(*result)),
        reply matches Some(text) ==> text@.len() <= REPLY_LIMIT,
{
    match quote(content) {
        Some(quoted) => {
            let response = render_reply(quoted.as_str(), result);
            Some(limit_reply(response.as_str()))
        },
        None => None,
    }
}

/// A reply never exceeds the limit and is the start of the full response.
pub proof fn lemma_limited_is_prefix(response: Seq<char>)
    ensures
        limited_text(response).len() <= REPLY_LIMIT,
        limited_text(response).len() <= response.len(),
        limited_text(response) == response.subrange(0, limited_text(response).len() as int),
        response.len() <= REPLY_LIMIT ==> limited_text(response) == response,
{
    assert(response.subrange(0, response.len() as int) =~= response);
}

/// A failure is framed unlike a success: below the same quotation no error
/// reply reads as a value reply.
pub proof fn lemma_failure_framed_apart(
    quoted: Seq<char>,
    value: Seq<char>,
    description: Seq<char>,
)
    ensures
        rendered_text(quoted, Ok(value)) != rendered_text(quoted, Err(description)),
{
    reveal_strlit("\n`");
    reveal_strlit("`");
    reveal_strlit("\n*Error*: ");
    let success = rendered_text(quoted, Ok(value));
    let failure = rendered_text(quoted, Err(description));
    assert(success[quoted.len() as int + 1] == '`');
    assert(failure[quoted.len() as int + 1] == '*');
}

} // verus!
