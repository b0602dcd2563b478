//! The decisions around running an external command: splitting its command
//! line, and turning what it wrote into a result.
use vstd::prelude::*;
use vstd::utf8::{decode_utf8, valid_utf8};
use crate::argparse::{collect_tokens, tokenize};
use crate::text::views;
use crate::error::{WikitError, WikitResult};

verus! {

/// What `{:?}` writes for a list of bytes.
pub uninterp spec fn debug_of_bytes(b: Seq<u8>) -> Seq<char>;

/// Relies on `std::str::from_utf8`: it succeeds exactly on valid UTF-8, and
/// then holds the decoded characters.
#[verifier::external_body]
fn utf8_text(b: &Vec<u8>) -> (r: Option<String>)
    ensures
        r is Some <==> valid_utf8(b@),
        r matches Some(s) ==> s@ == decode_utf8(b@),
{
    std::str::from_utf8(b.as_slice()).ok().map(|s| s.to_string())
}

/// Relies on the `Debug` formatting of `Vec<u8>`: the result depends on the
/// bytes alone.
#[verifier::external_body]
fn bytes_debug(b: &Vec<u8>) -> (r: String)
    ensures
        r@ == debug_of_bytes(b@),
{
    format!("{:?}", b)
}

/// The program (first element) and its arguments for the command line
/// `cmd`; an error when it holds no argument at all.
pub fn split_command(cmd: &str) -> (r: WikitResult<Vec<String>>)
    ensures
        r is Err <==> tokenize(cmd@).len() == 0,
        r matches Ok(v) ==> views(v@) == tokenize(cmd@),
        r matches Err(e) ==> e matches WikitError::Plain(m) && m@ == "Empty command"@,
{
    let args = collect_tokens(cmd);
    if args.len() == 0 {
        Err(WikitError::new("Empty command"))
    } else {
        Ok(args)
    }
}

/// The message reported for a command that exited with a failure status:
/// what it wrote to standard error, or those bytes listed when they are not
/// UTF-8.
pub open spec fn failure_message(stderr: Seq<u8>) -> Seq<char> {
    if valid_utf8(stderr) {
        decode_utf8(stderr)
    } else {
        "command exit with error: "@ + debug_of_bytes(stderr)
    }
}

/// The message reported for a command whose output is not UTF-8.
pub open spec fn undecodable_message(stdout: Seq<u8>) -> Seq<char> {
    "failed to decode output: "@ + debug_of_bytes(stdout)
}

/// The result of a command that ran: its standard output as text when it
/// succeeded, otherwise a plain error with the message above.
pub fn command_output(success: bool, stdout: &Vec<u8>, stderr: &Vec<u8>) -> (r: WikitResult<String>)
    ensures
        r is Ok <==> success && valid_utf8(stdout@),
        r matches Ok(s) ==> s@ == decode_utf8(stdout@),
        r matches Err(e) ==> e matches WikitError::Plain(m) && m@ == if success {
            undecodable_message(stdout@)
        } else {
            failure_message(stderr@)
        },
{
    if !success {
        let msg = match utf8_text(stderr) {
            Some(text) => text,
            None => String::from_str("command exit with error: ").concat(bytes_debug(stderr).as_str()),
        };
        return Err(WikitError::Plain(msg));
    }
    match utf8_text(stdout) {
        Some(text) => Ok(text),
        None => Err(
            WikitError::Plain(
                String::from_str("failed to decode output: ").concat(bytes_debug(stdout).as_str()),
            ),
        ),
    }
}

} // verus!
