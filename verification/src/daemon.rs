//! The protocol between a running switcher and the short-lived processes
//! that send it commands: what a request says, how it is answered, and
//! when an answer counts as an acknowledgement. Sending and receiving
//! the bytes is the caller's part.

use vstd::prelude::*;
use vstd::string::StringExecFns;
use vstd::utf8::{decode_utf8, valid_utf8};
use crate::text::{has_prefix, starts_with, str_eq, str_from_utf8, strip_prefix, trim, trimmed};

verus! {

/// What a client can ask the running switcher to do.
#[derive(Debug, Clone, Copy, PartialEq, Eq, Structural)]
pub enum Command {
    Show,
    ShowReverse,
    Kill,
}

/// What the listener makes of the bytes that a client sent.
#[derive(Debug, Clone, Copy, PartialEq, Eq)]
pub enum ReadResult {
    /// A command to carry out and to acknowledge.
    Command(Command),
    /// A request that is answered by the acknowledgement alone.
    Handled,
    /// Text that names no command.
    Fallback,
    /// Bytes that are no text, with the reason.
    Error(&'static str),
    /// Nothing was sent.
    Ignore,
}

/// A message that a client sends.
#[derive(Debug, Clone, Copy, PartialEq, Eq, Structural)]
pub enum Request {
    Show,
    ShowReverse,
    Kill,
    Ping,
}

impl Request {
    /// The text of the message.
    pub fn message(&self) -> (text: &'static str)
        ensures
            text@ == match *self {
                Request::Show => "show"@,
                Request::ShowReverse => "show-reverse"@,
                Request::Kill => "kill"@,
                Request::Ping => "ping"@,
            },
    {
        match self {
            Request::Show => "show",
            Request::ShowReverse => "show-reverse",
            Request::Kill => "kill",
            Request::Ping => "ping",
        }
    }

    /// Whether the client waits for the listener's answer.
    pub fn expects_reply(&self) -> (waits: bool)
        ensures
            waits == (*self == Request::Kill || *self == Request::Ping),
    {
        match self {
            Request::Show => false,
            Request::ShowReverse => false,
            Request::Kill => true,
            Request::Ping => true,
        }
    }
}

/// What a request's text asks for, once the white space around it and a
/// leading `action:` are gone.
pub open spec fn named_command(cmd: Seq<char>) -> ReadResult {
    if cmd == "ping"@ {
        ReadResult::Handled
    } else if cmd == "show"@ || cmd == "open"@ {
        ReadResult::Command(Command::Show)
    } else if cmd == "show-reverse"@ || cmd == "open-reverse"@ {
        ReadResult::Command(Command::ShowReverse)
    } else if cmd == "kill"@ {
        ReadResult::Command(Command::Kill)
    } else {
        ReadResult::Fallback
    }
}

/// The request's text without a leading `action:`.
pub open spec fn without_action_prefix(raw: Seq<char>) -> Seq<char> {
    if has_prefix(raw, "action:"@) {
        raw.subrange("action:"@.len() as int, raw.len() as int)
    } else {
        raw
    }
}

/// What the listener makes of the bytes of a request.
pub open spec fn parsed(bytes: Seq<u8>) -> ReadResult {
    if bytes.len() == 0 {
        ReadResult::Ignore
    } else if !valid_utf8(bytes) {
        ReadResult::Error("invalid utf8")
    } else {
        named_command(without_action_prefix(trimmed(decode_utf8(bytes))))
    }
}

/// Reads a request.
pub fn parse_command(bytes: &[u8]) -> (result: ReadResult)
    ensures
        result == parsed(bytes@),
{
    if bytes.len() == 0 {
        return ReadResult::Ignore;
    }
    let raw = match str_from_utf8(bytes) {
        Some(text) => trim(text),
        None => {
            return ReadResult::Error("invalid utf8");
        },
    };
    let cmd = match strip_prefix(raw, "action:") {
        Some(rest) => rest,
        None => raw,
    };
    if str_eq(cmd, "ping") {
        ReadResult::Handled
    } else if str_eq(cmd, "show") || str_eq(cmd, "open") {
        ReadResult::Command(Command::Show)
    } else if str_eq(cmd, "show-reverse") || str_eq(cmd, "open-reverse") {
        ReadResult::Command(Command::ShowReverse)
    } else if str_eq(cmd, "kill") {
        ReadResult::Command(Command::Kill)
    } else {
        ReadResult::Fallback
    }
}

/// The answer to a request, if it gets one.
pub open spec fn reply_text(result: ReadResult) -> Option<Seq<char>> {
    match result {
        ReadResult::Command(_) => Some("handled\n"@),
        ReadResult::Handled => Some("handled\n"@),
        ReadResult::Fallback => Some("fallback\n"@),
        ReadResult::Error(reason) => Some("error "@ + reason@ + "\n"@),
        ReadResult::Ignore => None,
    }
}

/// Writes the answer to a request.
pub fn reply_to(result: &ReadResult) -> (reply: Option<String>)
    ensures
        match reply {
            Some(text) => reply_text(*result) == Some(text@),
            None => reply_text(*result) is None,
        },
{
    match result {
        ReadResult::Command(_) => Some("handled\n".to_owned()),
        ReadResult::Handled => Some("handled\n".to_owned()),
        ReadResult::Fallback => Some("fallback\n".to_owned()),
        ReadResult::Error(reason) => {
            let mut text = "error ".to_owned();
            text.append(reason);
            text.append("\n");
            Some(text)
        },
        ReadResult::Ignore => None,
    }
}

/// The command that the listener hands on, if the request holds one.
pub fn command_of(result: &ReadResult) -> (command: Option<Command>)
    ensures
        command == match *result {
            ReadResult::Command(c) => Some(c),
            _ => None,
        },
{
    match result {
        ReadResult::Command(c) => Some(*c),
        _ => None,
    }
}

/// An answer acknowledges a request when it is text that, white space
/// aside, begins with `handled`.
pub open spec fn acknowledges(reply: Seq<u8>) -> bool {
    &&& reply.len() > 0
    &&& valid_utf8(reply)
    &&& has_prefix(trimmed(decode_utf8(reply)), "handled"@)
}

/// Whether the listener's answer acknowledges the request.
pub fn reply_is_handled(reply: &[u8]) -> (handled: bool)
    ensures
        handled == acknowledges(reply@),
{
    if reply.len() == 0 {
        return false;
    }
    match str_from_utf8(reply) {
        Some(text) => starts_with(trim(text), "handled"),
        None => false,
    }
}

} // verus!
