//! The decisions of the chat bridge: what to answer a chat message, and how
//! to relay the receiver's output lines into the chat. The chat client runs
//! the actions.
use vstd::prelude::*;

use crate::command::{command_name, command_of, help_of, parse_command, BotCommand, command_name_of, get_command_help};
use crate::text::{append, chars_of, string_of};

verus! {

/// What the bridge does with a chat message.
pub enum ChatAction {
    /// Answer in the room with this text.
    Reply(String),
    /// Key this text on the transmitter.
    Forward(String),
    /// Do nothing.
    Ignore,
}

/// Whether the action answers with exactly `text`.
pub open spec fn replies(r: ChatAction, text: Seq<char>) -> bool {
    match r {
        ChatAction::Reply(s) => s@ == text,
        _ => false,
    }
}

/// Whether the action keys exactly `text`.
pub open spec fn forwards(r: ChatAction, text: Seq<char>) -> bool {
    match r {
        ChatAction::Forward(s) => s@ == text,
        _ => false,
    }
}

/// The help text: one line per command, `!name: help`, after a heading.
pub open spec fn help_text() -> Seq<char> {
    "Available commands:\n"@ + help_line(BotCommand::MorseEnable) + seq!['\n'] + help_line(
        BotCommand::MorseDisable,
    ) + seq!['\n'] + help_line(BotCommand::Status) + seq!['\n'] + help_line(BotCommand::Help)
}

pub open spec fn help_line(c: BotCommand) -> Seq<char> {
    seq!['!'] + command_name(c) + seq![':', ' '] + help_of(c)@
}

fn push_help_line(out: &mut Vec<char>, c: BotCommand)
    ensures
        final(out)@ == old(out)@ + help_line(c),
{
    out.push('!');
    append(out, &chars_of(command_name_of(c).as_str()));
    out.push(':');
    out.push(' ');
    append(out, &chars_of(get_command_help(&c)));
}

/// The answer to `!help`.
pub fn help_message() -> (r: String)
    ensures
        r@ == help_text(),
{
    let mut out = chars_of("Available commands:\n");
    push_help_line(&mut out, BotCommand::MorseEnable);
    out.push('\n');
    push_help_line(&mut out, BotCommand::MorseDisable);
    out.push('\n');
    push_help_line(&mut out, BotCommand::Status);
    out.push('\n');
    push_help_line(&mut out, BotCommand::Help);
    string_of(&out)
}

/// The answer to `!status`.
pub open spec fn status_text(enabled: bool) -> Seq<char> {
    if enabled {
        "Morse processing is currently enabled."@
    } else {
        "Morse processing is currently disabled."@
    }
}

/// Decides what to do with a chat message from someone else, given whether
/// Morse processing is enabled, and updates that flag. A command is carried
/// out and answered; any other message that starts with `!` is answered as
/// an unknown command; otherwise the message is keyed when processing is
/// enabled and ignored when it is not.
pub fn handle_chat_message(morse_enabled: &mut bool, body: &str) -> (r: ChatAction)
    ensures
        match command_of(body@) {
            Some((BotCommand::MorseEnable, _)) => *final(morse_enabled) && replies(
                r,
                "Morse processing has been enabled."@,
            ),
            Some((BotCommand::MorseDisable, _)) => !*final(morse_enabled) && replies(
                r,
                "Morse processing has been disabled."@,
            ),
            Some((BotCommand::Status, _)) => *final(morse_enabled) == *old(morse_enabled) && replies(
                r,
                status_text(*old(morse_enabled)),
            ),
            Some((BotCommand::Help, _)) => *final(morse_enabled) == *old(morse_enabled) && replies(
                r,
                help_text(),
            ),
            None => *final(morse_enabled) == *old(morse_enabled) && if body@.len() > 0 && body@[0]
                == '!' {
                replies(r, "Unknown command. Use `!help` to see available commands."@)
            } else if *old(morse_enabled) {
                forwards(r, body@)
            } else {
                r is Ignore
            },
        },
{
    match parse_command(body) {
        Some((command, _args)) => match command {
            BotCommand::MorseEnable => {
                *morse_enabled = true;
                ChatAction::Reply(string_of(&chars_of("Morse processing has been enabled.")))
            },
            BotCommand::MorseDisable => {
                *morse_enabled = false;
                ChatAction::Reply(string_of(&chars_of("Morse processing has been disabled.")))
            },
            BotCommand::Status => {
                if *morse_enabled {
                    ChatAction::Reply(string_of(&chars_of("Morse processing is currently enabled.")))
                } else {
                    ChatAction::Reply(string_of(&chars_of("Morse processing is currently disabled.")))
                }
            },
            BotCommand::Help => ChatAction::Reply(help_message()),
        },
        None => {
            let chars = chars_of(body);
            if chars.len() > 0 && chars[0] == '!' {
                ChatAction::Reply(
                    string_of(&chars_of("Unknown command. Use `!help` to see available commands.")),
                )
            } else if *morse_enabled {
                ChatAction::Forward(string_of(&chars))
            } else {
                ChatAction::Ignore
            }
        },
    }
}

/// What the bridge does with a line that the receiver printed.
pub enum RelayAction {
    /// Post the notice that a message is being received.
    Announce,
    /// Replace the posted notice with this message.
    Edit(String),
    /// Post this message.
    Post(String),
    /// Do nothing.
    Skip,
}

/// Whether the action replaces the notice with exactly `text`.
pub open spec fn edits(r: RelayAction, text: Seq<char>) -> bool {
    match r {
        RelayAction::Edit(s) => s@ == text,
        _ => false,
    }
}

/// Whether the action posts exactly `text`.
pub open spec fn posts(r: RelayAction, text: Seq<char>) -> bool {
    match r {
        RelayAction::Post(s) => s@ == text,
        _ => false,
    }
}

/// Decides how to relay a line of the receiver's output, given whether a
/// notice of a message being received is posted and waiting for its text.
/// An empty line starts a message and is announced once; a complete line
/// replaces the notice, or is posted when there is none.
pub fn relay_line(notice_posted: &mut bool, line: &str) -> (r: RelayAction)
    ensures
        line@ == seq!['\n'] && !*old(notice_posted) ==> r is Announce && *final(notice_posted),
        !(line@ == seq!['\n'] && !*old(notice_posted)) && line@.len() > 0 && line@.last() == '\n'
            ==> !*final(notice_posted) && if *old(notice_posted) {
            edits(r, line@)
        } else {
            posts(r, line@)
        },
        !(line@ == seq!['\n'] && !*old(notice_posted)) && !(line@.len() > 0 && line@.last()
            == '\n') ==> r is Skip && *final(notice_posted) == *old(notice_posted),
{
    let chars = chars_of(line);
    let n = chars.len();
    if n == 1 && chars[0] == '\n' && !*notice_posted {
        assert(chars@ == seq!['\n']);
        *notice_posted = true;
        RelayAction::Announce
    } else if n > 0 && chars[n - 1] == '\n' {
        let was = *notice_posted;
        *notice_posted = false;
        if was {
            RelayAction::Edit(string_of(&chars))
        } else {
            RelayAction::Post(string_of(&chars))
        }
    } else {
        RelayAction::Skip
    }
}

} // verus!
