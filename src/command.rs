//! Commands that a chat user gives the bridge, such as `!status`.
use vstd::prelude::*;

use crate::text::{chars_of, same_chars, split_words, string_of, words};

verus! {

/// A command to the chat bridge.
#[derive(Clone, Copy, Debug, PartialEq, Eq, Structural)]
pub enum BotCommand {
    MorseEnable,
    MorseDisable,
    Status,
    Help,
}

/// The name by which a command is given after the `!`.
pub open spec fn command_name(c: BotCommand) -> Seq<char> {
    match c {
        BotCommand::MorseEnable => seq!['m', 'o', 'r', 's', 'e', '-', 'e', 'n', 'a', 'b', 'l', 'e'],
        BotCommand::MorseDisable => seq!['m', 'o', 'r', 's', 'e', '-', 'd', 'i', 's', 'a', 'b', 'l', 'e'],
        BotCommand::Status => seq!['s', 't', 'a', 't', 'u', 's'],
        BotCommand::Help => seq!['h', 'e', 'l', 'p'],
    }
}

/// The command with the given name, if any; names are matched exactly.
pub open spec fn command_named(name: Seq<char>) -> Option<BotCommand> {
    if name == command_name(BotCommand::MorseEnable) {
        Some(BotCommand::MorseEnable)
    } else if name == command_name(BotCommand::MorseDisable) {
        Some(BotCommand::MorseDisable)
    } else if name == command_name(BotCommand::Status) {
        Some(BotCommand::Status)
    } else if name == command_name(BotCommand::Help) {
        Some(BotCommand::Help)
    } else {
        None
    }
}

/// What a chat message commands: a message that starts with `!` and whose
/// first word after it names a command gives that command and the words
/// that follow as its arguments.
pub open spec fn command_of(message: Seq<char>) -> Option<(BotCommand, Seq<Seq<char>>)> {
    if message.len() == 0 || message[0] != '!' {
        None
    } else {
        let ws = words(message.drop_first());
        if ws.len() == 0 {
            None
        } else {
            match command_named(ws[0]) {
                Some(c) => Some((c, ws.drop_first())),
                None => None,
            }
        }
    }
}

/// The help line for a command.
pub open spec fn help_of(c: BotCommand) -> &'static str {
    match c {
        BotCommand::MorseEnable => "Enable Morse processing.",
        BotCommand::MorseDisable => "Disable Morse processing.",
        BotCommand::Status => "Display the current status of Morse processing.",
        BotCommand::Help => "Display this help message.",
    }
}

/// The help line for a command.
pub fn get_command_help(command: &BotCommand) -> (r: &'static str)
    ensures
        r == help_of(*command),
{
    match command {
        BotCommand::MorseEnable => "Enable Morse processing.",
        BotCommand::MorseDisable => "Disable Morse processing.",
        BotCommand::Status => "Display the current status of Morse processing.",
        BotCommand::Help => "Display this help message.",
    }
}

fn name_chars(c: BotCommand) -> (r: Vec<char>)
    ensures
        r@ == command_name(c),
{
    match c {
        BotCommand::MorseEnable => vec!['m', 'o', 'r', 's', 'e', '-', 'e', 'n', 'a', 'b', 'l', 'e'],
        BotCommand::MorseDisable => vec!['m', 'o', 'r', 's', 'e', '-', 'd', 'i', 's', 'a', 'b', 'l', 'e'],
        BotCommand::Status => vec!['s', 't', 'a', 't', 'u', 's'],
        BotCommand::Help => vec!['h', 'e', 'l', 'p'],
    }
}

/// The name of a command, as it is given after the `!`.
pub fn command_name_of(c: BotCommand) -> (r: String)
    ensures
        r@ == command_name(c),
{
    string_of(&name_chars(c))
}

fn command_from_name(name: &Vec<char>) -> (r: Option<BotCommand>)
    ensures
        r == command_named(name@),
{
    if same_chars(name, &name_chars(BotCommand::MorseEnable)) {
        Some(BotCommand::MorseEnable)
    } else if same_chars(name, &name_chars(BotCommand::MorseDisable)) {
        Some(BotCommand::MorseDisable)
    } else if same_chars(name, &name_chars(BotCommand::Status)) {
        Some(BotCommand::Status)
    } else if same_chars(name, &name_chars(BotCommand::Help)) {
        Some(BotCommand::Help)
    } else {
        None
    }
}

/// Reads a chat message as a command: `!name arg...`. Gives `None` for a
/// message that does not start with `!`, has no word after it, or names no
/// command.
pub fn parse_command(message: &str) -> (r: Option<(BotCommand, Vec<String>)>)
    ensures
        r is None <==> command_of(message@) is None,
        r is Some ==> {
            let (c, args) = command_of(message@)->0;
            let (rc, rargs) = r->0;
            &&& rc == c
            &&& rargs.len() == args.len()
            &&& forall|i: int| 0 <= i < args.len() ==> (#[trigger] rargs@[i])@ == args[i]
        },
{
    let chars = chars_of(message);
    if chars.len() == 0 || chars[0] != '!' {
        return None;
    }
    let mut rest: Vec<char> = Vec::new();
    let mut i: usize = 1;
    while i < chars.len()
        invariant
            1 <= i <= chars.len(),
            rest@ == chars@.subrange(1, i as int),
        decreases chars.len() - i,
    {
        rest.push(chars[i]);
        i = i + 1;
        assert(rest@ == chars@.subrange(1, i as int));
    }
    assert(rest@ == chars@.drop_first());
    let ws = split_words(&rest);
    let ghost wv = ws@.map_values(|w: Vec<char>| w@);
    if ws.len() == 0 {
        return None;
    }
    let command = match command_from_name(&ws[0]) {
        Some(c) => c,
        None => {
            return None;
        },
    };
    let mut args: Vec<String> = Vec::new();
    let mut k: usize = 1;
    while k < ws.len()
        invariant
            1 <= k <= ws.len(),
            wv == ws@.map_values(|w: Vec<char>| w@),
            args.len() == k - 1,
            forall|j: int| 0 <= j < args.len() ==> (#[trigger] args@[j])@ == wv[j + 1],
        decreases ws.len() - k,
    {
        let a = string_of(&ws[k]);
        args.push(a);
        k = k + 1;
    }
    assert(wv.drop_first().len() == args.len());
    Some((command, args))
}

} // verus!
