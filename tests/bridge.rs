use code_smore::bridge::{handle_chat_message, help_message, relay_line, ChatAction, RelayAction};

fn reply(a: ChatAction) -> Option<String> {
    match a {
        ChatAction::Reply(s) => Some(s),
        _ => None,
    }
}

#[test]
fn commands_switch_processing() {
    let mut enabled = true;
    let r = handle_chat_message(&mut enabled, "!morse-disable");
    assert_eq!(reply(r), Some("Morse processing has been disabled.".to_string()));
    assert!(!enabled);
    let r = handle_chat_message(&mut enabled, "!status");
    assert_eq!(reply(r), Some("Morse processing is currently disabled.".to_string()));
    assert!(matches!(handle_chat_message(&mut enabled, "hello"), ChatAction::Ignore));
    let r = handle_chat_message(&mut enabled, "!morse-enable now");
    assert_eq!(reply(r), Some("Morse processing has been enabled.".to_string()));
    assert!(enabled);
    match handle_chat_message(&mut enabled, "hello there") {
        ChatAction::Forward(s) => assert_eq!(s, "hello there"),
        _ => panic!("expected the message to be keyed"),
    }
}

#[test]
fn unknown_commands_are_answered() {
    let mut enabled = false;
    let r = handle_chat_message(&mut enabled, "!bogus");
    assert_eq!(reply(r), Some("Unknown command. Use `!help` to see available commands.".to_string()));
    assert!(!enabled);
}

#[test]
fn help_lists_every_command() {
    let expected = "Available commands:\n!morse-enable: Enable Morse processing.\n!morse-disable: Disable Morse processing.\n!status: Display the current status of Morse processing.\n!help: Display this help message.";
    assert_eq!(help_message(), expected);
    let mut enabled = true;
    assert_eq!(reply(handle_chat_message(&mut enabled, "!help")), Some(expected.to_string()));
}

#[test]
fn receiver_lines_are_relayed() {
    let mut posted = false;
    assert!(matches!(relay_line(&mut posted, "\n"), RelayAction::Announce));
    assert!(posted);
    assert!(matches!(relay_line(&mut posted, "\n"), RelayAction::Edit(ref s) if s == "\n"));
    assert!(!posted);
    assert!(matches!(relay_line(&mut posted, "CQ DE AI7XP\n"), RelayAction::Post(ref s) if s == "CQ DE AI7XP\n"));
    assert!(matches!(relay_line(&mut posted, "partial"), RelayAction::Skip));
    assert!(!posted);
}
