use code_smore::command::{command_name_of, get_command_help, parse_command, BotCommand};
use code_smore::morse::{code_to_text, encode_morse, morse_to_tones, text_to_morse, Tone};
use code_smore::runs::binary_signal_to_morse;

fn on(ms: u32) -> Tone {
    Tone { on: true, duration_ms: ms }
}

fn off(ms: u32) -> Tone {
    Tone { on: false, duration_ms: ms }
}

#[test]
fn written_morse_to_tones() {
    assert_eq!(
        morse_to_tones(".- /", 60),
        vec![on(60), off(60), on(180), off(60), off(180), off(60), off(420), off(60)]
    );
    assert_eq!(morse_to_tones("", 60), vec![]);
    assert_eq!(morse_to_tones("x", 5), vec![off(5)]);
}

#[test]
fn text_to_tones() {
    assert_eq!(encode_morse("ET", 10), vec![on(10), off(10), off(30), off(10), on(30), off(10)]);
    assert_eq!(
        encode_morse("e t", 10),
        vec![
            on(10),
            off(10),
            off(30),
            off(10),
            off(70),
            off(10),
            off(30),
            off(10),
            on(30),
            off(10),
        ]
    );
}

#[test]
fn written_morse_to_text() {
    assert_eq!(code_to_text("... --- ..."), "SOS");
    assert_eq!(code_to_text(".... ..   .-- --- .-. .-.. -.."), "HI WORLD");
    assert_eq!(code_to_text(".- / -..."), "A B");
    assert_eq!(code_to_text("... ....... ..."), "SS");
    assert_eq!(code_to_text(""), "");
}

#[test]
fn binary_signal_marks() {
    let t = true;
    let f = false;
    assert_eq!(binary_signal_to_morse(&vec![t, f, f, f, t, f, f, f, t, t, t, f, f, f]), ".|.|-|");
    assert_eq!(binary_signal_to_morse(&vec![t, t, t, f, t, f, f, f, f, t, t, t]), "-|-|-");
    assert_eq!(binary_signal_to_morse(&vec![f, f]), "|");
    assert_eq!(binary_signal_to_morse(&vec![]), "");
}

#[test]
fn commands_are_parsed() {
    assert_eq!(parse_command("!status"), Some((BotCommand::Status, vec![])));
    assert_eq!(
        parse_command("!help me  now"),
        Some((BotCommand::Help, vec!["me".to_string(), "now".to_string()]))
    );
    assert_eq!(parse_command("! morse-disable"), Some((BotCommand::MorseDisable, vec![])));
    assert_eq!(parse_command("!morse-enable"), Some((BotCommand::MorseEnable, vec![])));
    assert_eq!(parse_command("status"), None);
    assert_eq!(parse_command("!"), None);
    assert_eq!(parse_command("!   "), None);
    assert_eq!(parse_command("!Status"), None);
    assert_eq!(parse_command(""), None);
}

#[test]
fn command_names_and_help() {
    assert_eq!(command_name_of(BotCommand::MorseEnable), "morse-enable");
    assert_eq!(command_name_of(BotCommand::MorseDisable), "morse-disable");
    assert_eq!(get_command_help(&BotCommand::Help), "Display this help message.");
    assert_eq!(get_command_help(&BotCommand::Status), "Display the current status of Morse processing.");
}

#[test]
fn double_spaces_are_halved_before_keying() {
    assert_eq!(text_to_morse("a ~ b"), ".- /  / -...");
    assert_eq!(encode_morse("a ~ b", 1), morse_to_tones(".- / / -...", 1));
}
