use code_smore::message::{elapsed_timestamp, log_lines, message_content, preview_content, Message};
use code_smore::morse::{morse_code_of, text_to_morse, wpm_to_dot_length};

#[test]
fn test_text_to_morse() {
    assert_eq!(text_to_morse("SOS"), "... --- ...");
    assert_eq!(
        text_to_morse("Hello   World 123. How are you?"),
        ".... . .-.. .-.. --- / .-- --- .-. .-.. -.. / .---- ..--- ...-- .-.-.- / .... --- .-- / .- .-. . / -.-- --- ..- ..--.."
    );
}

#[test]
fn text_to_morse_of_nothing_is_empty() {
    assert_eq!(text_to_morse(""), "");
    assert_eq!(text_to_morse(" \t\n "), "");
}

#[test]
fn text_to_morse_keeps_words_without_codes() {
    assert_eq!(text_to_morse("a ~ b"), ".- /  / -...");
    assert_eq!(text_to_morse("e#t"), ". -");
}

#[test]
fn morse_code_lookup_ignores_case() {
    assert_eq!(morse_code_of('q'), Some(vec!['-', '-', '.', '-']));
    assert_eq!(morse_code_of('Q'), Some(vec!['-', '-', '.', '-']));
    assert_eq!(morse_code_of('~'), None);
}

#[test]
fn dot_length_from_words_per_minute() {
    assert_eq!(wpm_to_dot_length(20), 60);
    assert_eq!(wpm_to_dot_length(1), 1200);
    assert_eq!(wpm_to_dot_length(13), 92);
}

#[test]
fn message_content_is_normalized() {
    assert_eq!(message_content("  E \t\n T  ", false), Some("E T".to_string()));
    assert_eq!(message_content("SOS", true), Some("... --- ...".to_string()));
    assert_eq!(message_content("   ", false), None);
    assert_eq!(message_content("", true), None);
}

#[test]
fn preview_is_normalized() {
    assert_eq!(preview_content("PARIS  "), Some("PARIS".to_string()));
    assert_eq!(preview_content(" A\u{a0}\u{a0}B "), Some("A B".to_string()));
    assert_eq!(preview_content("  "), None);
}

#[test]
fn timestamps_from_the_sample_clock() {
    assert_eq!(elapsed_timestamp(0, 8000), "0.000 sec");
    assert_eq!(elapsed_timestamp(44100, 44100), "1.000 sec");
    assert_eq!(elapsed_timestamp(66150, 44100), "1.500 sec");
    assert_eq!(elapsed_timestamp(56832, 44100), "1.289 sec");
    assert_eq!(elapsed_timestamp(441_000_000, 44100), "10000.000 sec");
}

#[test]
fn messages_are_laid_out_for_the_terminal() {
    let m = Message::new("1.000 sec".to_string(), "CQ CQ DE AI7XP AI7XP K".to_string());
    assert_eq!(
        log_lines(&m, 30),
        vec!["CQ CQ DE AI7XP AI7XP 1.000 sec".to_string(), "K".to_string(), String::new()]
    );
    let long = Message::new("t".to_string(), "HELLO".to_string());
    assert_eq!(log_lines(&long, 4), vec!["   t".to_string(), "HELLO".to_string(), String::new()]);
}
