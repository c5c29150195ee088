use code_smore::transcript::{first_visible_line, preview_event, Transcript};

#[test]
fn previews_are_marked() {
    assert_eq!(preview_event("AI7XP T"), ":typing:AI7XP T");
    assert_eq!(preview_event(""), ":typing:");
}

#[test]
fn previews_and_finished_messages() {
    let mut t = Transcript::new();
    t.receive(":typing:AI7XP", "12:00:00 UTC");
    assert_eq!(t.preview, Some("AI7XP".to_string()));
    assert!(t.log.is_empty());
    t.receive("AI7XP TEST", "12:00:01 UTC");
    assert_eq!(t.preview, None);
    assert_eq!(t.log, vec!["[12:00:01 UTC] > AI7XP TEST".to_string()]);
    t.receive(":typo:X", "12:00:02 UTC");
    assert_eq!(t.log[1], "[12:00:02 UTC] > :typo:X");
}

#[test]
fn sent_messages_are_trimmed_and_logged() {
    let mut t = Transcript::new();
    assert_eq!(t.send("   ", "10:00:00 UTC"), None);
    assert!(t.log.is_empty());
    assert_eq!(t.send("  CQ CQ  ", "10:00:01 UTC"), Some("CQ CQ".to_string()));
    assert_eq!(t.log, vec!["[10:00:01 UTC] < CQ CQ".to_string()]);
}

#[test]
fn the_last_lines_are_visible() {
    assert_eq!(first_visible_line(10, 4), 6);
    assert_eq!(first_visible_line(3, 4), 0);
    assert_eq!(first_visible_line(4, 4), 0);
}
