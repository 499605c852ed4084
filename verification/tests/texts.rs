use proxyfor_tui::actions::{copy_message, export_message, export_path, Message, COPY_ACTIONS, EXPORT_ACTIONS};
use proxyfor_tui::text::{decimal, lines, repeat_char, words};

#[test]
fn numbers_are_written_in_decimal() {
    for n in [0, 7, 9, 10, 42, 99, 100, 207, 65535, u64::MAX] {
        assert_eq!(decimal(n), n.to_string());
    }
}

#[test]
fn characters_repeat() {
    assert_eq!(repeat_char('—', 3), "———");
    assert_eq!(repeat_char(' ', 0), "");
}

#[test]
fn words_are_split_at_white_space() {
    for text in ["", " ", "a", "  GET\t/api \n x", "ä\u{a0}ö\u{2003}ü", "\u{b}v\u{c}"] {
        let expected: Vec<&str> = text.split_whitespace().collect();
        assert_eq!(words(text), expected);
    }
    assert_eq!(words(" a b "), ["a", "b"]);
}

#[test]
fn lines_end_with_line_feeds() {
    for text in ["", "a", "a\n", "a\nb", "a\r\nb\r\n", "\n\n", "\r", "a\r", "a\rb\n", "\r\r\n"] {
        let expected: Vec<&str> = text.lines().collect();
        assert_eq!(lines(text), expected);
    }
    assert_eq!(lines("a\r\n\nb\r"), ["a", "", "b\r"]);
}

#[test]
fn exports_go_to_a_file_of_their_format() {
    assert_eq!(export_path("markdown"), "proxyfor_all_traffics.md");
    assert_eq!(export_path("curl"), "proxyfor_all_traffics.sh");
    assert_eq!(export_path("har"), "proxyfor_all_traffics.har");
    assert_eq!(export_path("other"), "proxyfor_all_traffics.txt");
}

fn told(message: Message) -> (bool, String) {
    match message {
        Message::Error(text) => (true, text),
        Message::Info(text) => (false, text),
        _ => panic!("no notice"),
    }
}

#[test]
fn copies_are_told() {
    assert_eq!(told(copy_message(Ok(Ok(())))), (false, "Copied".to_string()));
    assert_eq!(told(copy_message(Ok(Err("clip".to_string())))), (true, "clip".to_string()));
    assert_eq!(told(copy_message(Err("gone".to_string()))), (true, "gone".to_string()));
}

#[test]
fn exports_are_told() {
    let done = told(export_message("x.md", Ok(Ok(()))));
    assert_eq!(done, (false, "Exported to x.md".to_string()));
    assert_eq!(told(export_message("x.md", Ok(Err("disk".to_string())))), (true, "disk".to_string()));
    assert_eq!(told(export_message("x.md", Err("gone".to_string()))), (true, "gone".to_string()));
}

#[test]
fn actions_have_labels_and_formats() {
    assert_eq!(COPY_ACTIONS[0], ("Copy as Markdown", "markdown"));
    assert_eq!(COPY_ACTIONS[1], ("Copy as cURL", "curl"));
    assert_eq!(COPY_ACTIONS[2], ("Copy as HAR", "har"));
    assert_eq!(COPY_ACTIONS[3], ("Copy Request Body", "req-body"));
    assert_eq!(COPY_ACTIONS[4], ("Copy Response Body", "res-body"));
    assert_eq!(EXPORT_ACTIONS[0], ("Export all as Markdown", "markdown"));
    assert_eq!(EXPORT_ACTIONS[1], ("Export all as cURL", "curl"));
    assert_eq!(EXPORT_ACTIONS[2], ("Export all as HAR", "har"));
}
