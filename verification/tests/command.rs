use buddy::command::{dispatch, format_reply, join_lines, Cmd, ReplStep};

#[test]
fn quit_is_read_from_slash_q() {
    assert!(matches!(Cmd::from_input("/q"), Cmd::Quit));
}

#[test]
fn refresh_words_are_read() {
    assert!(matches!(Cmd::from_input("/r"), Cmd::RefreshAll));
    assert!(matches!(Cmd::from_input("/ra"), Cmd::RefreshAll));
    assert!(matches!(Cmd::from_input("/ri"), Cmd::RefreshInstructions));
    assert!(matches!(Cmd::from_input("/rf"), Cmd::RefreshFiles));
    assert!(matches!(Cmd::from_input("/rc"), Cmd::RefreshConversation));
}

#[test]
fn anything_else_is_a_message() {
    match Cmd::from_input("/quit now") {
        Cmd::Chat(msg) => assert_eq!(msg, "/quit now"),
        other => panic!("read as {:?}", other),
    }
    match Cmd::from_input("") {
        Cmd::Chat(msg) => assert_eq!(msg, ""),
        other => panic!("read as {:?}", other),
    }
}

#[test]
fn only_quit_and_chat_are_acted_on() {
    assert!(matches!(dispatch(Cmd::Quit), ReplStep::Stop));
    match dispatch(Cmd::Chat("hello".to_string())) {
        ReplStep::Chat { msg } => assert_eq!(msg, "hello"),
        other => panic!("dispatched as {:?}", other),
    }
    assert!(matches!(dispatch(Cmd::RefreshFiles), ReplStep::Unsupported { cmd: Cmd::RefreshFiles }));
    assert!(matches!(dispatch(Cmd::RefreshAll), ReplStep::Unsupported { cmd: Cmd::RefreshAll }));
}

#[test]
fn lines_are_joined_by_line_feeds() {
    assert_eq!(join_lines(&vec![]), "");
    assert_eq!(join_lines(&vec!["one".to_string()]), "one");
    assert_eq!(join_lines(&vec!["one".to_string(), "".to_string(), "three".to_string()]), "one\n\nthree");
}

#[test]
fn a_long_reply_is_wrapped_at_eighty_columns() {
    let word = "abcdefghi ";
    let reply = word.repeat(12);
    let shown = format_reply(&reply);
    let lines: Vec<&str> = shown.split('\n').collect();
    assert_eq!(lines.len(), 2);
    assert_eq!(lines[0], word.repeat(8).trim_end());
    assert_eq!(lines[1], word.repeat(4).trim_end());
    assert_eq!(format_reply("short"), "short");
}
