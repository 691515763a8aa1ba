use nanocode::CoreEvent;
use nanocode::StdinInputReader;
use nanocode::UserCommand;
use nanocode::parse_input;

#[test]
fn test_user_command_display() {
    assert_eq!(UserCommand::Quit.display_string(), "quit");
    assert_eq!(UserCommand::Clear.display_string(), "clear");
    assert_eq!(
        UserCommand::Message("test".to_string()).display_string(),
        "message: test"
    );
}

#[test]
fn test_user_command_equality() {
    assert_eq!(UserCommand::Quit, UserCommand::Quit);
    assert_eq!(UserCommand::Clear, UserCommand::Clear);
    assert_eq!(
        UserCommand::Message("test".to_string()),
        UserCommand::Message("test".to_string())
    );
    assert_ne!(UserCommand::Quit, UserCommand::Clear);
}

#[test]
fn test_session_parse_input() {
    assert_eq!(parse_input("/q"), UserCommand::Quit);
    assert_eq!(parse_input("exit"), UserCommand::Quit);
    assert_eq!(parse_input("/c"), UserCommand::Clear);
    assert_eq!(parse_input("hello"), UserCommand::Message("hello".to_string()));
}

#[test]
fn test_core_event_clone() {
    let original = CoreEvent::TextDelta("test".to_string());
    let cloned = original.clone();

    match (original, cloned) {
        (CoreEvent::TextDelta(s1), CoreEvent::TextDelta(s2)) => {
            assert_eq!(s1, s2);
        }
        _ => panic!("Wrong event type"),
    }
}

#[test]
fn test_stdin_input_reader_default() {
    let _ = StdinInputReader;
}

#[test]
fn test_stdin_input_reader_new() {
    let _ = StdinInputReader::new();
}

#[test]
fn messages_that_look_like_commands_still_parse_as_commands() {
    assert_eq!(
        parse_input("/q "),
        UserCommand::Message("/q ".to_string())
    );
    assert_eq!(parse_input(""), UserCommand::Message(String::new()));
}
