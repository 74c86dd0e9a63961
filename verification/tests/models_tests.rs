use rusk::models::{ProcessorType, ServerAction, ServerMessage};

#[test]
fn test_parse_message() {
    let message = "createProcessor\r\nR1";
    let message_buffer = message.as_bytes();
    let message = ServerMessage::parse(message_buffer);
    assert_eq!(message.action, ServerAction::CreateProcessor);
    assert_eq!(message.sub_commands, vec!["R1".to_string()]);
}

#[test]
fn test_parse_message_should_parse_connection_messages() {
    let message = "connectProcessors\r\nR1\r\nR2";
    let message_buffer = message.as_bytes();
    let message = ServerMessage::parse(message_buffer);
    assert_eq!(message.action, ServerAction::ConnectProcessors);
    assert_eq!(
        message.sub_commands,
        vec!["R1".to_string(), "R2".to_string()]
    );
}

#[test]
fn try_parse_reads_every_action() {
    let cases = vec![
        ("createProcessor", ServerAction::CreateProcessor),
        ("STARTPROCESSOR", ServerAction::StartProcessor),
        ("stopprocessor", ServerAction::StopProcessor),
        ("DeleteProcessor", ServerAction::DeleteProcessor),
        ("connectProcessors", ServerAction::ConnectProcessors),
        ("disconnectProcessors", ServerAction::DisconnectProcessors),
        ("deleteConnection", ServerAction::DeleteConnection),
        ("getProcessorStatus", ServerAction::GetProcessorStatus),
    ];
    for (name, action) in cases {
        let text = format!("{}\r\nX", name);
        let message = ServerMessage::try_parse(text.as_bytes()).unwrap();
        assert_eq!(message.action, action);
        assert_eq!(message.sub_commands, vec!["X".to_string()]);
        assert_eq!(ServerAction::from_name(name), Some(action));
    }
}

#[test]
fn try_parse_refuses_a_message_without_separator() {
    assert!(ServerMessage::try_parse(b"createProcessor").is_none());
    assert!(ServerMessage::try_parse(b"").is_none());
    assert!(ServerMessage::try_parse(b"createProcessor\rR1").is_none());
    assert!(ServerMessage::try_parse(b"createProcessor\nR1").is_none());
}

#[test]
fn try_parse_refuses_an_unknown_action() {
    assert!(ServerMessage::try_parse(b"launchProcessor\r\nR1").is_none());
    assert!(ServerMessage::try_parse(b"\r\nR1").is_none());
    assert!(ServerMessage::try_parse(b"createProcessor \r\nR1").is_none());
    assert_eq!(ServerAction::from_name("createprocesso"), None);
    assert_eq!(ServerAction::from_name("createprocessors"), None);
}

#[test]
fn try_parse_refuses_an_argument_that_is_not_utf8() {
    assert!(ServerMessage::try_parse(b"createProcessor\r\n\xff\xfe").is_none());
    assert!(ServerMessage::try_parse(b"createProcessor\r\nR1\r\n\xc3").is_none());
}

#[test]
fn try_parse_keeps_empty_arguments() {
    let message = ServerMessage::try_parse(b"stopProcessor\r\n").unwrap();
    assert_eq!(message.action, ServerAction::StopProcessor);
    assert_eq!(message.sub_commands, vec![String::new()]);

    let message = ServerMessage::try_parse(b"stopProcessor\r\n\r\nR2\r\n").unwrap();
    assert_eq!(
        message.sub_commands,
        vec![String::new(), "R2".to_string(), String::new()]
    );
}

#[test]
fn try_parse_takes_separators_from_left_to_right() {
    let message = ServerMessage::try_parse(b"startProcessor\r\n\rA\n\r\r\nB").unwrap();
    assert_eq!(
        message.sub_commands,
        vec!["\rA\n\r".to_string(), "B".to_string()]
    );
}

#[test]
fn try_parse_agrees_with_splitting_the_text() {
    let texts = [
        "createProcessor\r\nR1",
        "connectProcessors\r\nR1\r\nR2",
        "deleteConnection\r\n\u{e9}t\u{e9}\r\n\u{4e16}\u{754c}",
        "getProcessorStatus\r\n\r\n\r\n",
    ];
    for text in texts {
        let expected: Vec<String> = text.split("\r\n").skip(1).map(|s| s.to_string()).collect();
        let message = ServerMessage::try_parse(text.as_bytes()).unwrap();
        assert_eq!(message.sub_commands, expected);
    }
}

#[test]
fn processor_type_names_round_trip() {
    for kind in [
        ProcessorType::AddOne,
        ProcessorType::RandomNumberGenerator,
        ProcessorType::UpperCase,
    ] {
        assert_eq!(ProcessorType::from_name(&kind.to_string()), Some(kind));
    }
    assert_eq!(ProcessorType::AddOne.to_string(), "add_one");
    assert_eq!(
        ProcessorType::RandomNumberGenerator.to_string(),
        "random_number_generator"
    );
    assert_eq!(ProcessorType::UpperCase.to_string(), "uppercase");
    assert_eq!(ProcessorType::from_name("ADD_ONE"), Some(ProcessorType::AddOne));
    assert_eq!(ProcessorType::from_name("UpperCase"), Some(ProcessorType::UpperCase));
    assert_eq!(ProcessorType::from_name("add-one"), None);
    assert_eq!(ProcessorType::from_name(""), None);
}
