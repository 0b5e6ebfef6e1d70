use shaderx_wgpu::types::{
    CompilationMessage, CompilationMessageType, InstanceHandle, ShaderCompilationInfo,
    SourceLocation,
};

fn message(text: &str, message_type: CompilationMessageType) -> CompilationMessage {
    CompilationMessage { message: text.to_string(), message_type, location: None }
}

#[test]
fn handle_from_instance_denotes_the_same_window() {
    let handle = InstanceHandle { window_id: 77 };
    assert_eq!(InstanceHandle::from_instance(handle), handle);
    assert_eq!(InstanceHandle::from_instance(handle).window_id, 77);
}

#[test]
fn severity_names() {
    assert_eq!(CompilationMessageType::Error.name(), "error");
    assert_eq!(CompilationMessageType::Warning.name(), "warning");
    assert_eq!(CompilationMessageType::Info.name(), "info");
}

#[test]
fn default_info_is_empty() {
    let info = ShaderCompilationInfo::default();
    assert!(info.is_empty());
    assert!(!info.has_errors());
    assert!(info.messages().is_empty());
}

#[test]
fn info_keeps_messages_in_order() {
    let messages = vec![
        message("first", CompilationMessageType::Info),
        message("second", CompilationMessageType::Warning),
        message("third", CompilationMessageType::Error),
    ];
    let info = ShaderCompilationInfo::new(messages.clone());
    assert!(!info.is_empty());
    assert_eq!(info.messages(), &messages);
}

#[test]
fn warnings_and_notes_are_no_errors() {
    let info = ShaderCompilationInfo::new(vec![
        message("unused variable", CompilationMessageType::Warning),
        message("note", CompilationMessageType::Info),
    ]);
    assert!(!info.is_empty());
    assert!(!info.has_errors());
}

#[test]
fn one_error_anywhere_is_found() {
    let first = ShaderCompilationInfo::new(vec![
        message("bad", CompilationMessageType::Error),
        message("note", CompilationMessageType::Info),
    ]);
    let last = ShaderCompilationInfo::new(vec![
        message("note", CompilationMessageType::Info),
        message("warn", CompilationMessageType::Warning),
        message("bad", CompilationMessageType::Error),
    ]);
    assert!(first.has_errors());
    assert!(last.has_errors());
}

#[test]
fn for_each_visits_every_message_in_order() {
    let info = ShaderCompilationInfo::new(vec![
        message("a", CompilationMessageType::Error),
        message("bb", CompilationMessageType::Warning),
        message("ccc", CompilationMessageType::Info),
    ]);
    let seen = info.for_each(Some(|m: &CompilationMessage| {
        format!("{}:{}", m.message_type.name(), m.message)
    }));
    assert_eq!(seen, vec!["error:a", "warning:bb", "info:ccc"]);
}

#[test]
fn for_each_without_callback_calls_nothing() {
    let info = ShaderCompilationInfo::new(vec![message("a", CompilationMessageType::Error)]);
    let seen: Vec<usize> = info.for_each(None::<fn(&CompilationMessage) -> usize>);
    assert!(seen.is_empty());
}

#[test]
fn for_each_on_empty_info_calls_nothing() {
    let info = ShaderCompilationInfo::default();
    let seen = info.for_each(Some(|m: &CompilationMessage| m.message.len()));
    assert!(seen.is_empty());
}

#[test]
fn for_each_hands_over_the_location() {
    let location = SourceLocation { line_number: 3, line_position: 7, offset: 41, length: 5 };
    let info = ShaderCompilationInfo::new(vec![
        CompilationMessage {
            message: "unknown identifier".to_string(),
            message_type: CompilationMessageType::Error,
            location: Some(location),
        },
        message("no place", CompilationMessageType::Info),
    ]);
    let seen = info.for_each(Some(|m: &CompilationMessage| m.location));
    assert_eq!(seen, vec![Some(location), None]);
}
