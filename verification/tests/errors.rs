use chat_launch::error::{
    ApiClientError, AuthError, GetPromptError, IoError, ReadlineError, ReasonCode, RecvError,
    SendMessageError,
};
use chat_launch::state::QueuedTool;
use chat_launch::ChatError;
use std::borrow::Cow;

fn client(status_code: Option<u16>) -> ApiClientError {
    ApiClientError {
        status_code,
        reason_code: "QuotaBreach".to_string(),
        message: "quota exceeded".to_string(),
    }
}

fn send() -> SendMessageError {
    SendMessageError {
        status_code: Some(500),
        reason_code: "Overloaded".to_string(),
        message: "model overloaded".to_string(),
    }
}

fn receive() -> RecvError {
    RecvError { reason_code: "StreamTimeout".to_string(), message: "timed out".to_string() }
}

/// Each kind of error with its status code, its reason code and its message.
fn all() -> Vec<(ChatError, Option<u16>, &'static str, &'static str)> {
    vec![
        (ChatError::from(client(Some(429))), Some(429), "QuotaBreach", "quota exceeded"),
        (ChatError::from(client(None)), None, "QuotaBreach", "quota exceeded"),
        (ChatError::from(send()), Some(500), "Overloaded", "model overloaded"),
        (ChatError::from(receive()), None, "StreamTimeout", "timed out"),
        (
            ChatError::from(AuthError { message: "no token".to_string() }),
            None,
            "AuthError",
            "no token",
        ),
        (
            ChatError::from(IoError { message: "broken pipe".to_string() }),
            None,
            "StdIoError",
            "broken pipe",
        ),
        (
            ChatError::from(ReadlineError { message: "EOF".to_string() }),
            None,
            "ReadlineError",
            "EOF",
        ),
        (ChatError::Custom(Cow::Borrowed("oops")), None, "GenericError", "oops"),
        (ChatError::Custom(Cow::Owned("oh".to_string())), None, "GenericError", "oh"),
        (
            ChatError::Interrupted {
                tool_uses: Some(vec![QueuedTool { json: "{}".to_string() }]),
            },
            None,
            "Interrupted",
            "interrupted",
        ),
        (
            ChatError::from(GetPromptError { message: "no prompt".to_string() }),
            None,
            "GetPromptError",
            "no prompt",
        ),
        (
            ChatError::NonInteractiveToolApproval,
            None,
            "NonInteractiveToolApproval",
            "Tool approval required but --no-interactive was specified. Use --trust-all-tools to automatically approve tools.",
        ),
        (
            ChatError::CompactHistoryFailure,
            None,
            "CompactHistoryFailure",
            "The conversation history is too large to compact",
        ),
        (
            ChatError::AgentSwapError("not found".to_string()),
            None,
            "AgentSwapError",
            "Failed to swap to agent: not found",
        ),
    ]
}

#[test]
fn every_error_has_its_codes_and_message() {
    for (error, status, reason, message) in all() {
        assert_eq!(error.status_code(), status, "{:?}", error);
        assert_eq!(error.reason_code(), reason, "{:?}", error);
        assert_eq!(error.message(), message, "{:?}", error);
    }
}

#[test]
fn conversions_pick_the_variant() {
    assert!(matches!(ChatError::from(client(None)), ChatError::Client(_)));
    assert!(matches!(ChatError::from(send()), ChatError::SendMessage(_)));
    assert!(matches!(ChatError::from(receive()), ChatError::ResponseStream(_)));
    assert!(matches!(
        ChatError::from(AuthError { message: String::new() }),
        ChatError::Auth(_)
    ));
    assert!(matches!(ChatError::from(IoError { message: String::new() }), ChatError::Std(_)));
    assert!(matches!(
        ChatError::from(ReadlineError { message: String::new() }),
        ChatError::Readline(_)
    ));
    assert!(matches!(
        ChatError::from(GetPromptError { message: String::new() }),
        ChatError::GetPromptError(_)
    ));
}

#[test]
fn inner_errors_report_their_own_code() {
    assert_eq!(client(None).reason_code(), "QuotaBreach");
    assert_eq!(send().reason_code(), "Overloaded");
    assert_eq!(receive().reason_code(), "StreamTimeout");
}

#[test]
fn own_codes_are_distinct() {
    let codes: Vec<String> = vec![
        ChatError::from(AuthError { message: String::new() }).reason_code(),
        ChatError::from(IoError { message: String::new() }).reason_code(),
        ChatError::from(ReadlineError { message: String::new() }).reason_code(),
        ChatError::Custom(Cow::Borrowed("")).reason_code(),
        ChatError::Interrupted { tool_uses: None }.reason_code(),
        ChatError::from(GetPromptError { message: String::new() }).reason_code(),
        ChatError::NonInteractiveToolApproval.reason_code(),
        ChatError::CompactHistoryFailure.reason_code(),
        ChatError::AgentSwapError(String::new()).reason_code(),
    ];
    for i in 0..codes.len() {
        for j in 0..i {
            assert_ne!(codes[i], codes[j]);
        }
    }
}
