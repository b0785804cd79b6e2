//! The errors of a chat session, with the codes that are reported of them.

use std::borrow::Cow;
use vstd::prelude::*;

verus! {

/// An error that is reported under a code.
pub trait ReasonCode {
    /// The code.
    spec fn reason(&self) -> Seq<char>;

    /// The code under which the error is reported.
    fn reason_code(&self) -> (code: String)
        ensures
            code@ == self.reason(),
    ;
}

/// An error of the service client.
#[derive(Debug)]
pub struct ApiClientError {
    pub status_code: Option<u16>,
    pub reason_code: String,
    pub message: String,
}

/// An error in sending a message.
#[derive(Debug)]
pub struct SendMessageError {
    pub status_code: Option<u16>,
    pub reason_code: String,
    pub message: String,
}

/// An error in receiving a response.
#[derive(Debug)]
pub struct RecvError {
    pub reason_code: String,
    pub message: String,
}

/// An error in signing in.
#[derive(Debug)]
pub struct AuthError {
    pub message: String,
}

/// An error in reading or writing.
#[derive(Debug)]
pub struct IoError {
    pub message: String,
}

/// An error in reading a line from the user.
#[derive(Debug)]
pub struct ReadlineError {
    pub message: String,
}

/// An error in fetching a prompt.
#[derive(Debug)]
pub struct GetPromptError {
    pub message: String,
}

impl ReasonCode for ApiClientError {
    open spec fn reason(&self) -> Seq<char> {
        self.reason_code@
    }

    fn reason_code(&self) -> (code: String) {
        self.reason_code.clone()
    }
}

impl ReasonCode for SendMessageError {
    open spec fn reason(&self) -> Seq<char> {
        self.reason_code@
    }

    fn reason_code(&self) -> (code: String) {
        self.reason_code.clone()
    }
}

impl ReasonCode for RecvError {
    open spec fn reason(&self) -> Seq<char> {
        self.reason_code@
    }

    fn reason_code(&self) -> (code: String) {
        self.reason_code.clone()
    }
}

/// An error that ends a step of the chat.
#[derive(Debug)]
pub enum ChatError {
    Client(Box<ApiClientError>),
    Auth(AuthError),
    SendMessage(Box<SendMessageError>),
    ResponseStream(Box<RecvError>),
    Std(IoError),
    Readline(ReadlineError),
    Custom(Cow<'static, str>),
    Interrupted { tool_uses: Option<Vec<crate::state::QueuedTool>> },
    GetPromptError(GetPromptError),
    NonInteractiveToolApproval,
    CompactHistoryFailure,
    AgentSwapError(String),
}

impl ChatError {
    /// The status code of the service: that of the client or of the message
    /// that was sent, and none in any other error.
    pub open spec fn status(&self) -> Option<u16> {
        match *self {
            ChatError::Client(e) => e.status_code,
            ChatError::SendMessage(e) => e.status_code,
            _ => None,
        }
    }

    /// The status code with which the service answered, if it did.
    pub fn status_code(&self) -> (code: Option<u16>)
        ensures
            code == self.status(),
    {
        match self {
            ChatError::Client(e) => e.status_code,
            ChatError::SendMessage(e) => e.status_code,
            ChatError::Auth(_)
            | ChatError::ResponseStream(_)
            | ChatError::Std(_)
            | ChatError::Readline(_)
            | ChatError::Custom(_)
            | ChatError::Interrupted { .. }
            | ChatError::GetPromptError(_)
            | ChatError::NonInteractiveToolApproval
            | ChatError::CompactHistoryFailure
            | ChatError::AgentSwapError(_) => None,
        }
    }

    /// The text of the error, as the user sees it.
    pub open spec fn text(&self) -> Seq<char> {
        match *self {
            ChatError::Client(e) => e.message@,
            ChatError::Auth(e) => e.message@,
            ChatError::SendMessage(e) => e.message@,
            ChatError::ResponseStream(e) => e.message@,
            ChatError::Std(e) => e.message@,
            ChatError::Readline(e) => e.message@,
            ChatError::Custom(text) => text@,
            ChatError::Interrupted { .. } => "interrupted"@,
            ChatError::GetPromptError(e) => e.message@,
            ChatError::NonInteractiveToolApproval => TOOL_APPROVAL_TEXT@,
            ChatError::CompactHistoryFailure => "The conversation history is too large to compact"@,
            ChatError::AgentSwapError(report) => "Failed to swap to agent: "@ + report@,
        }
    }

    /// The message that is shown of the error.
    pub fn message(&self) -> (message: String)
        ensures
            message@ == self.text(),
    {
        match self {
            ChatError::Client(e) => e.message.clone(),
            ChatError::Auth(e) => e.message.clone(),
            ChatError::SendMessage(e) => e.message.clone(),
            ChatError::ResponseStream(e) => e.message.clone(),
            ChatError::Std(e) => e.message.clone(),
            ChatError::Readline(e) => e.message.clone(),
            ChatError::Custom(Cow::Borrowed(text)) => (*text).to_string(),
            ChatError::Custom(Cow::Owned(text)) => text.clone(),
            ChatError::Interrupted { .. } => "interrupted".to_string(),
            ChatError::GetPromptError(e) => e.message.clone(),
            ChatError::NonInteractiveToolApproval => TOOL_APPROVAL_TEXT.to_string(),
            ChatError::CompactHistoryFailure =>
                "The conversation history is too large to compact".to_string(),
            ChatError::AgentSwapError(report) => "Failed to swap to agent: ".to_string().concat(
                report.as_str(),
            ),
        }
    }

    /// Whether the code of the error is that of another error inside it.
    pub open spec fn passes_code_on(&self) -> bool {
        self is Client || self is SendMessage || self is ResponseStream
    }
}

/// What is said where a tool needs an approval that nobody can give.
pub const TOOL_APPROVAL_TEXT: &'static str = "Tool approval required but --no-interactive was specified. Use --trust-all-tools to automatically approve tools.";

impl ReasonCode for ChatError {
    open spec fn reason(&self) -> Seq<char> {
        match *self {
            ChatError::Client(e) => e.reason_code@,
            ChatError::SendMessage(e) => e.reason_code@,
            ChatError::ResponseStream(e) => e.reason_code@,
            ChatError::Std(_) => "StdIoError"@,
            ChatError::Readline(_) => "ReadlineError"@,
            ChatError::Custom(_) => "GenericError"@,
            ChatError::Interrupted { .. } => "Interrupted"@,
            ChatError::GetPromptError(_) => "GetPromptError"@,
            ChatError::Auth(_) => "AuthError"@,
            ChatError::NonInteractiveToolApproval => "NonInteractiveToolApproval"@,
            ChatError::CompactHistoryFailure => "CompactHistoryFailure"@,
            ChatError::AgentSwapError(_) => "AgentSwapError"@,
        }
    }

    fn reason_code(&self) -> (code: String) {
        match self {
            ChatError::Client(e) => e.reason_code(),
            ChatError::SendMessage(e) => e.reason_code(),
            ChatError::ResponseStream(e) => e.reason_code(),
            ChatError::Std(_) => "StdIoError".to_string(),
            ChatError::Readline(_) => "ReadlineError".to_string(),
            ChatError::Custom(_) => "GenericError".to_string(),
            ChatError::Interrupted { .. } => "Interrupted".to_string(),
            ChatError::GetPromptError(_) => "GetPromptError".to_string(),
            ChatError::Auth(_) => "AuthError".to_string(),
            ChatError::NonInteractiveToolApproval => "NonInteractiveToolApproval".to_string(),
            ChatError::CompactHistoryFailure => "CompactHistoryFailure".to_string(),
            ChatError::AgentSwapError(_) => "AgentSwapError".to_string(),
        }
    }
}

impl From<ApiClientError> for ChatError {
    fn from(value: ApiClientError) -> (error: Self) {
        ChatError::Client(Box::new(value))
    }
}

impl vstd::std_specs::convert::FromSpecImpl<ApiClientError> for ChatError {
    open spec fn obeys_from_spec() -> bool {
        true
    }

    open spec fn from_spec(value: ApiClientError) -> Self {
        ChatError::Client(Box::new(value))
    }
}

impl From<SendMessageError> for ChatError {
    fn from(value: SendMessageError) -> (error: Self) {
        ChatError::SendMessage(Box::new(value))
    }
}

impl vstd::std_specs::convert::FromSpecImpl<SendMessageError> for ChatError {
    open spec fn obeys_from_spec() -> bool {
        true
    }

    open spec fn from_spec(value: SendMessageError) -> Self {
        ChatError::SendMessage(Box::new(value))
    }
}

impl From<RecvError> for ChatError {
    fn from(value: RecvError) -> (error: Self) {
        ChatError::ResponseStream(Box::new(value))
    }
}

impl vstd::std_specs::convert::FromSpecImpl<RecvError> for ChatError {
    open spec fn obeys_from_spec() -> bool {
        true
    }

    open spec fn from_spec(value: RecvError) -> Self {
        ChatError::ResponseStream(Box::new(value))
    }
}

impl From<AuthError> for ChatError {
    fn from(value: AuthError) -> (error: Self) {
        ChatError::Auth(value)
    }
}

impl vstd::std_specs::convert::FromSpecImpl<AuthError> for ChatError {
    open spec fn obeys_from_spec() -> bool {
        true
    }

    open spec fn from_spec(value: AuthError) -> Self {
        ChatError::Auth(value)
    }
}

impl From<IoError> for ChatError {
    fn from(value: IoError) -> (error: Self) {
        ChatError::Std(value)
    }
}

impl vstd::std_specs::convert::FromSpecImpl<IoError> for ChatError {
    open spec fn obeys_from_spec() -> bool {
        true
    }

    open spec fn from_spec(value: IoError) -> Self {
        ChatError::Std(value)
    }
}

impl From<ReadlineError> for ChatError {
    fn from(value: ReadlineError) -> (error: Self) {
        ChatError::Readline(value)
    }
}

impl vstd::std_specs::convert::FromSpecImpl<ReadlineError> for ChatError {
    open spec fn obeys_from_spec() -> bool {
        true
    }

    open spec fn from_spec(value: ReadlineError) -> Self {
        ChatError::Readline(value)
    }
}

impl From<GetPromptError> for ChatError {
    fn from(value: GetPromptError) -> (error: Self) {
        ChatError::GetPromptError(value)
    }
}

impl vstd::std_specs::convert::FromSpecImpl<GetPromptError> for ChatError {
    open spec fn obeys_from_spec() -> bool {
        true
    }

    open spec fn from_spec(value: GetPromptError) -> Self {
        ChatError::GetPromptError(value)
    }
}

/// The codes tell the errors apart: of two errors that do not pass on the code
/// of another, the codes are equal exactly where both are of the same kind.
pub proof fn law_codes_tell_errors_apart(a: ChatError, b: ChatError)
    requires
        !a.passes_code_on(),
        !b.passes_code_on(),
    ensures
        a.reason() == b.reason() <==> {
            ||| a is Std && b is Std
            ||| a is Readline && b is Readline
            ||| a is Custom && b is Custom
            ||| a is Interrupted && b is Interrupted
            ||| a is GetPromptError && b is GetPromptError
            ||| a is Auth && b is Auth
            ||| a is NonInteractiveToolApproval && b is NonInteractiveToolApproval
            ||| a is CompactHistoryFailure && b is CompactHistoryFailure
            ||| a is AgentSwapError && b is AgentSwapError
        },
{
    reveal_strlit("StdIoError");
    reveal_strlit("ReadlineError");
    reveal_strlit("GenericError");
    reveal_strlit("Interrupted");
    reveal_strlit("GetPromptError");
    reveal_strlit("AuthError");
    reveal_strlit("NonInteractiveToolApproval");
    reveal_strlit("CompactHistoryFailure");
    reveal_strlit("AgentSwapError");
    assert("GetPromptError"@[0] == 'G');
    assert("AgentSwapError"@[0] == 'A');
    assert(a.reason() == b.reason() ==> a.reason().len() == b.reason().len() && a.reason()[0]
        == b.reason()[0]);
}

/// Wrapping an error keeps its status code, its reason code and its text.
pub proof fn law_wrapping_keeps_codes_and_text(
    client: ApiClientError,
    send: SendMessageError,
    receive: RecvError,
)
    ensures
        ({
            let error = <ChatError as vstd::std_specs::convert::FromSpec<ApiClientError>>::from_spec(
                client,
            );
            &&& error == ChatError::Client(Box::new(client))
            &&& error.status() == client.status_code
            &&& error.reason() == client.reason()
            &&& error.text() == client.message@
        }),
        ({
            let error = <ChatError as vstd::std_specs::convert::FromSpec<
                SendMessageError,
            >>::from_spec(send);
            &&& error == ChatError::SendMessage(Box::new(send))
            &&& error.status() == send.status_code
            &&& error.reason() == send.reason()
            &&& error.text() == send.message@
        }),
        ({
            let error = <ChatError as vstd::std_specs::convert::FromSpec<RecvError>>::from_spec(
                receive,
            );
            &&& error == ChatError::ResponseStream(Box::new(receive))
            &&& error.status() is None
            &&& error.reason() == receive.reason()
            &&& error.text() == receive.message@
        }),
{
}

/// Only the client and the sending of a message have a status code, and it is handed on as
/// it is.
pub proof fn law_status_codes_are_handed_on(error: ChatError, code: Option<u16>)
    requires
        call_ensures(ChatError::status_code, (&error,), code),
    ensures
        error is Client ==> code == error->Client_0.status_code,
        error is SendMessage ==> code == error->SendMessage_0.status_code,
        code is Some ==> error is Client || error is SendMessage,
{
}

/// An error that holds another with a code is reported under that code, and any other under
/// the code of its kind, whatever else it holds.
pub proof fn law_reason_codes_go_by_the_kind(error: ChatError, code: String)
    requires
        call_ensures(<ChatError as ReasonCode>::reason_code, (&error,), code),
    ensures
        error is Client ==> code@ == error->Client_0.reason_code@,
        error is SendMessage ==> code@ == error->SendMessage_0.reason_code@,
        error is ResponseStream ==> code@ == error->ResponseStream_0.reason_code@,
        error is Std ==> code@ == "StdIoError"@,
        error is Readline ==> code@ == "ReadlineError"@,
        error is Custom ==> code@ == "GenericError"@,
        error is Interrupted ==> code@ == "Interrupted"@,
        error is GetPromptError ==> code@ == "GetPromptError"@,
        error is Auth ==> code@ == "AuthError"@,
        error is NonInteractiveToolApproval ==> code@ == "NonInteractiveToolApproval"@,
        error is CompactHistoryFailure ==> code@ == "CompactHistoryFailure"@,
        error is AgentSwapError ==> code@ == "AgentSwapError"@,
{
}

/// The errors inside are reported under the code that they carry.
pub proof fn law_inner_codes_are_those_carried(
    client: ApiClientError,
    send: SendMessageError,
    receive: RecvError,
    of_client: String,
    of_send: String,
    of_receive: String,
)
    requires
        call_ensures(<ApiClientError as ReasonCode>::reason_code, (&client,), of_client),
        call_ensures(<SendMessageError as ReasonCode>::reason_code, (&send,), of_send),
        call_ensures(<RecvError as ReasonCode>::reason_code, (&receive,), of_receive),
    ensures
        of_client@ == client.reason_code@,
        of_send@ == send.reason_code@,
        of_receive@ == receive.reason_code@,
{
}

/// An error that holds a message shows that message and nothing else; the failed change of
/// an agent shows its report after a few words; the others show a text of their own.
pub proof fn law_messages_are_shown_in_full(error: ChatError, message: String)
    requires
        call_ensures(ChatError::message, (&error,), message),
    ensures
        error is Client ==> message@ == error->Client_0.message@,
        error is Auth ==> message@ == error->Auth_0.message@,
        error is SendMessage ==> message@ == error->SendMessage_0.message@,
        error is ResponseStream ==> message@ == error->ResponseStream_0.message@,
        error is Std ==> message@ == error->Std_0.message@,
        error is Readline ==> message@ == error->Readline_0.message@,
        error is GetPromptError ==> message@ == error->GetPromptError_0.message@,
        error is Custom ==> message@ == error->Custom_0@,
        error is AgentSwapError ==> message@ == "Failed to swap to agent: "@
            + error->AgentSwapError_0@,
        error is Interrupted ==> message@ == "interrupted"@,
        error is CompactHistoryFailure ==> message@
            == "The conversation history is too large to compact"@,
        error is NonInteractiveToolApproval ==> message@
            == "Tool approval required but --no-interactive was specified. Use --trust-all-tools to automatically approve tools."@,
{
}

/// An error that becomes a chat error is held in it unchanged.
pub proof fn law_errors_are_held_unchanged(
    client: ApiClientError,
    from_client: ChatError,
    send: SendMessageError,
    from_send: ChatError,
    receive: RecvError,
    from_receive: ChatError,
    auth: AuthError,
    from_auth: ChatError,
    io: IoError,
    from_io: ChatError,
    readline: ReadlineError,
    from_readline: ChatError,
    prompt: GetPromptError,
    from_prompt: ChatError,
)
    requires
        call_ensures(<ChatError as From<ApiClientError>>::from, (client,), from_client),
        call_ensures(<ChatError as From<SendMessageError>>::from, (send,), from_send),
        call_ensures(<ChatError as From<RecvError>>::from, (receive,), from_receive),
        call_ensures(<ChatError as From<AuthError>>::from, (auth,), from_auth),
        call_ensures(<ChatError as From<IoError>>::from, (io,), from_io),
        call_ensures(<ChatError as From<ReadlineError>>::from, (readline,), from_readline),
        call_ensures(<ChatError as From<GetPromptError>>::from, (prompt,), from_prompt),
    ensures
        from_client is Client,
        *from_client->Client_0 == client,
        from_send is SendMessage,
        *from_send->SendMessage_0 == send,
        from_receive is ResponseStream,
        *from_receive->ResponseStream_0 == receive,
        from_auth is Auth,
        from_auth->Auth_0 == auth,
        from_io is Std,
        from_io->Std_0 == io,
        from_readline is Readline,
        from_readline->Readline_0 == readline,
        from_prompt is GetPromptError,
        from_prompt->GetPromptError_0 == prompt,
{
}

} // verus!
