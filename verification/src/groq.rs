//! The chat-completion exchange that polishes a raw transcript: the request
//! it sends, and the decisions it takes on each reply of the service.
//!
//! The exchange is a small state machine. The caller sends the request,
//! hands each outcome of the HTTP client to [`PolishExchange::step`] as an
//! [`ExchangeEvent`], and performs the [`ExchangeAction`] it gets back until
//! the action is `Finish`.
use vstd::prelude::*;
use crate::error::AiError;

verus! {

/// The chat model that polishes transcripts.
pub open spec fn polish_model() -> Seq<char> {
    "llama-3.3-70b-versatile"@
}

/// The system instructions sent ahead of the transcript.
pub open spec fn polish_instructions() -> Seq<char> {
    "You are an expert dictation assistant. Fix grammar, remove filler words (ums, ahs), and format the text properly. Output ONLY the polished text without quotes or explanations."@
}

/// The endpoint that receives the request.
pub open spec fn chat_endpoint() -> Seq<char> {
    "https://api.groq.com/openai/v1/chat/completions"@
}

/// The key used when no API key is configured.
pub open spec fn placeholder_api_key() -> Seq<char> {
    "your_api_key_here"@
}

/// Sampling temperature of the request, in hundredths (0.1).
pub const POLISH_TEMPERATURE_HUNDREDTHS: u32 = 10;

/// One message of a chat request.
pub struct ChatMessage {
    pub role: String,
    pub content: String,
}

/// A chat-completion request. The temperature is held in hundredths.
pub struct ChatRequest {
    pub model: String,
    pub messages: Vec<ChatMessage>,
    pub temperature_hundredths: u32,
}

/// A successful reply of the service: the message content of each choice,
/// in the order the service gave them.
pub struct ChatResponse {
    pub choices: Vec<String>,
}

/// The endpoint URL of the chat service.
pub fn chat_completions_url() -> (url: &'static str)
    ensures
        url@ == chat_endpoint(),
{
    "https://api.groq.com/openai/v1/chat/completions"
}

/// The API key to use: the configured one, or a placeholder when none is
/// configured.
pub fn api_key_or_placeholder(configured: Option<String>) -> (key: String)
    ensures
        key@ == (match configured {
            Some(k) => k@,
            None => placeholder_api_key(),
        }),
{
    match configured {
        Some(k) => k,
        None => String::from_str("your_api_key_here"),
    }
}

/// Builds the request that asks the model to polish `raw_text`: the system
/// instructions, then the transcript as the user's message.
pub fn polish_request(raw_text: &str) -> (req: ChatRequest)
    ensures
        req.model@ == polish_model(),
        req.temperature_hundredths == POLISH_TEMPERATURE_HUNDREDTHS,
        req.messages@.len() == 2,
        req.messages@[0].role@ == "system"@,
        req.messages@[0].content@ == polish_instructions(),
        req.messages@[1].role@ == "user"@,
        req.messages@[1].content@ == raw_text@,
{
    let mut messages: Vec<ChatMessage> = Vec::new();
    messages.push(
        ChatMessage {
            role: String::from_str("system"),
            content: String::from_str(
                "You are an expert dictation assistant. Fix grammar, remove filler words (ums, ahs), and format the text properly. Output ONLY the polished text without quotes or explanations.",
            ),
        },
    );
    messages.push(ChatMessage { role: String::from_str("user"), content: String::from_str(raw_text) });
    ChatRequest {
        model: String::from_str("llama-3.3-70b-versatile"),
        messages,
        temperature_hundredths: POLISH_TEMPERATURE_HUNDREDTHS,
    }
}

/// An HTTP status counts as success when it lies in 200..=299.
pub open spec fn is_success_status(status: u16) -> bool {
    200 <= status < 300
}

/// Whether `status` is a success status.
pub fn is_success(status: u16) -> (b: bool)
    ensures
        b == is_success_status(status),
{
    200 <= status && status < 300
}

/// Where an exchange stands.
pub enum ExchangeStage {
    /// The request is sent; its status line is awaited.
    AwaitingStatus,
    /// The status was not a success; the error body is awaited.
    AwaitingErrorBody,
    /// The status was a success; the decoded reply is awaited.
    AwaitingReply,
    /// The exchange has produced its result.
    Finished,
}

/// What the HTTP client reports back.
pub enum ExchangeEvent {
    /// The status code of the response.
    Status(u16),
    /// The body of a non-success response, as text.
    ErrorBody(String),
    /// The decoded body of a success response.
    Reply(ChatResponse),
    /// The client failed (sending, reading or decoding); holds its message.
    Failed(String),
}

/// What the caller must do next.
pub enum ExchangeAction {
    /// Read the response body as text and report it as `ErrorBody`.
    ReadErrorBody,
    /// Decode the response body and report it as `Reply`.
    ReadReply,
    /// The exchange is over, with this result.
    Finish(Result<String, AiError>),
}

/// Whether an exchange at `stage` can take `event`.
pub open spec fn accepts(stage: ExchangeStage, event: ExchangeEvent) -> bool {
    match (stage, event) {
        (ExchangeStage::Finished, _) => false,
        (_, ExchangeEvent::Failed(_)) => true,
        (ExchangeStage::AwaitingStatus, ExchangeEvent::Status(_)) => true,
        (ExchangeStage::AwaitingErrorBody, ExchangeEvent::ErrorBody(_)) => true,
        (ExchangeStage::AwaitingReply, ExchangeEvent::Reply(_)) => true,
        _ => false,
    }
}

/// The result of a decoded success reply: its first choice, if any.
pub open spec fn reply_result(reply: ChatResponse) -> Result<String, AiError> {
    if reply.choices@.len() > 0 {
        Ok(reply.choices@[0])
    } else {
        Err(AiError::NoChoices)
    }
}

/// The stage and action that follow `event` at `stage`.
pub open spec fn transition(stage: ExchangeStage, event: ExchangeEvent) -> (
    ExchangeStage,
    ExchangeAction,
) {
    match event {
        ExchangeEvent::Status(s) => if is_success_status(s) {
            (ExchangeStage::AwaitingReply, ExchangeAction::ReadReply)
        } else {
            (ExchangeStage::AwaitingErrorBody, ExchangeAction::ReadErrorBody)
        },
        ExchangeEvent::ErrorBody(body) => (
            ExchangeStage::Finished,
            ExchangeAction::Finish(Err(AiError::Api(body))),
        ),
        ExchangeEvent::Reply(reply) => (
            ExchangeStage::Finished,
            ExchangeAction::Finish(reply_result(reply)),
        ),
        ExchangeEvent::Failed(msg) => (
            ExchangeStage::Finished,
            ExchangeAction::Finish(Err(AiError::Http(msg))),
        ),
    }
}

/// One polishing exchange with the chat service.
pub struct PolishExchange {
    stage: ExchangeStage,
}

impl PolishExchange {
    /// The exchange's current stage.
    pub closed spec fn stage_spec(&self) -> ExchangeStage {
        self.stage
    }

    /// Starts an exchange whose request has just been sent.
    pub fn new() -> (ex: Self)
        ensures
            ex.stage_spec() == ExchangeStage::AwaitingStatus,
    {
        PolishExchange { stage: ExchangeStage::AwaitingStatus }
    }

    /// Whether the exchange is over.
    pub fn is_finished(&self) -> (b: bool)
        ensures
            b == (self.stage_spec() is Finished),
    {
        match self.stage {
            ExchangeStage::Finished => true,
            _ => false,
        }
    }

    /// Whether the exchange can take `event` now.
    pub fn accepts(&self, event: &ExchangeEvent) -> (b: bool)
        ensures
            b == accepts(self.stage_spec(), *event),
    {
        match (&self.stage, event) {
            (ExchangeStage::Finished, _) => false,
            (_, ExchangeEvent::Failed(_)) => true,
            (ExchangeStage::AwaitingStatus, ExchangeEvent::Status(_)) => true,
            (ExchangeStage::AwaitingErrorBody, ExchangeEvent::ErrorBody(_)) => true,
            (ExchangeStage::AwaitingReply, ExchangeEvent::Reply(_)) => true,
            _ => false,
        }
    }

    /// Takes the client's next report and says what to do next.
    pub fn step(&mut self, event: ExchangeEvent) -> (action: ExchangeAction)
        requires
            accepts(old(self).stage_spec(), event),
        ensures
            (final(self).stage_spec(), action) == transition(old(self).stage_spec(), event),
    {
        match event {
            ExchangeEvent::Status(s) => {
                if is_success(s) {
                    self.stage = ExchangeStage::AwaitingReply;
                    ExchangeAction::ReadReply
                } else {
                    self.stage = ExchangeStage::AwaitingErrorBody;
                    ExchangeAction::ReadErrorBody
                }
            },
            ExchangeEvent::ErrorBody(body) => {
                self.stage = ExchangeStage::Finished;
                ExchangeAction::Finish(Err(AiError::Api(body)))
            },
            ExchangeEvent::Reply(reply) => {
                self.stage = ExchangeStage::Finished;
                ExchangeAction::Finish(first_choice(reply))
            },
            ExchangeEvent::Failed(msg) => {
                self.stage = ExchangeStage::Finished;
                ExchangeAction::Finish(Err(AiError::Http(msg)))
            },
        }
    }
}

/// The polished text of a decoded success reply: its first choice, or
/// `NoChoices` when the service offered none.
pub fn first_choice(reply: ChatResponse) -> (res: Result<String, AiError>)
    ensures
        res == reply_result(reply),
{
    let mut choices = reply.choices;
    if choices.len() > 0 {
        Ok(choices.swap_remove(0))
    } else {
        Err(AiError::NoChoices)
    }
}

/// A finished exchange takes no further report.
pub proof fn finished_exchange_is_closed(event: ExchangeEvent)
    ensures
        !accepts(ExchangeStage::Finished, event),
{
}

/// Every exchange ends after at most two reports: the status, then either
/// the body or a client failure; a client failure ends it at once.
pub proof fn exchange_ends_within_two_reports(first: ExchangeEvent, second: ExchangeEvent)
    requires
        accepts(ExchangeStage::AwaitingStatus, first),
        !(transition(ExchangeStage::AwaitingStatus, first).0 is Finished) ==> accepts(
            transition(ExchangeStage::AwaitingStatus, first).0,
            second,
        ),
    ensures
        (first is Failed) ==> transition(ExchangeStage::AwaitingStatus, first).0 is Finished,
        (first is Status) ==> transition(
            transition(ExchangeStage::AwaitingStatus, first).0,
            second,
        ).0 is Finished,
        transition(ExchangeStage::AwaitingStatus, first).0 is Finished <==> transition(
            ExchangeStage::AwaitingStatus,
            first,
        ).1 is Finish,
{
}

/// The polished text that an exchange yields is the first choice of a
/// success reply: after a status report, the exchange finishes with `Ok(t)`
/// exactly when the status is a success, the next report is a reply, and
/// `t` is that reply's first choice.
pub proof fn exchange_success_exactly_on_first_choice(status: u16, second: ExchangeEvent, t: String)
    requires
        accepts(transition(ExchangeStage::AwaitingStatus, ExchangeEvent::Status(status)).0, second),
    ensures
        transition(
            transition(ExchangeStage::AwaitingStatus, ExchangeEvent::Status(status)).0,
            second,
        ).1 == ExchangeAction::Finish(Ok::<String, AiError>(t)) <==> (is_success_status(status)
            && (second matches ExchangeEvent::Reply(r) && r.choices@.len() > 0 && r.choices@[0]
            == t)),
{
}

/// A non-success status always ends in the service's error, carrying the
/// body it sent (or the client's failure when the body cannot be read).
pub proof fn error_status_reports_body(status: u16, body: String)
    requires
        !is_success_status(status),
    ensures
        transition(ExchangeStage::AwaitingStatus, ExchangeEvent::Status(status))
            == (ExchangeStage::AwaitingErrorBody, ExchangeAction::ReadErrorBody),
        transition(ExchangeStage::AwaitingErrorBody, ExchangeEvent::ErrorBody(body)).1
            == ExchangeAction::Finish(Err::<String, AiError>(AiError::Api(body))),
{
}

/// The exchange follows the service's protocol for every status and every
/// body. A fresh exchange takes the status. A status in 200..=299 asks for
/// the reply to be decoded, and the exchange then takes any decoded reply and
/// finishes with its first choice, or with `NoChoices` when it has none. Any
/// other status asks for the error body, and the exchange then takes any
/// body and finishes with the service's error carrying it. At every stage
/// before the end, a failure of the client is taken and ends the exchange
/// with that failure.
pub proof fn exchange_protocol(status: u16, reply: ChatResponse, body: String, failure: String)
    ensures
        accepts(ExchangeStage::AwaitingStatus, ExchangeEvent::Status(status)),
        accepts(ExchangeStage::AwaitingStatus, ExchangeEvent::Failed(failure)),
        transition(ExchangeStage::AwaitingStatus, ExchangeEvent::Failed(failure))
            == (ExchangeStage::Finished, ExchangeAction::Finish(Err::<String, AiError>(AiError::Http(failure)))),
        ({
            let next = transition(ExchangeStage::AwaitingStatus, ExchangeEvent::Status(status));
            &&& !(next.0 is Finished)
            &&& accepts(next.0, ExchangeEvent::Failed(failure))
            &&& transition(next.0, ExchangeEvent::Failed(failure)) == (
                ExchangeStage::Finished,
                ExchangeAction::Finish(Err::<String, AiError>(AiError::Http(failure))),
            )
            &&& 200 <= status <= 299 ==> {
                &&& next.1 is ReadReply
                &&& accepts(next.0, ExchangeEvent::Reply(reply))
                &&& !accepts(next.0, ExchangeEvent::ErrorBody(body))
                &&& transition(next.0, ExchangeEvent::Reply(reply)).0 is Finished
                &&& reply.choices@.len() > 0 ==> transition(next.0, ExchangeEvent::Reply(reply)).1
                    == ExchangeAction::Finish(Ok::<String, AiError>(reply.choices@[0]))
                &&& reply.choices@.len() == 0 ==> transition(next.0, ExchangeEvent::Reply(reply)).1
                    == ExchangeAction::Finish(Err::<String, AiError>(AiError::NoChoices))
            }
            &&& !(200 <= status <= 299) ==> {
                &&& next.1 is ReadErrorBody
                &&& accepts(next.0, ExchangeEvent::ErrorBody(body))
                &&& !accepts(next.0, ExchangeEvent::Reply(reply))
                &&& transition(next.0, ExchangeEvent::ErrorBody(body)) == (
                    ExchangeStage::Finished,
                    ExchangeAction::Finish(Err::<String, AiError>(AiError::Api(body))),
                )
            }
        }),
{
}

} // verus!
