//! Errors of the transcription and polishing pipeline, with the messages
//! that the worker reports for them.
use vstd::prelude::*;

verus! {

/// What can go wrong between a recording and the polished text.
pub enum AiError {
    /// The speech model could not be loaded; holds the loader's message.
    ModelLoad(String),
    /// The speech model failed on the recording; holds its message.
    Transcription(String),
    /// The HTTP exchange itself failed (connection, body, decoding); holds
    /// the client's message.
    Http(String),
    /// The chat service answered with a non-success status; holds the body.
    Api(String),
    /// The chat service answered successfully but offered no choice.
    NoChoices,
}

impl AiError {
    /// The message reported for this error.
    pub open spec fn message_spec(&self) -> Seq<char> {
        match self {
            AiError::ModelLoad(e) => "Failed to load Parakeet/Nemotron model: "@ + e@,
            AiError::Transcription(e) => "Transcription error: "@ + e@,
            AiError::Http(e) => e@,
            AiError::Api(body) => "Groq API Error: "@ + body@,
            AiError::NoChoices => "No choices returned from Groq"@,
        }
    }

    /// Renders the error as the text the worker prints.
    pub fn message(&self) -> (m: String)
        ensures
            m@ == self.message_spec(),
    {
        match self {
            AiError::ModelLoad(e) => String::from_str("Failed to load Parakeet/Nemotron model: ").concat(
                e.as_str(),
            ),
            AiError::Transcription(e) => String::from_str("Transcription error: ").concat(e.as_str()),
            AiError::Http(e) => e.clone(),
            AiError::Api(body) => String::from_str("Groq API Error: ").concat(body.as_str()),
            AiError::NoChoices => String::from_str("No choices returned from Groq"),
        }
    }
}

/// Each message that carries a text ends with that text, unchanged, after
/// a fixed lead-in of its kind, so that two errors of one kind read the same
/// exactly when they carry the same text; the lead-ins are 40, 21, 0 and 16
/// characters long, and a missing choice reads as a fixed sentence of 29.
pub proof fn messages_end_with_their_text(e: String, f: String)
    ensures
        AiError::ModelLoad(e).message_spec().len() == 40 + e@.len(),
        AiError::ModelLoad(e).message_spec().skip(40) == e@,
        AiError::Transcription(e).message_spec().len() == 21 + e@.len(),
        AiError::Transcription(e).message_spec().skip(21) == e@,
        AiError::Http(e).message_spec() == e@,
        AiError::Api(e).message_spec().len() == 16 + e@.len(),
        AiError::Api(e).message_spec().skip(16) == e@,
        AiError::NoChoices.message_spec().len() == 29,
        AiError::Transcription(e).message_spec() == AiError::Transcription(f).message_spec() <==> e@
            == f@,
        AiError::Api(e).message_spec() == AiError::Api(f).message_spec() <==> e@ == f@,
        AiError::ModelLoad(e).message_spec() == AiError::ModelLoad(f).message_spec() <==> e@
            == f@,
{
    reveal_strlit("Failed to load Parakeet/Nemotron model: ");
    reveal_strlit("Transcription error: ");
    reveal_strlit("Groq API Error: ");
    reveal_strlit("No choices returned from Groq");
    assert(AiError::ModelLoad(e).message_spec().skip(40) =~= e@);
    assert(AiError::Transcription(e).message_spec().skip(21) =~= e@);
    assert(AiError::Api(e).message_spec().skip(16) =~= e@);
    assert(AiError::ModelLoad(f).message_spec().skip(40) =~= f@);
    assert(AiError::Transcription(f).message_spec().skip(21) =~= f@);
    assert(AiError::Api(f).message_spec().skip(16) =~= f@);
}

} // verus!
