use flow_dictation::error::AiError;
use flow_dictation::groq::{
    api_key_or_placeholder, chat_completions_url, first_choice, is_success, polish_request, ChatResponse,
    ExchangeAction, ExchangeEvent, PolishExchange, POLISH_TEMPERATURE_HUNDREDTHS,
};

#[test]
fn request_carries_model_instructions_and_transcript() {
    let req = polish_request("so um I think we should go");
    assert_eq!(req.model, "llama-3.3-70b-versatile");
    assert_eq!(req.temperature_hundredths, 10);
    assert_eq!(POLISH_TEMPERATURE_HUNDREDTHS, 10);
    assert_eq!(req.messages.len(), 2);
    assert_eq!(req.messages[0].role, "system");
    assert_eq!(
        req.messages[0].content,
        "You are an expert dictation assistant. Fix grammar, remove filler words (ums, ahs), and format the text properly. Output ONLY the polished text without quotes or explanations."
    );
    assert_eq!(req.messages[1].role, "user");
    assert_eq!(req.messages[1].content, "so um I think we should go");
}

#[test]
fn endpoint_and_key() {
    assert_eq!(chat_completions_url(), "https://api.groq.com/openai/v1/chat/completions");
    assert_eq!(api_key_or_placeholder(Some("gsk_abc".to_string())), "gsk_abc");
    assert_eq!(api_key_or_placeholder(None), "your_api_key_here");
}

#[test]
fn success_status_range() {
    assert!(!is_success(0));
    assert!(!is_success(199));
    assert!(is_success(200));
    assert!(is_success(204));
    assert!(is_success(299));
    assert!(!is_success(300));
    assert!(!is_success(401));
    assert!(!is_success(500));
    assert!(!is_success(u16::MAX));
}

#[test]
fn first_choice_is_taken() {
    let r = ChatResponse { choices: vec!["one".to_string(), "two".to_string()] };
    assert_eq!(first_choice(r).ok(), Some("one".to_string()));
    let r = ChatResponse { choices: vec![] };
    assert!(matches!(first_choice(r), Err(AiError::NoChoices)));
}

#[test]
fn exchange_success_path() {
    let mut ex = PolishExchange::new();
    assert!(!ex.is_finished());
    assert!(ex.accepts(&ExchangeEvent::Status(200)));
    assert!(!ex.accepts(&ExchangeEvent::ErrorBody(String::new())));
    assert!(matches!(ex.step(ExchangeEvent::Status(200)), ExchangeAction::ReadReply));
    assert!(!ex.accepts(&ExchangeEvent::Status(200)));
    let reply = ChatResponse { choices: vec!["Polished.".to_string(), "Other.".to_string()] };
    match ex.step(ExchangeEvent::Reply(reply)) {
        ExchangeAction::Finish(Ok(t)) => assert_eq!(t, "Polished."),
        _ => panic!("expected the first choice"),
    }
    assert!(ex.is_finished());
    assert!(!ex.accepts(&ExchangeEvent::Failed("late".to_string())));
}

#[test]
fn exchange_without_choices() {
    let mut ex = PolishExchange::new();
    ex.step(ExchangeEvent::Status(201));
    let action = ex.step(ExchangeEvent::Reply(ChatResponse { choices: vec![] }));
    match action {
        ExchangeAction::Finish(Err(e)) => assert_eq!(e.message(), "No choices returned from Groq"),
        _ => panic!("expected NoChoices"),
    }
}

#[test]
fn exchange_error_status_reports_body() {
    let mut ex = PolishExchange::new();
    assert!(matches!(ex.step(ExchangeEvent::Status(401)), ExchangeAction::ReadErrorBody));
    assert!(!ex.accepts(&ExchangeEvent::Reply(ChatResponse { choices: vec![] })));
    match ex.step(ExchangeEvent::ErrorBody("invalid api key".to_string())) {
        ExchangeAction::Finish(Err(AiError::Api(body))) => assert_eq!(body, "invalid api key"),
        _ => panic!("expected the API error"),
    }
    assert!(ex.is_finished());
}

#[test]
fn exchange_client_failure_ends_it() {
    let mut ex = PolishExchange::new();
    match ex.step(ExchangeEvent::Failed("dns error".to_string())) {
        ExchangeAction::Finish(Err(e)) => assert_eq!(e.message(), "dns error"),
        _ => panic!("expected the client error"),
    }
    assert!(ex.is_finished());
    let mut ex = PolishExchange::new();
    ex.step(ExchangeEvent::Status(200));
    assert!(matches!(
        ex.step(ExchangeEvent::Failed("error decoding response body".to_string())),
        ExchangeAction::Finish(Err(AiError::Http(_)))
    ));
}
