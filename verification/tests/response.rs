use gpt_validator::response::{
    first_choice_text, status_is_success, verdict_from_response, Choice, MessageContent,
};
use gpt_validator::{conclude, ChatResponse, Outcome, ValidationError};

fn response(contents: &[&str]) -> ChatResponse {
    ChatResponse {
        choices: contents
            .iter()
            .map(|c| Choice { message: MessageContent { content: c.to_string() } })
            .collect(),
    }
}

fn verdict(status: &str) -> Result<(String, String), ValidationError> {
    Ok((status.to_string(), String::new()))
}

#[test]
fn response_without_choices_reads_as_empty_and_false_positive() {
    let empty = response(&[]);
    assert_eq!(first_choice_text(&empty), "");
    assert_eq!(
        verdict_from_response(&empty),
        ("False positive".to_string(), String::new())
    );
    assert_eq!(
        conclude(&Outcome::Response { status: 200, body: Some(empty) }),
        verdict("False positive")
    );
}

#[test]
fn first_choice_is_the_one_that_is_read() {
    let two = response(&["This is a real bug.", "It is a false positive."]);
    assert_eq!(first_choice_text(&two), "This is a real bug.");
    assert_eq!(verdict_from_response(&two), ("Valid".to_string(), String::new()));
    let swapped = response(&["It is a false positive.", "This is a real bug."]);
    assert_eq!(first_choice_text(&swapped), "It is a false positive.");
    assert_eq!(
        verdict_from_response(&swapped),
        ("False positive".to_string(), String::new())
    );
}

#[test]
fn first_choice_with_empty_content_is_false_positive() {
    let blank = response(&["", "This is a real bug."]);
    assert_eq!(first_choice_text(&blank), "");
    assert_eq!(
        conclude(&Outcome::Response { status: 200, body: Some(blank) }),
        verdict("False positive")
    );
}

#[test]
fn explanation_is_always_empty() {
    for content in ["", "x", "This is a classic SQL injection vulnerability."] {
        let (_, explanation) = verdict_from_response(&response(&[content]));
        assert_eq!(explanation, "");
    }
}

#[test]
fn success_statuses_are_200_to_299() {
    assert!(!status_is_success(0));
    assert!(!status_is_success(100));
    assert!(!status_is_success(199));
    assert!(status_is_success(200));
    assert!(status_is_success(201));
    assert!(status_is_success(204));
    assert!(status_is_success(299));
    assert!(!status_is_success(300));
    assert!(!status_is_success(404));
    assert!(!status_is_success(500));
    assert!(!status_is_success(u16::MAX));
}

#[test]
fn valid_reply_gives_valid_verdict() {
    let body = response(&["This is a classic SQL injection vulnerability."]);
    assert_eq!(
        conclude(&Outcome::Response { status: 200, body: Some(body) }),
        verdict("Valid")
    );
}

#[test]
fn false_positive_reply_gives_false_positive_verdict() {
    let body = response(&["This does not appear to be vulnerable because input is sanitized."]);
    assert_eq!(
        conclude(&Outcome::Response { status: 299, body: Some(body) }),
        verdict("False positive")
    );
}

#[test]
fn error_status_is_a_transport_error() {
    for status in [199u16, 300, 301, 400, 401, 404, 429, 500, 503] {
        assert_eq!(
            conclude(&Outcome::Response { status, body: None }),
            Err(ValidationError::Transport),
            "{}",
            status
        );
    }
}

#[test]
fn error_status_wins_over_a_readable_body() {
    let body = response(&["This is a classic SQL injection vulnerability."]);
    assert_eq!(
        conclude(&Outcome::Response { status: 500, body: Some(body) }),
        Err(ValidationError::Transport)
    );
}

#[test]
fn undecodable_body_is_a_serialization_error() {
    assert_eq!(
        conclude(&Outcome::Response { status: 200, body: None }),
        Err(ValidationError::Serialization)
    );
}

#[test]
fn unencodable_request_is_a_serialization_error() {
    assert_eq!(conclude(&Outcome::NotEncoded), Err(ValidationError::Serialization));
}

#[test]
fn missing_response_is_a_transport_error() {
    assert_eq!(conclude(&Outcome::NoResponse), Err(ValidationError::Transport));
}

#[test]
fn errors_have_their_wording() {
    assert_eq!(ValidationError::UnsupportedLanguage.message(), "Unsupported language");
    assert_eq!(
        ValidationError::Transport.message(),
        "Failed to get a valid response from OpenAI"
    );
    assert_eq!(
        ValidationError::Serialization.message(),
        "Failed to encode the request or decode the response"
    );
}
