//! The response: what the transport reports of a call, and the verdict or
//! the error that follows from it.

use crate::error::ValidationError;
use crate::verdict::{analyze_response_text, verdict_of};
use vstd::prelude::*;
use vstd::string::StringExecFns;

verus! {

/// The content of a reply message.
#[derive(Clone, Debug, PartialEq, Eq)]
pub struct MessageContent {
    pub content: String,
}

/// One completion that the model offers.
#[derive(Clone, Debug, PartialEq, Eq)]
pub struct Choice {
    pub message: MessageContent,
}

/// The body of a chat completion response.
#[derive(Clone, Debug, PartialEq, Eq)]
pub struct ChatResponse {
    pub choices: Vec<Choice>,
}

impl View for ChatResponse {
    /// The contents of the choices, in order.
    type V = Seq<Seq<char>>;

    open spec fn view(&self) -> Seq<Seq<char>> {
        self.choices@.map_values(|choice: Choice| choice.message.content@)
    }
}

/// What the transport reports of one call.
#[derive(Clone, Debug, PartialEq, Eq)]
pub enum Outcome {
    /// The request could not be put into its wire form, so nothing was
    /// sent.
    NotEncoded,
    /// The request was sent and no response arrived.
    NoResponse,
    /// A response arrived with this status code. `body` is its decoded
    /// body, or `None` where the body could not be decoded. It is read
    /// only where the status is a success.
    Response { status: u16, body: Option<ChatResponse> },
}

/// An outcome as the contracts see it.
pub enum OutcomeView {
    NotEncoded,
    NoResponse,
    Response { status: u16, body: Option<Seq<Seq<char>>> },
}

impl View for Outcome {
    type V = OutcomeView;

    open spec fn view(&self) -> OutcomeView {
        match *self {
            Outcome::NotEncoded => OutcomeView::NotEncoded,
            Outcome::NoResponse => OutcomeView::NoResponse,
            Outcome::Response { status, body } => OutcomeView::Response {
                status,
                body: match body {
                    Some(response) => Some(response@),
                    None => None,
                },
            },
        }
    }
}

/// A status code of the success class: 200 to 299.
pub open spec fn is_success(status: u16) -> bool {
    200 <= status < 300
}

/// The text of a reply: the content of the first choice, or the empty text
/// where there is no choice.
pub open spec fn reply_text(contents: Seq<Seq<char>>) -> Seq<char> {
    if contents.len() == 0 {
        Seq::empty()
    } else {
        contents[0]
    }
}

/// What a validation ends in, given what the transport reports: a verdict
/// with an empty explanation, or an error.
pub open spec fn conclusion(outcome: OutcomeView) -> Result<
    (Seq<char>, Seq<char>),
    ValidationError,
> {
    match outcome {
        OutcomeView::NotEncoded => Err(ValidationError::Serialization),
        OutcomeView::NoResponse => Err(ValidationError::Transport),
        OutcomeView::Response { status, body } => if !is_success(status) {
            Err(ValidationError::Transport)
        } else {
            match body {
                Some(contents) => Ok((verdict_of(reply_text(contents)), Seq::empty())),
                None => Err(ValidationError::Serialization),
            }
        },
    }
}

/// Whether a status code is of the success class, so that the body of the
/// response is to be read.
pub fn status_is_success(status: u16) -> (success: bool)
    ensures
        success == is_success(status),
{
    200 <= status && status < 300
}

/// The text of a reply: the content of its first choice, or the empty text
/// where it holds no choice.
pub fn first_choice_text(response: &ChatResponse) -> (text: &str)
    ensures
        text@ == reply_text(response@),
{
    if response.choices.len() == 0 {
        let text = "";
        proof {
            reveal_strlit("");
        }
        assert(text@ =~= Seq::<char>::empty());
        text
    } else {
        response.choices[0].message.content.as_str()
    }
}

/// The verdict on a decoded response, with the explanation, which is
/// always empty.
pub fn verdict_from_response(response: &ChatResponse) -> (verdict: (String, String))
    ensures
        verdict.0@ == verdict_of(reply_text(response@)),
        verdict.1@ == Seq::<char>::empty(),
{
    let status = analyze_response_text(first_choice_text(response));
    (String::from_str(status), String::new())
}

/// What a validation ends in, given what the transport reports of the call.
pub fn conclude(outcome: &Outcome) -> (result: Result<(String, String), ValidationError>)
    ensures
        conclusion(outcome@) == match result {
            Ok(verdict) => Ok((verdict.0@, verdict.1@)),
            Err(error) => Err(error),
        },
{
    match outcome {
        Outcome::NotEncoded => Err(ValidationError::Serialization),
        Outcome::NoResponse => Err(ValidationError::Transport),
        Outcome::Response { status, body } => {
            if !status_is_success(*status) {
                Err(ValidationError::Transport)
            } else {
                match body {
                    Some(response) => Ok(verdict_from_response(response)),
                    None => Err(ValidationError::Serialization),
                }
            }
        },
    }
}

} // verus!
