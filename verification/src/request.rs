//! The request: credentials, headers and the chat message that carries the
//! prompt, as plain values for a transport to send.

use crate::error::ValidationError;
use crate::prompt::{build_prompt, finding_views, prompt_for, FindingView};
use vstd::prelude::*;
use vstd::string::StringExecFns;

verus! {

/// The credentials of an account with the model's provider.
pub struct OpenAICreds {
    pub api_key: String,
    pub org_id: Option<String>,
    pub project_id: Option<String>,
}

/// Credentials as the contracts see them.
pub struct CredsView {
    pub api_key: Seq<char>,
    pub org_id: Option<Seq<char>>,
    pub project_id: Option<Seq<char>>,
}

/// The characters of a text that may be absent.
pub open spec fn optional_text(text: Option<String>) -> Option<Seq<char>> {
    match text {
        Some(text) => Some(text@),
        None => None,
    }
}

impl View for OpenAICreds {
    type V = CredsView;

    open spec fn view(&self) -> CredsView {
        CredsView {
            api_key: self.api_key@,
            org_id: optional_text(self.org_id),
            project_id: optional_text(self.project_id),
        }
    }
}

/// One request header.
#[derive(Clone, Debug, PartialEq, Eq)]
pub struct Header {
    pub name: String,
    pub value: String,
}

/// A header as the contracts see it.
pub struct HeaderView {
    pub name: Seq<char>,
    pub value: Seq<char>,
}

impl View for Header {
    type V = HeaderView;

    open spec fn view(&self) -> HeaderView {
        HeaderView { name: self.name@, value: self.value@ }
    }
}

/// The views of a list of headers, in order.
pub open spec fn header_views(headers: Seq<Header>) -> Seq<HeaderView> {
    headers.map_values(|header: Header| header@)
}

/// One message of a chat.
#[derive(Clone, Debug, PartialEq, Eq)]
pub struct Message {
    pub role: String,
    pub content: String,
}

/// A message as the contracts see it.
pub struct MessageView {
    pub role: Seq<char>,
    pub content: Seq<char>,
}

impl View for Message {
    type V = MessageView;

    open spec fn view(&self) -> MessageView {
        MessageView { role: self.role@, content: self.content@ }
    }
}

/// The body of a chat completion request.
#[derive(Clone, Debug, PartialEq, Eq)]
pub struct ChatRequest {
    pub model: String,
    pub messages: Vec<Message>,
}

/// A request body as the contracts see it.
pub struct ChatRequestView {
    pub model: Seq<char>,
    pub messages: Seq<MessageView>,
}

impl View for ChatRequest {
    type V = ChatRequestView;

    open spec fn view(&self) -> ChatRequestView {
        ChatRequestView {
            model: self.model@,
            messages: self.messages@.map_values(|message: Message| message@),
        }
    }
}

/// One call of the chat completion endpoint: a POST of `body`, encoded as
/// JSON, to `url` with `headers` in the order given.
#[derive(Clone, Debug, PartialEq, Eq)]
pub struct ApiCall {
    pub url: String,
    pub headers: Vec<Header>,
    pub body: ChatRequest,
}

/// A call as the contracts see it.
pub struct ApiCallView {
    pub url: Seq<char>,
    pub headers: Seq<HeaderView>,
    pub body: ChatRequestView,
}

impl View for ApiCall {
    type V = ApiCallView;

    open spec fn view(&self) -> ApiCallView {
        ApiCallView { url: self.url@, headers: header_views(self.headers@), body: self.body@ }
    }
}

/// The header that carries a credential which may be absent: one header
/// when it is present, none when it is not.
pub open spec fn optional_header(name: Seq<char>, value: Option<Seq<char>>) -> Seq<HeaderView> {
    match value {
        Some(value) => seq![HeaderView { name, value }],
        None => Seq::empty(),
    }
}

/// The headers of a call made with `creds`: the content type, the API key
/// as a bearer token, then the organization and the project where the
/// credentials name them.
pub open spec fn headers_for(creds: CredsView) -> Seq<HeaderView> {
    seq![
        HeaderView { name: "Content-Type"@, value: "application/json"@ },
        HeaderView { name: "Authorization"@, value: "Bearer "@ + creds.api_key },
    ] + optional_header("OpenAI-Organization"@, creds.org_id) + optional_header(
        "OpenAI-Project"@,
        creds.project_id,
    )
}

/// The request body that asks `prompt` of the model: one message, from the
/// user.
pub open spec fn chat_request_for(prompt: Seq<char>) -> ChatRequestView {
    ChatRequestView {
        model: "gpt-3.5-turbo"@,
        messages: seq![MessageView { role: "user"@, content: prompt }],
    }
}

/// The call that asks `prompt` of the model on behalf of `creds`.
pub open spec fn call_for(creds: CredsView, prompt: Seq<char>) -> ApiCallView {
    ApiCallView {
        url: "https://api.openai.com/v1/chat/completions"@,
        headers: headers_for(creds),
        body: chat_request_for(prompt),
    }
}

/// The call that validates the findings of a file, or `UnsupportedLanguage`.
pub open spec fn request_for(
    creds: CredsView,
    findings: Seq<FindingView>,
    source: Seq<char>,
    language: Seq<char>,
    all: bool,
) -> Result<ApiCallView, ValidationError> {
    match prompt_for(language, source, findings, all) {
        Ok(prompt) => Ok(call_for(creds, prompt)),
        Err(error) => Err(error),
    }
}

/// Adds the header `name` with the value of a credential, if that
/// credential is present.
fn push_optional_header(headers: &mut Vec<Header>, name: &str, value: &Option<String>)
    ensures
        header_views(final(headers)@) == header_views(old(headers)@) + optional_header(
            name@,
            optional_text(*value),
        ),
{
    match value {
        Some(value) => {
            headers.push(Header { name: String::from_str(name), value: value.clone() });
            assert(header_views(headers@) =~= header_views(old(headers)@) + optional_header(
                name@,
                Some(value@),
            ));
        },
        None => {
            assert(header_views(headers@) =~= header_views(old(headers)@) + optional_header(
                name@,
                None,
            ));
        },
    }
}

/// The headers of a call made with `creds`.
pub fn request_headers(creds: &OpenAICreds) -> (headers: Vec<Header>)
    ensures
        header_views(headers@) == headers_for(creds@),
{
    let mut bearer = String::from_str("Bearer ");
    bearer.append(creds.api_key.as_str());
    let mut headers: Vec<Header> = Vec::new();
    headers.push(
        Header {
            name: String::from_str("Content-Type"),
            value: String::from_str("application/json"),
        },
    );
    headers.push(Header { name: String::from_str("Authorization"), value: bearer });
    assert(header_views(headers@) =~= seq![
        HeaderView { name: "Content-Type"@, value: "application/json"@ },
        HeaderView { name: "Authorization"@, value: "Bearer "@ + creds.api_key@ },
    ]);
    push_optional_header(&mut headers, "OpenAI-Organization", &creds.org_id);
    push_optional_header(&mut headers, "OpenAI-Project", &creds.project_id);
    headers
}

/// The request body that asks `prompt` of the model.
pub fn chat_request(prompt: String) -> (body: ChatRequest)
    ensures
        body@ == chat_request_for(prompt@),
{
    let mut messages: Vec<Message> = Vec::new();
    messages.push(Message { role: String::from_str("user"), content: prompt });
    let body = ChatRequest { model: String::from_str("gpt-3.5-turbo"), messages };
    assert(body@.messages =~= chat_request_for(prompt@).messages);
    body
}

/// The call that asks `prompt` of the model on behalf of `creds`.
pub fn build_call(creds: &OpenAICreds, prompt: String) -> (call: ApiCall)
    ensures
        call@ == call_for(creds@, prompt@),
{
    ApiCall {
        url: String::from_str("https://api.openai.com/v1/chat/completions"),
        headers: request_headers(creds),
        body: chat_request(prompt),
    }
}

/// The call that validates the findings of a file. It fails, with
/// `UnsupportedLanguage`, on a language tag that is not supported, and on
/// no other input.
pub fn prepare_request(
    creds: &OpenAICreds,
    findings: &[(usize, String, String, String)],
    file_content: &str,
    language: &str,
    all: bool,
) -> (request: Result<ApiCall, ValidationError>)
    ensures
        request_for(creds@, finding_views(findings@), file_content@, language@, all)
            == match request {
            Ok(call) => Ok(call@),
            Err(error) => Err(error),
        },
{
    match build_prompt(findings, file_content, language, all) {
        Ok(prompt) => Ok(build_call(creds, prompt)),
        Err(error) => Err(error),
    }
}

/// A language tag other than `Rust` and `Solidity-Ethereum` gets no call:
/// the request fails with `UnsupportedLanguage`, whatever the credentials,
/// the findings and the file are.
pub proof fn lemma_unsupported_language_gets_no_call(
    creds: CredsView,
    findings: Seq<FindingView>,
    source: Seq<char>,
    language: Seq<char>,
    all: bool,
)
    requires
        language != "Rust"@,
        language != "Solidity-Ethereum"@,
    ensures
        request_for(creds, findings, source, language, all) == Err::<
            ApiCallView,
            ValidationError,
        >(ValidationError::UnsupportedLanguage),
{
}

/// An absent credential leaves no header behind: a call made with the API
/// key alone carries the content type and the bearer token, and nothing
/// else.
pub proof fn lemma_absent_credentials_leave_no_header(api_key: Seq<char>)
    ensures
        headers_for(CredsView { api_key, org_id: None, project_id: None }) == seq![
            HeaderView { name: "Content-Type"@, value: "application/json"@ },
            HeaderView { name: "Authorization"@, value: "Bearer "@ + api_key },
        ],
{
    let creds = CredsView { api_key, org_id: None, project_id: None };
    assert(headers_for(creds) =~= seq![
        HeaderView { name: "Content-Type"@, value: "application/json"@ },
        HeaderView { name: "Authorization"@, value: "Bearer "@ + api_key },
    ]);
}

} // verus!
