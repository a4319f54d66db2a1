//! The summarisation client: what is sent to the text-generation endpoint,
//! and what is read out of its answer. Sending is left to the caller.

use vstd::prelude::*;

verus! {

/// A JSON document of `serde_json`.
#[verifier::external_type_specification]
#[verifier::external_body]
pub struct ExValue(serde_json::Value);

/// The error with which `serde_json` refuses a text.
#[verifier::external_type_specification]
#[verifier::external_body]
pub struct ExJsonError(serde_json::Error);

/// What a JSON document holds, as far as the client looks into it. Numbers
/// are not told apart.
pub enum Json {
    /// The value `null`.
    Null,
    /// A truth value.
    Bool(bool),
    /// A number, whichever it is.
    Number,
    /// A string, by its characters.
    Text(Seq<char>),
    /// An array, by its elements.
    Array(Seq<Json>),
    /// An object: its members by their names.
    Object(Map<Seq<char>, Json>),
}

impl Json {
    /// The member `key` of an object; `Null` where there is no such member,
    /// or no object.
    pub open spec fn member(self, key: Seq<char>) -> Json {
        match self {
            Json::Object(members) => if members.dom().contains(key) {
                members[key]
            } else {
                Json::Null
            },
            _ => Json::Null,
        }
    }

    /// The element at `index` of an array; `Null` where there is no such
    /// element, or no array.
    pub open spec fn element(self, index: int) -> Json {
        match self {
            Json::Array(elements) => if 0 <= index < elements.len() {
                elements[index]
            } else {
                Json::Null
            },
            _ => Json::Null,
        }
    }

    /// The characters of a string, and nothing for any other document.
    pub open spec fn text(self) -> Option<Seq<char>> {
        match self {
            Json::Text(t) => Some(t),
            _ => None,
        }
    }
}

/// What the document `value` holds.
pub uninterp spec fn json_of(value: serde_json::Value) -> Json;

/// What `serde_json::from_slice` reads out of `bytes`: the document that they
/// spell, or nothing where they spell none.
pub uninterp spec fn parsed_json(bytes: Seq<u8>) -> Option<Json>;

/// `serde_json::from_slice`, asked for a `Value`: the document that `body`
/// spells, or the error with which the parser refuses `body`.
#[verifier::external_body]
fn parse_json(body: &[u8]) -> (document: Result<serde_json::Value, serde_json::Error>)
    ensures
        match document {
            Ok(value) => parsed_json(body@) == Some(json_of(value)),
            Err(_) => parsed_json(body@) is None,
        },
{
    serde_json::from_slice::<serde_json::Value>(body)
}

/// Indexing a `serde_json::Value` by a string: the member of that name where
/// the value is an object that has one, and `Null` in every other case.
#[verifier::external_body]
fn member_of<'a>(value: &'a serde_json::Value, key: &str) -> (member: &'a serde_json::Value)
    ensures
        json_of(*member) == json_of(*value).member(key@),
{
    &value[key]
}

/// Indexing a `serde_json::Value` by a number: the element at that position
/// where the value is an array that has one, and `Null` in every other case.
#[verifier::external_body]
fn element_of<'a>(value: &'a serde_json::Value, index: usize) -> (element: &'a serde_json::Value)
    ensures
        json_of(*element) == json_of(*value).element(index as int),
{
    &value[index]
}

/// `serde_json::Value::as_str`: the characters of the value where it is a
/// string, and nothing where it is not.
#[verifier::external_body]
fn text_of<'a>(value: &'a serde_json::Value) -> (text: Option<&'a str>)
    ensures
        match text {
            Some(t) => json_of(*value) == Json::Text(t@),
            None => !(json_of(*value) is Text),
        },
{
    value.as_str()
}

/// The address of the endpoint.
pub const ENDPOINT: &'static str = "https://api.openai.com/v1/chat/completions";

/// The model that is asked.
pub const MODEL: &'static str = "gpt-4";

/// Who speaks in a message to the endpoint.
#[derive(Clone, Copy, Debug, PartialEq, Eq, Structural)]
pub enum Role {
    /// The voice that sets the endpoint's role.
    System,
    /// The user.
    User,
}

impl Role {
    /// The name of the role in a request.
    pub open spec fn name_text(self) -> Seq<char> {
        match self {
            Role::System => "system"@,
            Role::User => "user"@,
        }
    }

    /// The name of the role in a request.
    pub fn name(self) -> (text: &'static str)
        ensures
            text@ == self.name_text(),
    {
        match self {
            Role::System => "system",
            Role::User => "user",
        }
    }
}

/// One message of a request.
pub struct Message {
    /// Who speaks.
    pub role: Role,
    /// What is said.
    pub content: String,
}

/// What a `Message` holds, as a sequence of characters.
pub struct MessageView {
    pub role: Role,
    pub content: Seq<char>,
}

impl View for Message {
    type V = MessageView;

    open spec fn view(&self) -> MessageView {
        MessageView { role: self.role, content: self.content@ }
    }
}

/// The views of the messages of a vector.
pub open spec fn message_views(messages: Seq<Message>) -> Seq<MessageView> {
    messages.map_values(|m: Message| m@)
}

/// One request to the endpoint.
pub struct CompletionRequest {
    /// The model that is to answer.
    pub model: String,
    /// The messages, in the order in which they are sent.
    pub messages: Vec<Message>,
    /// The most tokens that the answer may have.
    pub max_tokens: u32,
}

/// What a `CompletionRequest` holds, as sequences of characters.
pub struct CompletionRequestView {
    pub model: Seq<char>,
    pub messages: Seq<MessageView>,
    pub max_tokens: u32,
}

impl View for CompletionRequest {
    type V = CompletionRequestView;

    open spec fn view(&self) -> CompletionRequestView {
        CompletionRequestView {
            model: self.model@,
            messages: message_views(self.messages@),
            max_tokens: self.max_tokens,
        }
    }
}

/// The prompt that asks about `content`: the user's instruction and the
/// content, with an empty line between them.
pub open spec fn prompt_text(user: Seq<char>, content: Seq<char>) -> Seq<char> {
    user + "\n\n"@ + content
}

/// The request that asks for a summary of `content`: the instruction that
/// sets the endpoint's role is the first message, and the prompt the second.
pub open spec fn completion_request(
    system: Seq<char>,
    user: Seq<char>,
    content: Seq<char>,
    max_tokens: u32,
) -> CompletionRequestView {
    CompletionRequestView {
        model: MODEL@,
        messages: seq![
            MessageView { role: Role::System, content: system },
            MessageView { role: Role::User, content: prompt_text(user, content) },
        ],
        max_tokens,
    }
}

/// Why the endpoint gave no summary.
pub enum SummarizeError {
    /// The request could not be sent; the cause as the sender words it.
    NotSent(String),
    /// The answer is no JSON document; the cause as the parser words it.
    Unreadable(String),
    /// The answer is a document without the text of a completion.
    NoContent,
}

/// The text that describes an error to the user.
pub open spec fn summarize_error_message(error: SummarizeError) -> Seq<char> {
    match error {
        SummarizeError::NotSent(cause) => "Failed to send request: "@ + cause@,
        SummarizeError::Unreadable(cause) => "Failed to read response: "@ + cause@,
        SummarizeError::NoContent => "Failed to extract content"@,
    }
}

impl SummarizeError {
    /// Describes the error to the user.
    pub fn message(&self) -> (text: String)
        ensures
            text@ == summarize_error_message(*self),
    {
        match self {
            SummarizeError::NotSent(cause) => String::from_str("Failed to send request: ").concat(
                cause.as_str(),
            ),
            SummarizeError::Unreadable(cause) => String::from_str(
                "Failed to read response: ",
            ).concat(cause.as_str()),
            SummarizeError::NoContent => String::from_str("Failed to extract content"),
        }
    }
}

/// The text of the completion in the endpoint's answer: the string at
/// `choices[0].message.content`.
pub open spec fn completion_text(document: Json) -> Option<Seq<char>> {
    document.member("choices"@).element(0).member("message"@).member("content"@).text()
}

/// What the client makes of an answer that spells `document`, or of one that
/// spells no document: the text of the completion where there is one, and
/// else the kind of error.
pub open spec fn reading_is(
    document: Option<Json>,
    reading: Result<String, SummarizeError>,
) -> bool {
    match document {
        None => reading matches Err(SummarizeError::Unreadable(_)),
        Some(d) => match completion_text(d) {
            Some(text) => reading matches Ok(t) && t@ == text,
            None => reading matches Err(SummarizeError::NoContent),
        },
    }
}

/// The client, with the credential that it presents to the endpoint.
pub struct SummarizationClient {
    api_key: String,
}

impl SummarizationClient {
    /// The credential that the client presents.
    pub closed spec fn key(&self) -> Seq<char> {
        self.api_key@
    }

    /// A client that presents `api_key`.
    pub fn new(api_key: String) -> (client: SummarizationClient)
        ensures
            client.key() == api_key@,
    {
        SummarizationClient { api_key }
    }

    /// The value of the `Authorization` header of every request.
    pub fn authorization(&self) -> (header: String)
        ensures
            header@ == "Bearer "@ + self.key(),
    {
        String::from_str("Bearer ").concat(self.api_key.as_str())
    }
}

/// The request that asks for a summary of `content` in at most `max_tokens`
/// tokens, under the two instructions given.
pub fn build_request(system_prompt: &str, user_prompt: &str, content: &str, max_tokens: u32) -> (request:
    CompletionRequest)
    ensures
        request@ == completion_request(system_prompt@, user_prompt@, content@, max_tokens),
{
    let prompt = String::from_str(user_prompt).concat("\n\n").concat(content);
    let mut messages: Vec<Message> = Vec::new();
    messages.push(Message { role: Role::System, content: String::from_str(system_prompt) });
    messages.push(Message { role: Role::User, content: prompt });
    assert(message_views(messages@) =~= seq![
        MessageView { role: Role::System, content: system_prompt@ },
        MessageView { role: Role::User, content: prompt_text(user_prompt@, content@) },
    ]);
    CompletionRequest { model: String::from_str(MODEL), messages, max_tokens }
}

/// Takes the text of the completion out of the endpoint's answer.
pub fn extract_content(response: &serde_json::Value) -> (content: Result<String, SummarizeError>)
    ensures
        reading_is(Some(json_of(*response)), content),
{
    let choices = member_of(response, "choices");
    let first = element_of(choices, 0);
    let message = member_of(first, "message");
    let content = member_of(message, "content");
    match text_of(content) {
        Some(text) => Ok(String::from_str(text)),
        None => Err(SummarizeError::NoContent),
    }
}

/// Reads the body of the endpoint's answer: the text of the completion where
/// the body is a JSON document that holds one.
pub fn parse_response(body: &[u8]) -> (content: Result<String, SummarizeError>)
    ensures
        reading_is(parsed_json(body@), content),
{
    match parse_json(body) {
        Ok(document) => extract_content(&document),
        Err(error) => Err(SummarizeError::Unreadable(error.to_string())),
    }
}

} // verus!
