use vstd::prelude::*;
use vstd::string::StringExecFns;

use crate::event::{AppEvent, AppEventModel};
use crate::text::string_from_chars;

verus! {

/// The fixed instruction that makes the model a generator of single-line
/// shell commands.
pub const IMAGINE_INSTRUCTION: &'static str = "You are system designed to emit bash commands, fulfilling the user's request. To achieve your goal, emit a single line command and only that command to achieve the user's request. When possible, use verbose command switches, to convey intent. You can safely assume whatever programs needed to achieve your goal are avaiable to you, such as jq ffmpeg, etc. When emitting your command, emit only the command, with no markdown formatting\n";

/// The fixed instruction that makes the model a safety classifier whose
/// answer leads with `Y` or `N`.
pub const INSPECT_INSTRUCTION: &'static str = "The user is going to pass in a command. Your role is to inspect this for safety, evaluating whether or not the command could cause unexpected harm. Unexpected harm may be deleting or removing more files than intended. Your response should first lead with a Y for safe or N for unsafe. Your analysis should be concise, focussing on any caveats first and foremost";

/// Most tokens that a completion may produce.
pub const MAX_TOKENS: u32 = 1000;

/// Sampling temperature, in hundredths.
pub const TEMPERATURE_PERCENT: u32 = 70;

/// One role-tagged message of a chat exchange.
#[derive(Clone, Debug)]
pub struct Message {
    pub role: String,
    pub content: String,
}

/// A chat-completion request.
#[derive(Clone, Debug)]
pub struct CompletionRequest {
    pub model: String,
    pub messages: Vec<Message>,
    pub max_tokens: Option<u32>,
    /// The sampling temperature in hundredths (70 stands for 0.7).
    pub temperature_percent: Option<u32>,
}

/// One choice of a completion response.
#[derive(Clone, Debug)]
pub struct Choice {
    pub message: Message,
}

/// A chat-completion response.
#[derive(Clone, Debug)]
pub struct CompletionResponse {
    pub choices: Vec<Choice>,
}

/// Why a completion exchange failed.
#[derive(Clone, Debug)]
pub enum CompletionFailure {
    /// The transport failed; the text describes how.
    Network(String),
    /// The service answered with a status outside 2xx, and this body.
    HttpStatus(u16, String),
    /// The response body could not be read as a completion response.
    Decode(String),
}

/// Configuration of the completion service: credential, base address,
/// model, and the optional path hints for command generation.
#[derive(Clone, Debug)]
pub struct InferenceEngine {
    api_key: String,
    base_url: String,
    model_ident: String,
    input: Option<String>,
    output: Option<String>,
}

/// A message as (role, content).
pub open spec fn message_model(m: Message) -> (Seq<char>, Seq<char>) {
    (m.role@, m.content@)
}

/// The messages of a request, as (role, content) pairs.
pub open spec fn messages_model(r: CompletionRequest) -> Seq<(Seq<char>, Seq<char>)> {
    r.messages@.map_values(|m: Message| message_model(m))
}

/// A two-message exchange: a system instruction, then the user's text.
pub open spec fn exchange(system: Seq<char>, user: Seq<char>) -> Seq<(Seq<char>, Seq<char>)> {
    seq![("system"@, system), ("user"@, user)]
}

/// The text of an optional string.
pub open spec fn opt_text(o: Option<String>) -> Option<Seq<char>> {
    match o {
        Some(s) => Some(s@),
        None => None,
    }
}

/// A hint line `<lead><path>\n`, or nothing without a path.
pub open spec fn hint(lead: Seq<char>, path: Option<Seq<char>>) -> Seq<char> {
    match path {
        Some(p) => lead + p + "\n"@,
        None => Seq::empty(),
    }
}

/// The command-generation instruction, followed by the input and the output
/// path hints that are known.
pub open spec fn imagine_prompt(input: Option<Seq<char>>, output: Option<Seq<char>>) -> Seq<char> {
    IMAGINE_INSTRUCTION@ + hint("An input path has been provided, it is "@, input) + hint(
        "An output path has been provided, it is "@,
        output,
    )
}

/// The decimal digit `d`.
pub open spec fn digit_char(d: nat) -> char {
    if d == 0 {
        '0'
    } else if d == 1 {
        '1'
    } else if d == 2 {
        '2'
    } else if d == 3 {
        '3'
    } else if d == 4 {
        '4'
    } else if d == 5 {
        '5'
    } else if d == 6 {
        '6'
    } else if d == 7 {
        '7'
    } else if d == 8 {
        '8'
    } else {
        '9'
    }
}

/// `n` in decimal, without leading zeros.
pub open spec fn decimal(n: nat) -> Seq<char>
    decreases n,
{
    if n < 10 {
        seq![digit_char(n)]
    } else {
        decimal(n / 10).push(digit_char(n % 10))
    }
}

/// The message for a response whose status is not a success.
pub open spec fn status_error_text(status: u16, body: Seq<char>) -> Seq<char> {
    "API request failed with status "@ + decimal(status as nat) + ": "@ + body
}

/// The message that describes a failure.
pub open spec fn failure_text(f: CompletionFailure) -> Seq<char> {
    match f {
        CompletionFailure::Network(m) => m@,
        CompletionFailure::HttpStatus(status, body) => status_error_text(status, body@),
        CompletionFailure::Decode(m) => m@,
    }
}

/// The content of the first choice, if there is one.
pub open spec fn first_content(r: CompletionResponse) -> Option<Seq<char>> {
    if r.choices@.len() > 0 {
        Some(r.choices@[0].message.content@)
    } else {
        None
    }
}

/// The event that a finished completion posts.
pub open spec fn completion_event_of(o: Result<CompletionResponse, CompletionFailure>) -> AppEventModel {
    match o {
        Ok(r) => match first_content(r) {
            Some(c) => AppEventModel::CompletionResponse(c),
            None => AppEventModel::CompletionError("No response received"@),
        },
        Err(f) => AppEventModel::CompletionError(failure_text(f)),
    }
}

/// The event that a finished safety check posts.
pub open spec fn safety_check_event_of(o: Result<CompletionResponse, CompletionFailure>) -> AppEventModel {
    match o {
        Ok(r) => match first_content(r) {
            Some(c) => AppEventModel::SafetyCheckResponse(c),
            None => AppEventModel::SafetyCheckError("No safety check response received"@),
        },
        Err(f) => AppEventModel::SafetyCheckError(failure_text(f)),
    }
}

fn digit(d: u16) -> (c: char)
    requires
        d < 10,
    ensures
        c == digit_char(d as nat),
{
    if d == 0 {
        '0'
    } else if d == 1 {
        '1'
    } else if d == 2 {
        '2'
    } else if d == 3 {
        '3'
    } else if d == 4 {
        '4'
    } else if d == 5 {
        '5'
    } else if d == 6 {
        '6'
    } else if d == 7 {
        '7'
    } else if d == 8 {
        '8'
    } else {
        '9'
    }
}

fn push_decimal(n: u16, out: &mut Vec<char>)
    ensures
        final(out)@ == old(out)@ + decimal(n as nat),
    decreases n,
{
    if n >= 10 {
        push_decimal(n / 10, out);
    }
    out.push(digit(n % 10));
    proof {
        if n >= 10 {
            assert(decimal(n as nat) == decimal((n / 10) as nat).push(digit_char((n % 10) as nat)));
        }
    }
    assert(final(out)@ =~= old(out)@ + decimal(n as nat));
}

/// Whether an HTTP status code reports success (2xx).
pub fn is_success_status(status: u16) -> (r: bool)
    ensures
        r == (200 <= status && status <= 299),
{
    200 <= status && status <= 299
}

/// `API request failed with status <status>: <body>`, the status in decimal.
pub fn status_error_message(status: u16, body: &str) -> (r: String)
    ensures
        r@ == status_error_text(status, body@),
{
    let mut digits: Vec<char> = Vec::new();
    push_decimal(status, &mut digits);
    let mut r = "API request failed with status ".to_owned();
    r.append(string_from_chars(&digits).as_str());
    r.append(": ");
    r.append(body);
    r
}

impl CompletionFailure {
    /// A readable description of the failure.
    pub fn message(&self) -> (r: String)
        ensures
            r@ == failure_text(*self),
    {
        match self {
            CompletionFailure::Network(m) => m.clone(),
            CompletionFailure::HttpStatus(status, body) => status_error_message(*status, body.as_str()),
            CompletionFailure::Decode(m) => m.clone(),
        }
    }
}

/// The content of the first choice, if there is one.
pub fn first_choice_content(response: &CompletionResponse) -> (r: Option<String>)
    ensures
        opt_text(r) == first_content(*response),
{
    if response.choices.len() > 0 {
        Some(response.choices[0].message.content.clone())
    } else {
        None
    }
}

/// The event that a finished completion posts: the first choice's content,
/// or an error when there is no choice or the exchange failed.
pub fn completion_event(outcome: Result<CompletionResponse, CompletionFailure>) -> (r: AppEvent)
    ensures
        r@ == completion_event_of(outcome),
{
    match outcome {
        Ok(response) => match first_choice_content(&response) {
            Some(content) => AppEvent::CompletionResponse(content),
            None => AppEvent::CompletionError("No response received".to_owned()),
        },
        Err(failure) => AppEvent::CompletionError(failure.message()),
    }
}

/// The event that a finished safety check posts: the first choice's
/// content, or an error when there is no choice or the exchange failed.
pub fn safety_check_event(outcome: Result<CompletionResponse, CompletionFailure>) -> (r: AppEvent)
    ensures
        r@ == safety_check_event_of(outcome),
{
    match outcome {
        Ok(response) => match first_choice_content(&response) {
            Some(content) => AppEvent::SafetyCheckResponse(content),
            None => AppEvent::SafetyCheckError("No safety check response received".to_owned()),
        },
        Err(failure) => AppEvent::SafetyCheckError(failure.message()),
    }
}

fn two_messages(system: String, user: String) -> (r: Vec<Message>)
    ensures
        r@.map_values(|m: Message| message_model(m)) == exchange(system@, user@),
{
    let mut r: Vec<Message> = Vec::new();
    r.push(Message { role: "system".to_owned(), content: system });
    r.push(Message { role: "user".to_owned(), content: user });
    assert(r@.map_values(|m: Message| message_model(m)) =~= exchange(system@, user@));
    r
}

impl InferenceEngine {
    /// The credential sent with each request.
    pub closed spec fn api_key(&self) -> Seq<char> {
        self.api_key@
    }

    /// The base address of the service.
    pub closed spec fn base_url(&self) -> Seq<char> {
        self.base_url@
    }

    /// The model that is asked.
    pub closed spec fn model_ident(&self) -> Seq<char> {
        self.model_ident@
    }

    /// The input path mentioned to the model, if any.
    pub closed spec fn input_hint(&self) -> Option<Seq<char>> {
        opt_text(self.input)
    }

    /// The output path mentioned to the model, if any.
    pub closed spec fn output_hint(&self) -> Option<Seq<char>> {
        opt_text(self.output)
    }

    /// An engine for the service at `base_url`, with the given credential,
    /// model and path hints.
    pub fn new(
        api_key: String,
        base_url: String,
        model_ident: String,
        input: Option<String>,
        output: Option<String>,
    ) -> (r: InferenceEngine)
        ensures
            r.api_key() == api_key@,
            r.base_url() == base_url@,
            r.model_ident() == model_ident@,
            r.input_hint() == opt_text(input),
            r.output_hint() == opt_text(output),
    {
        InferenceEngine { api_key, base_url, model_ident, input, output }
    }

    /// The address that completion requests are posted to.
    pub fn completion_url(&self) -> (r: String)
        ensures
            r@ == self.base_url() + "/chat/completions"@,
    {
        let mut r = self.base_url.clone();
        r.append("/chat/completions");
        r
    }

    /// The value of the `Authorization` header.
    pub fn authorization(&self) -> (r: String)
        ensures
            r@ == "Bearer "@ + self.api_key(),
    {
        let mut r = "Bearer ".to_owned();
        r.append(self.api_key.as_str());
        r
    }

    /// The system prompt for command generation.
    pub fn imagine_prompt(&self) -> (r: String)
        ensures
            r@ == imagine_prompt(self.input_hint(), self.output_hint()),
    {
        let mut prompt = IMAGINE_INSTRUCTION.to_owned();
        match &self.input {
            Some(i) => {
                prompt.append("An input path has been provided, it is ");
                prompt.append(i.as_str());
                prompt.append("\n");
            },
            None => {},
        }
        match &self.output {
            Some(o) => {
                prompt.append("An output path has been provided, it is ");
                prompt.append(o.as_str());
                prompt.append("\n");
            },
            None => {},
        }
        assert(prompt@ =~= imagine_prompt(self.input_hint(), self.output_hint()));
        prompt
    }

    /// The request that asks the model for a shell command fulfilling
    /// `request`.
    pub fn imagine_command(&self, request: String) -> (r: CompletionRequest)
        ensures
            r.model@ == self.model_ident(),
            messages_model(r) == exchange(
                imagine_prompt(self.input_hint(), self.output_hint()),
                request@,
            ),
            r.max_tokens == Some(MAX_TOKENS),
            r.temperature_percent == Some(TEMPERATURE_PERCENT),
    {
        let prompt = self.imagine_prompt();
        CompletionRequest {
            model: self.model_ident.clone(),
            messages: two_messages(prompt, request),
            max_tokens: Some(MAX_TOKENS),
            temperature_percent: Some(TEMPERATURE_PERCENT),
        }
    }

    /// The request that asks the model whether `request`, a command, is safe.
    pub fn inspect_command(&self, request: String) -> (r: CompletionRequest)
        ensures
            r.model@ == self.model_ident(),
            messages_model(r) == exchange(INSPECT_INSTRUCTION@, request@),
            r.max_tokens == Some(MAX_TOKENS),
            r.temperature_percent == Some(TEMPERATURE_PERCENT),
    {
        CompletionRequest {
            model: self.model_ident.clone(),
            messages: two_messages(INSPECT_INSTRUCTION.to_owned(), request),
            max_tokens: Some(MAX_TOKENS),
            temperature_percent: Some(TEMPERATURE_PERCENT),
        }
    }
}

} // verus!
