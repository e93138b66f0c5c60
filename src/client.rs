//! The credential-holding client, the model-bound client and the chat session.
//!
//! A call to the API goes in three steps. The library gives the endpoint and
//! the request of a [`ModelClient`]; the transport POSTs the request as JSON
//! and reads the reply; the library then decides, from the status and the
//! body, what the call returns ([`is_success`], [`status_error`],
//! [`accept_response`]).
use vstd::prelude::*;

use reqwest::Client as HttpTransport;
use reqwest::Error as TransportError;

use crate::error::{Error, Result};
use crate::models::Model;
use crate::types::{
    Content, ContentView, GenerateContentRequest, GenerateContentRequestView,
    GenerateContentResponse, GenerationConfig, GenerationConfigView, SafetySetting,
    SafetySettingView, clone_keeps_view, copy_all, empty_config, json_mode_of, opt_view, text_turn,
    user_turn, views,
};

verus! {

#[verifier::external_type_specification]
#[verifier::external_body]
pub struct ExHttpClient(HttpTransport);

/// Relies on `reqwest::ClientBuilder::build` over `reqwest::Client::builder()`:
/// a transport with default settings and a connection pool of its own, or the
/// error met while setting up TLS or the resolver.
#[verifier::external_body]
fn build_transport() -> std::result::Result<HttpTransport, TransportError> {
    HttpTransport::builder().build()
}

/// Relies on `Clone` of `reqwest::Client`: the copy shares the connection pool.
#[verifier::external_body]
fn share_transport(c: &HttpTransport) -> HttpTransport {
    c.clone()
}

/// The API's base endpoint.
pub open spec fn base_url() -> Seq<char> {
    "https://generativelanguage.googleapis.com/v1beta"@
}

/// Holds the API key and the HTTP transport, shared by every model client
/// made from it. Nothing about the key is checked.
pub struct Client {
    http_client: HttpTransport,
    api_key: String,
    base_url: String,
}

/// What a [`Client`] holds, besides its transport.
pub ghost struct ClientView {
    pub api_key: Seq<char>,
    pub base_url: Seq<char>,
}

impl View for Client {
    type V = ClientView;

    closed spec fn view(&self) -> ClientView {
        ClientView { api_key: self.api_key@, base_url: self.base_url@ }
    }
}

impl Clone for Client {
    /// A copy with the same key that shares the transport.
    fn clone(&self) -> (r: Self)
        ensures
            r@ == self@,
    {
        Client {
            http_client: share_transport(&self.http_client),
            api_key: self.api_key.clone(),
            base_url: self.base_url.clone(),
        }
    }
}

impl Client {
    /// A client for `api_key`, stored as given, at the API's base endpoint.
    /// Fails with `HttpError` when the transport cannot be set up (no TLS
    /// backend, or no resolver configuration).
    pub fn new(api_key: &str) -> (r: Result<Client>)
        ensures
            match r {
                Ok(c) => c@ == (ClientView { api_key: api_key@, base_url: base_url() }),
                Err(e) => e is HttpError,
            },
    {
        match build_transport() {
            Ok(http_client) => Ok(
                Client {
                    http_client,
                    api_key: String::from_str(api_key),
                    base_url: String::from_str("https://generativelanguage.googleapis.com/v1beta"),
                },
            ),
            Err(e) => Err(Error::HttpError(e)),
        }
    }

    /// The HTTP transport that requests go through.
    pub fn http_client(&self) -> &HttpTransport {
        &self.http_client
    }

    /// An unconfigured client for `model` that uses this client's key and transport.
    pub fn model(&self, model: Model) -> (r: ModelClient)
        ensures
            r@ == (ModelClientView {
                client: self@,
                model,
                generation_config: None,
                safety_settings: None,
                system_instruction: None,
            }),
    {
        ModelClient {
            client: self.clone(),
            model,
            generation_config: None,
            safety_settings: None,
            system_instruction: None,
        }
    }
}

/// A client bound to one model, with optional generation settings, safety
/// settings and system instruction.
///
/// Each `with_*` call returns a new value and leaves nothing shared with the
/// one it came from, so one base can be the start of many configurations.
pub struct ModelClient {
    client: Client,
    model: Model,
    generation_config: Option<GenerationConfig>,
    safety_settings: Option<Vec<SafetySetting>>,
    system_instruction: Option<Content>,
}

/// What a [`ModelClient`] holds.
pub ghost struct ModelClientView {
    pub client: ClientView,
    pub model: Model,
    pub generation_config: Option<GenerationConfigView>,
    pub safety_settings: Option<Seq<SafetySettingView>>,
    pub system_instruction: Option<ContentView>,
}

impl View for ModelClient {
    type V = ModelClientView;

    closed spec fn view(&self) -> ModelClientView {
        ModelClientView {
            client: self.client@,
            model: self.model,
            generation_config: match self.generation_config {
                Some(c) => Some(c@),
                None => None,
            },
            safety_settings: match self.safety_settings {
                Some(v) => Some(views(v@)),
                None => None,
            },
            system_instruction: match self.system_instruction {
                Some(c) => Some(c@),
                None => None,
            },
        }
    }
}

proof fn lemma_settings_clone_keep_views()
    ensures
        clone_keeps_view::<SafetySetting>(),
{
    assert forall|a: SafetySetting, b: SafetySetting| #[trigger] cloned(a, b) implies b@ == a@ by {}
}

proof fn lemma_turns_clone_keep_views()
    ensures
        clone_keeps_view::<Content>(),
{
    assert forall|a: Content, b: Content| #[trigger] cloned(a, b) implies b@ == a@ by {}
}

impl Clone for ModelClient {
    fn clone(&self) -> (r: Self)
        ensures
            r@ == self@,
    {
        ModelClient {
            client: self.client.clone(),
            model: self.model,
            generation_config: match &self.generation_config {
                Some(c) => Some(c.clone()),
                None => None,
            },
            safety_settings: match &self.safety_settings {
                Some(v) => {
                    proof {
                        lemma_settings_clone_keep_views();
                    }
                    Some(copy_all(v))
                },
                None => None,
            },
            system_instruction: match &self.system_instruction {
                Some(c) => Some(c.clone()),
                None => None,
            },
        }
    }
}

/// The generation settings of `m` with JSON output asked for; a client
/// without settings starts from empty ones.
pub open spec fn json_settings(m: ModelClientView) -> GenerationConfigView {
    match m.generation_config {
        Some(c) => json_mode_of(c),
        None => json_mode_of(empty_config()),
    }
}

/// The URL a client's requests are POSTed to.
pub open spec fn endpoint_of(m: ModelClientView) -> Seq<char> {
    m.client.base_url + "/models/"@ + m.model.id() + ":generateContent?key="@ + m.client.api_key
}

impl ModelClient {
    /// This client with `config` as its generation settings.
    pub fn with_config(self, config: GenerationConfig) -> (r: ModelClient)
        ensures
            r@ == (ModelClientView { generation_config: Some(config@), ..self@ }),
    {
        ModelClient { generation_config: Some(config), ..self }
    }

    /// This client with `settings` as its safety settings.
    pub fn with_safety(self, settings: Vec<SafetySetting>) -> (r: ModelClient)
        ensures
            r@ == (ModelClientView { safety_settings: Some(views(settings@)), ..self@ }),
    {
        ModelClient { safety_settings: Some(settings), ..self }
    }

    /// This client with a role-less text turn of `instruction` as its system
    /// instruction.
    pub fn with_system_instruction(self, instruction: &str) -> (r: ModelClient)
        ensures
            r@ == (ModelClientView {
                system_instruction: Some(text_turn(instruction@, None)),
                ..self@
            }),
    {
        ModelClient { system_instruction: Some(Content::text(instruction)), ..self }
    }

    /// A copy of this client that asks for JSON output, whatever MIME type
    /// its settings held; this client is left as it is.
    pub fn with_json_mode(&self) -> (r: ModelClient)
        ensures
            r@ == (ModelClientView { generation_config: Some(json_settings(self@)), ..self@ }),
    {
        let config = match &self.generation_config {
            Some(c) => c.clone(),
            None => GenerationConfig::new(),
        };
        ModelClient { generation_config: Some(config.json_mode()), ..self.clone() }
    }

    /// The HTTP transport of the client this one was made from.
    pub fn http_client(&self) -> &HttpTransport {
        self.client.http_client()
    }

    /// The URL requests are POSTed to:
    /// `{base}/models/{model}:generateContent?key={api_key}`.
    pub fn endpoint(&self) -> (r: String)
        ensures
            r@ == endpoint_of(self@),
    {
        let mut url = self.client.base_url.clone();
        url.append("/models/");
        url.append(self.model.as_str());
        url.append(":generateContent?key=");
        url.append(self.client.api_key.as_str());
        url
    }

    /// The request that sends `contents` under this client's configuration.
    pub fn request(&self, contents: Vec<Content>) -> (r: GenerateContentRequest)
        ensures
            r@ == (GenerateContentRequestView {
                contents: views(contents@),
                generation_config: self@.generation_config,
                safety_settings: self@.safety_settings,
                system_instruction: self@.system_instruction,
            }),
    {
        GenerateContentRequest {
            contents,
            generation_config: match &self.generation_config {
                Some(c) => Some(c.clone()),
                None => None,
            },
            safety_settings: match &self.safety_settings {
                Some(v) => {
                    proof {
                        lemma_settings_clone_keep_views();
                    }
                    Some(copy_all(v))
                },
                None => None,
            },
            system_instruction: match &self.system_instruction {
                Some(c) => Some(c.clone()),
                None => None,
            },
        }
    }

    /// A chat session over a copy of this client, with an empty history.
    pub fn start_chat(&self) -> (r: ChatSession)
        ensures
            r@ == (ChatSessionView { model: self@, history: Seq::empty() }),
            only_chat_roles(r@.history),
    {
        let history: Vec<Content> = Vec::new();
        assert(views(history@) =~= Seq::<ContentView>::empty());
        ChatSession { model: self.clone(), history }
    }
}

/// Whether an HTTP status is a success, 200 to 299, as http's
/// `StatusCode::is_success` reads it.
pub open spec fn is_success_status(status: u16) -> bool {
    200 <= status && status < 300
}

/// Whether an HTTP status is a success, 200 to 299.
pub fn is_success(status: u16) -> (r: bool)
    ensures
        r == is_success_status(status),
{
    200 <= status && status < 300
}

/// The standard reason phrase of an HTTP status code, as http's
/// `StatusCode::canonical_reason` gives it.
pub uninterp spec fn canonical_reason_of(code: u16) -> Option<Seq<char>>;

/// Relies on http's `StatusCode::from_u16` and `StatusCode::canonical_reason`
/// (re-exported by reqwest): the reason phrase of a code, none for a code
/// without one and for a number outside 100-999.
#[verifier::external_body]
fn canonical_reason(code: u16) -> (r: Option<&'static str>)
    ensures
        match r {
            Some(p) => canonical_reason_of(code) == Some(p@),
            None => canonical_reason_of(code) is None,
        },
        !(100 <= code && code <= 999) ==> r is None,
{
    match reqwest::StatusCode::from_u16(code) {
        Ok(status) => status.canonical_reason(),
        Err(_) => None,
    }
}

/// The character of a decimal digit.
pub open spec fn digit_char(d: nat) -> char {
    if d == 0 {
        '0'
    } else if d == 1 {
        '1'
    } else if d == 2 {
        '2'
    } else if d == 3 {
        '3'
    } else if d == 4 {
        '4'
    } else if d == 5 {
        '5'
    } else if d == 6 {
        '6'
    } else if d == 7 {
        '7'
    } else if d == 8 {
        '8'
    } else {
        '9'
    }
}

/// The decimal digits of `n`, without leading zeros.
pub open spec fn decimal(n: nat) -> Seq<char>
    decreases n,
{
    if n < 10 {
        seq![digit_char(n)]
    } else {
        decimal(n / 10) + seq![digit_char(n % 10)]
    }
}

/// The decimal digits of `n`.
fn decimal_text(n: u16) -> (r: String)
    ensures
        r@ == decimal(n as nat),
    decreases n,
{
    let d = n % 10;
    let digit = if d == 0 {
        "0"
    } else if d == 1 {
        "1"
    } else if d == 2 {
        "2"
    } else if d == 3 {
        "3"
    } else if d == 4 {
        "4"
    } else if d == 5 {
        "5"
    } else if d == 6 {
        "6"
    } else if d == 7 {
        "7"
    } else if d == 8 {
        "8"
    } else {
        "9"
    };
    proof {
        reveal_strlit("0");
        reveal_strlit("1");
        reveal_strlit("2");
        reveal_strlit("3");
        reveal_strlit("4");
        reveal_strlit("5");
        reveal_strlit("6");
        reveal_strlit("7");
        reveal_strlit("8");
        reveal_strlit("9");
    }
    assert(digit@ =~= seq![digit_char(d as nat)]);
    if n < 10 {
        String::from_str(digit)
    } else {
        let mut r = decimal_text(n / 10);
        r.append(digit);
        r
    }
}

/// How a status prints: its code, a space, and its reason phrase, or
/// `<unknown status code>` for a code without one.
pub open spec fn status_text(code: u16) -> Seq<char> {
    decimal(code as nat) + " "@ + match canonical_reason_of(code) {
        Some(p) => p,
        None => "<unknown status code>"@,
    }
}

/// The message of a failed call: `HTTP <status>: <body>`, the body empty
/// when it could not be read.
pub open spec fn api_message(status: u16, body: Option<Seq<char>>) -> Seq<char> {
    "HTTP "@ + status_text(status) + ": "@ + match body {
        Some(b) => b,
        None => Seq::empty(),
    }
}

/// The error of a call answered with a status outside 200-299: the status
/// code and the body text, if the body could be read.
pub fn status_error(status: u16, body: Option<String>) -> (r: Error)
    ensures
        match r {
            Error::ApiError { message, code } => message@ == api_message(status, opt_view(body))
                && code == Some(status as i32),
            _ => false,
        },
{
    let mut message = String::from_str("HTTP ");
    let digits = decimal_text(status);
    message.append(digits.as_str());
    message.append(" ");
    match canonical_reason(status) {
        Some(p) => message.append(p),
        None => message.append("<unknown status code>"),
    }
    message.append(": ");
    match &body {
        Some(b) => message.append(b.as_str()),
        None => {},
    }
    Error::ApiError { message, code: Some(status as i32) }
}

/// The outcome of a call answered with success and a decoded body: the
/// response when it holds a candidate, `NoResponse` when its candidates are
/// absent or empty.
pub fn accept_response(response: GenerateContentResponse) -> (r: Result<GenerateContentResponse>)
    ensures
        response.has_candidates() ==> r == Ok::<GenerateContentResponse, Error>(response),
        !response.has_candidates() ==> r matches Err(Error::NoResponse),
{
    let present = match &response.candidates {
        Some(cs) => cs.len() > 0,
        None => false,
    };
    if present {
        Ok(response)
    } else {
        Err(Error::NoResponse)
    }
}

/// A chat: a model client and the turns exchanged so far, all of which are
/// sent again with every message.
///
/// Sending a message goes in two steps around the call to the API:
/// [`ChatSession::begin_message`] appends the user's turn and gives the turns
/// to send; [`ChatSession::finish_message`] appends the model's reply when the
/// call succeeded. A failed call leaves the user's turn in the history, so a
/// retry sends it twice unless the history is cleared first. A session is
/// not meant for concurrent use: callers serialise its messages.
pub struct ChatSession {
    model: ModelClient,
    history: Vec<Content>,
}

/// What a [`ChatSession`] holds.
pub ghost struct ChatSessionView {
    pub model: ModelClientView,
    pub history: Seq<ContentView>,
}

impl View for ChatSession {
    type V = ChatSessionView;

    closed spec fn view(&self) -> ChatSessionView {
        ChatSessionView { model: self.model@, history: views(self.history@) }
    }
}

/// The session after the user sends `message`.
pub open spec fn sent(s: ChatSessionView, message: Seq<char>) -> ChatSessionView {
    ChatSessionView { history: s.history.push(user_turn(message)), ..s }
}

/// A reply turn as the history records it: its parts, with the role `model`.
pub open spec fn as_model_turn(c: ContentView) -> ContentView {
    ContentView { role: Some("model"@), ..c }
}

/// The session after the model's reply, if there is one, is recorded.
pub open spec fn answered(s: ChatSessionView, reply: Option<ContentView>) -> ChatSessionView {
    ChatSessionView {
        history: match reply {
            Some(c) => s.history.push(as_model_turn(c)),
            None => s.history,
        },
        ..s
    }
}

/// Whether every turn of a history is a user turn or a model turn; a
/// role-less prompt never enters a history.
pub open spec fn only_chat_roles(h: Seq<ContentView>) -> bool {
    forall|i: int|
        0 <= i < h.len() ==> (#[trigger] h[i]).role == Some("user"@) || h[i].role == Some(
            "model"@,
        )
}

/// The session with its history emptied.
pub open spec fn cleared(s: ChatSessionView) -> ChatSessionView {
    ChatSessionView { history: Seq::empty(), ..s }
}

impl ChatSession {
    #[verifier::type_invariant]
    spec fn roles_kept(&self) -> bool {
        only_chat_roles(views(self.history@))
    }

    /// The model client the session sends through.
    pub fn client(&self) -> (r: &ModelClient)
        ensures
            r@ == self@.model,
    {
        &self.model
    }

    /// Appends a user turn of `message` to the history and gives the whole
    /// history, the turns to send.
    pub fn begin_message(&mut self, message: &str) -> (r: Vec<Content>)
        ensures
            final(self)@ == sent(old(self)@, message@),
            views(r@) == final(self)@.history,
            only_chat_roles(final(self)@.history),
    {
        proof {
            use_type_invariant(&*self);
            reveal_strlit("user");
        }
        let turn = Content::user(message);
        let mut turns: Vec<Content> = Vec::new();
        std::mem::swap(&mut self.history, &mut turns);
        turns.push(turn);
        assert(views(turns@) =~= views(old(self).history@).push(user_turn(message@)));
        std::mem::swap(&mut self.history, &mut turns);
        proof {
            lemma_turns_clone_keep_views();
        }
        copy_all(&self.history)
    }

    /// Records the outcome of the call that [`ChatSession::begin_message`]
    /// began, and hands it back: on success the first candidate's turn, if it
    /// has one, joins the history; on failure the history stays as it is.
    pub fn finish_message(&mut self, outcome: Result<GenerateContentResponse>) -> (r: Result<
        GenerateContentResponse,
    >)
        ensures
            r == outcome,
            final(self)@ == match outcome {
                Ok(response) => answered(old(self)@, response.first_content()),
                Err(_) => old(self)@,
            },
            only_chat_roles(final(self)@.history),
    {
        proof {
            use_type_invariant(&*self);
        }
        match &outcome {
            Ok(response) => {
                match response.first_content_copy() {
                    Some(c) => {
                        let ghost reply = c@;
                        let turn = Content { parts: c.parts, role: Some(String::from_str("model")) };
                        assert(turn@ == as_model_turn(reply));
                        let mut turns: Vec<Content> = Vec::new();
                        std::mem::swap(&mut self.history, &mut turns);
                        turns.push(turn);
                        assert(views(turns@) =~= views(old(self).history@).push(
                            as_model_turn(reply),
                        ));
                        std::mem::swap(&mut self.history, &mut turns);
                    },
                    None => {},
                }
            },
            Err(_) => {},
        }
        outcome
    }

    /// The turns exchanged so far, in order; each is a user or a model turn.
    pub fn history(&self) -> (r: &[Content])
        ensures
            views(r@) == self@.history,
            only_chat_roles(self@.history),
    {
        proof {
            use_type_invariant(self);
        }
        self.history.as_slice()
    }

    /// Empties the history; the model client stays as it is.
    pub fn clear_history(&mut self)
        ensures
            final(self)@ == cleared(old(self)@),
    {
        proof {
            use_type_invariant(&*self);
        }
        let mut turns: Vec<Content> = Vec::new();
        std::mem::swap(&mut self.history, &mut turns);
        assert(views(self.history@) =~= Seq::<ContentView>::empty());
    }
}

/// The session after the user sends each of `messages` in turn and the
/// model answers each with the turn at the same place in `replies`.
pub open spec fn conversation(
    s: ChatSessionView,
    messages: Seq<Seq<char>>,
    replies: Seq<ContentView>,
) -> ChatSessionView
    decreases messages.len(),
{
    if messages.len() == 0 || replies.len() == 0 {
        s
    } else {
        conversation(
            answered(sent(s, messages[0]), Some(replies[0])),
            messages.drop_first(),
            replies.drop_first(),
        )
    }
}

/// The turns that exchanges add to a history: for each message, its user
/// turn, then the model's reply as a model turn.
pub open spec fn exchange_turns(messages: Seq<Seq<char>>, replies: Seq<ContentView>) -> Seq<
    ContentView,
>
    decreases messages.len(),
{
    if messages.len() == 0 || replies.len() == 0 {
        Seq::empty()
    } else {
        seq![user_turn(messages[0]), as_model_turn(replies[0])] + exchange_turns(
            messages.drop_first(),
            replies.drop_first(),
        )
    }
}

/// Each exchange answered with a turn adds two turns to the history, the
/// user's and the model's, in order: after `n` of them a fresh session holds
/// `2n` turns, `user(m1), reply1, ..., user(mn), replyn`.
pub proof fn lemma_two_turns_per_exchange(
    s: ChatSessionView,
    messages: Seq<Seq<char>>,
    replies: Seq<ContentView>,
)
    requires
        messages.len() == replies.len(),
    ensures
        conversation(s, messages, replies).history == s.history + exchange_turns(
            messages,
            replies,
        ),
        exchange_turns(messages, replies).len() == 2 * messages.len(),
        conversation(s, messages, replies).history.len() == s.history.len() + 2 * messages.len(),
        conversation(s, messages, replies).model == s.model,
    decreases messages.len(),
{
    if messages.len() == 0 {
        assert(s.history + exchange_turns(messages, replies) =~= s.history);
    } else {
        let next = answered(sent(s, messages[0]), Some(replies[0]));
        lemma_two_turns_per_exchange(next, messages.drop_first(), replies.drop_first());
        assert(next.history =~= s.history + seq![
            user_turn(messages[0]),
            as_model_turn(replies[0]),
        ]);
        assert(next.history + exchange_turns(messages.drop_first(), replies.drop_first())
            =~= s.history + exchange_turns(messages, replies));
    }
}

/// Clearing a session empties its history and keeps its model client; the
/// next message then sends its own user turn and nothing else.
pub proof fn lemma_clear_then_send(s: ChatSessionView, message: Seq<char>)
    ensures
        cleared(s).history.len() == 0,
        cleared(s).model == s.model,
        sent(cleared(s), message).history == seq![user_turn(message)],
{
    assert(sent(cleared(s), message).history =~= seq![user_turn(message)]);
}

} // verus!
