//! Request and response records of the generateContent API.
use vstd::prelude::*;

verus! {

/// Inline binary data of a part: a MIME type and a base64 payload.
#[derive(Debug)]
pub struct InlineData {
    /// The MIME type, e.g. `image/png`.
    pub mime_type: String,
    /// The base64-encoded bytes.
    pub data: String,
}

/// What an [`InlineData`] holds.
pub ghost struct InlineDataView {
    pub mime_type: Seq<char>,
    pub data: Seq<char>,
}

impl View for InlineData {
    type V = InlineDataView;

    open spec fn view(&self) -> InlineDataView {
        InlineDataView { mime_type: self.mime_type@, data: self.data@ }
    }
}

impl Clone for InlineData {
    fn clone(&self) -> (r: Self)
        ensures
            r@ == self@,
    {
        InlineData { mime_type: self.mime_type.clone(), data: self.data.clone() }
    }
}

/// One payload unit of a turn: text, or inline binary data.
#[derive(Debug)]
pub enum Part {
    /// Text content.
    Text {
        /// The text.
        text: String,
    },
    /// Inline binary data.
    InlineData {
        /// The MIME type and payload.
        inline_data: InlineData,
    },
}

/// What a [`Part`] holds.
pub ghost enum PartView {
    Text(Seq<char>),
    InlineData(InlineDataView),
}

impl View for Part {
    type V = PartView;

    open spec fn view(&self) -> PartView {
        match self {
            Part::Text { text } => PartView::Text(text@),
            Part::InlineData { inline_data } => PartView::InlineData(inline_data@),
        }
    }
}

impl Clone for Part {
    fn clone(&self) -> (r: Self)
        ensures
            r@ == self@,
    {
        match self {
            Part::Text { text } => Part::Text { text: text.clone() },
            Part::InlineData { inline_data } => Part::InlineData { inline_data: inline_data.clone() },
        }
    }
}

/// The view of an optional string.
pub open spec fn opt_view(o: Option<String>) -> Option<Seq<char>> {
    match o {
        Some(s) => Some(s@),
        None => None,
    }
}

/// The views of a sequence of values.
pub open spec fn views<T: View>(s: Seq<T>) -> Seq<T::V> {
    s.map_values(|x: T| x@)
}

/// One conversation turn: an optional role and its ordered parts.
#[derive(Debug)]
pub struct Content {
    /// The parts of this turn.
    pub parts: Vec<Part>,
    /// `user`, `model`, or none for a bare prompt.
    pub role: Option<String>,
}

/// What a [`Content`] holds.
pub ghost struct ContentView {
    pub parts: Seq<PartView>,
    pub role: Option<Seq<char>>,
}

impl View for Content {
    type V = ContentView;

    open spec fn view(&self) -> ContentView {
        ContentView { parts: views(self.parts@), role: opt_view(self.role) }
    }
}

/// A turn of one text part with the given role.
pub open spec fn text_turn(text: Seq<char>, role: Option<Seq<char>>) -> ContentView {
    ContentView { parts: seq![PartView::Text(text)], role }
}

/// A user turn holding `text`.
pub open spec fn user_turn(text: Seq<char>) -> ContentView {
    text_turn(text, Some("user"@))
}

/// A model turn holding `text`.
pub open spec fn model_turn(text: Seq<char>) -> ContentView {
    text_turn(text, Some("model"@))
}

impl Clone for Content {
    fn clone(&self) -> (r: Self)
        ensures
            r@ == self@,
    {
        assert(clone_keeps_view::<Part>()) by {
            assert forall|a: Part, b: Part| #[trigger] cloned(a, b) implies b@ == a@ by {}
        }
        Content { parts: copy_all(&self.parts), role: self.role.clone() }
    }
}

impl Content {
    /// A single text part.
    fn text_part(text: &str) -> (r: Vec<Part>)
        ensures
            views(r@) == seq![PartView::Text(text@)],
    {
        let r = vec![Part::Text { text: String::from_str(text) }];
        assert(views(r@) =~= seq![PartView::Text(text@)]);
        r
    }

    /// A role-less turn of one text part: a bare prompt.
    pub fn text(text: &str) -> (r: Content)
        ensures
            r@ == text_turn(text@, None),
    {
        Content { parts: Content::text_part(text), role: None }
    }

    /// A user turn of one text part.
    pub fn user(text: &str) -> (r: Content)
        ensures
            r@ == user_turn(text@),
    {
        Content { parts: Content::text_part(text), role: Some(String::from_str("user")) }
    }

    /// A model turn of one text part.
    pub fn model(text: &str) -> (r: Content)
        ensures
            r@ == model_turn(text@),
    {
        Content { parts: Content::text_part(text), role: Some(String::from_str("model")) }
    }
}


/// The views of an optional vector.
pub open spec fn opt_views<T: View>(o: Option<Vec<T>>) -> Option<Seq<T::V>> {
    match o {
        Some(v) => Some(views(v@)),
        None => None,
    }
}

/// Sampling, length and output-format controls of a request.
///
/// Every field is optional; a field left unset is left out of the request.
/// `temperature` and `top_p` hold the IEEE-754 single-precision bit pattern
/// of the value sent (`f32::to_bits`).
#[derive(Debug)]
pub struct GenerationConfig {
    /// Randomness, 0.0 to 2.0, as `f32` bits.
    pub temperature: Option<u32>,
    /// Nucleus sampling threshold, 0.0 to 1.0, as `f32` bits.
    pub top_p: Option<u32>,
    /// Top-k sampling.
    pub top_k: Option<i32>,
    /// Maximum number of tokens to generate.
    pub max_output_tokens: Option<i32>,
    /// Sequences that stop generation.
    pub stop_sequences: Option<Vec<String>>,
    /// Response MIME type; `application/json` asks for JSON output.
    pub response_mime_type: Option<String>,
}

/// What a [`GenerationConfig`] holds.
pub ghost struct GenerationConfigView {
    pub temperature: Option<u32>,
    pub top_p: Option<u32>,
    pub top_k: Option<i32>,
    pub max_output_tokens: Option<i32>,
    pub stop_sequences: Option<Seq<Seq<char>>>,
    pub response_mime_type: Option<Seq<char>>,
}

impl View for GenerationConfig {
    type V = GenerationConfigView;

    open spec fn view(&self) -> GenerationConfigView {
        GenerationConfigView {
            temperature: self.temperature,
            top_p: self.top_p,
            top_k: self.top_k,
            max_output_tokens: self.max_output_tokens,
            stop_sequences: opt_views(self.stop_sequences),
            response_mime_type: opt_view(self.response_mime_type),
        }
    }
}

/// The configuration with every field unset.
pub open spec fn empty_config() -> GenerationConfigView {
    GenerationConfigView {
        temperature: None,
        top_p: None,
        top_k: None,
        max_output_tokens: None,
        stop_sequences: None,
        response_mime_type: None,
    }
}

/// The MIME type that asks for JSON output.
pub open spec fn json_mime() -> Seq<char> {
    "application/json"@
}

/// `c` with JSON output asked for, replacing any earlier MIME type.
pub open spec fn json_mode_of(c: GenerationConfigView) -> GenerationConfigView {
    GenerationConfigView { response_mime_type: Some(json_mime()), ..c }
}

/// Whether cloning a `T` keeps its view.
pub open spec fn clone_keeps_view<T: View + Clone>() -> bool {
    forall|a: T, b: T| #[trigger] cloned(a, b) ==> b@ == a@
}

/// Copies a vector whose elements keep their views when cloned.
pub fn copy_all<T: View + Clone>(v: &Vec<T>) -> (r: Vec<T>)
    requires
        clone_keeps_view::<T>(),
    ensures
        views(r@) == views(v@),
{
    let r = v.clone();
    assert(views(r@) =~= views(v@)) by {
        assert forall|i: int| 0 <= i < r@.len() implies #[trigger] r@[i]@ == v@[i]@ by {
            assert(cloned(v[i], r[i]));
        }
    }
    r
}

impl Clone for GenerationConfig {
    fn clone(&self) -> (r: Self)
        ensures
            r@ == self@,
    {
        let stop_sequences = match &self.stop_sequences {
            Some(v) => {
                assert(clone_keeps_view::<String>()) by {
                    assert forall|a: String, b: String| #[trigger] cloned(a, b) implies b@ == a@ by {}
                }
                Some(copy_all(v))
            },
            None => None,
        };
        GenerationConfig {
            temperature: self.temperature,
            top_p: self.top_p,
            top_k: self.top_k,
            max_output_tokens: self.max_output_tokens,
            stop_sequences,
            response_mime_type: self.response_mime_type.clone(),
        }
    }
}

impl Default for GenerationConfig {
    fn default() -> (r: GenerationConfig)
        ensures
            r@ == empty_config(),
    {
        GenerationConfig {
            temperature: None,
            top_p: None,
            top_k: None,
            max_output_tokens: None,
            stop_sequences: None,
            response_mime_type: None,
        }
    }
}

impl GenerationConfig {
    /// A configuration with every field unset.
    pub fn new() -> (r: GenerationConfig)
        ensures
            r@ == empty_config(),
    {
        GenerationConfig::default()
    }

    /// Sets the temperature, given as `f32` bits.
    pub fn temperature(self, bits: u32) -> (r: GenerationConfig)
        ensures
            r@ == (GenerationConfigView { temperature: Some(bits), ..self@ }),
    {
        GenerationConfig { temperature: Some(bits), ..self }
    }

    /// Sets the nucleus sampling threshold, given as `f32` bits.
    pub fn top_p(self, bits: u32) -> (r: GenerationConfig)
        ensures
            r@ == (GenerationConfigView { top_p: Some(bits), ..self@ }),
    {
        GenerationConfig { top_p: Some(bits), ..self }
    }

    /// Sets top-k sampling.
    pub fn top_k(self, top_k: i32) -> (r: GenerationConfig)
        ensures
            r@ == (GenerationConfigView { top_k: Some(top_k), ..self@ }),
    {
        GenerationConfig { top_k: Some(top_k), ..self }
    }

    /// Sets the maximum number of tokens to generate.
    pub fn max_tokens(self, max: i32) -> (r: GenerationConfig)
        ensures
            r@ == (GenerationConfigView { max_output_tokens: Some(max), ..self@ }),
    {
        GenerationConfig { max_output_tokens: Some(max), ..self }
    }

    /// Asks for JSON output: the MIME type becomes `application/json`.
    pub fn json_mode(self) -> (r: GenerationConfig)
        ensures
            r@ == json_mode_of(self@),
    {
        GenerationConfig { response_mime_type: Some(String::from_str("application/json")), ..self }
    }
}

/// One content filter: a harm category and its blocking threshold.
#[derive(Debug)]
pub struct SafetySetting {
    /// The harm category, e.g. `HARM_CATEGORY_HARASSMENT`.
    pub category: String,
    /// The threshold, e.g. `BLOCK_NONE`.
    pub threshold: String,
}

/// What a [`SafetySetting`] holds.
pub ghost struct SafetySettingView {
    pub category: Seq<char>,
    pub threshold: Seq<char>,
}

impl View for SafetySetting {
    type V = SafetySettingView;

    open spec fn view(&self) -> SafetySettingView {
        SafetySettingView { category: self.category@, threshold: self.threshold@ }
    }
}

impl Clone for SafetySetting {
    fn clone(&self) -> (r: Self)
        ensures
            r@ == self@,
    {
        SafetySetting { category: self.category.clone(), threshold: self.threshold.clone() }
    }
}

/// The setting that lets everything of `category` through.
pub open spec fn unblocked(category: Seq<char>) -> SafetySettingView {
    SafetySettingView { category, threshold: "BLOCK_NONE"@ }
}

/// Ready-made safety configurations.
pub struct SafetySettings;

impl SafetySettings {
    /// The four harm categories, none of them blocked.
    pub open spec fn none_blocked() -> Seq<SafetySettingView> {
        seq![
            unblocked("HARM_CATEGORY_HARASSMENT"@),
            unblocked("HARM_CATEGORY_HATE_SPEECH"@),
            unblocked("HARM_CATEGORY_SEXUALLY_EXPLICIT"@),
            unblocked("HARM_CATEGORY_DANGEROUS_CONTENT"@),
        ]
    }

    /// Settings that block no content in any of the four harm categories.
    pub fn block_none() -> (r: Vec<SafetySetting>)
        ensures
            views(r@) == SafetySettings::none_blocked(),
    {
        let r = vec![
            SafetySetting {
                category: String::from_str("HARM_CATEGORY_HARASSMENT"),
                threshold: String::from_str("BLOCK_NONE"),
            },
            SafetySetting {
                category: String::from_str("HARM_CATEGORY_HATE_SPEECH"),
                threshold: String::from_str("BLOCK_NONE"),
            },
            SafetySetting {
                category: String::from_str("HARM_CATEGORY_SEXUALLY_EXPLICIT"),
                threshold: String::from_str("BLOCK_NONE"),
            },
            SafetySetting {
                category: String::from_str("HARM_CATEGORY_DANGEROUS_CONTENT"),
                threshold: String::from_str("BLOCK_NONE"),
            },
        ];
        assert(views(r@) =~= SafetySettings::none_blocked());
        r
    }
}


/// The wire payload of one generateContent call.
#[derive(Debug)]
pub struct GenerateContentRequest {
    /// The turns sent to the model.
    pub contents: Vec<Content>,
    /// Generation settings, if any.
    pub generation_config: Option<GenerationConfig>,
    /// Safety settings, if any.
    pub safety_settings: Option<Vec<SafetySetting>>,
    /// The system instruction, if any.
    pub system_instruction: Option<Content>,
}

/// What a [`GenerateContentRequest`] holds.
pub ghost struct GenerateContentRequestView {
    pub contents: Seq<ContentView>,
    pub generation_config: Option<GenerationConfigView>,
    pub safety_settings: Option<Seq<SafetySettingView>>,
    pub system_instruction: Option<ContentView>,
}

impl View for GenerateContentRequest {
    type V = GenerateContentRequestView;

    open spec fn view(&self) -> GenerateContentRequestView {
        GenerateContentRequestView {
            contents: views(self.contents@),
            generation_config: match self.generation_config {
                Some(c) => Some(c@),
                None => None,
            },
            safety_settings: opt_views(self.safety_settings),
            system_instruction: match self.system_instruction {
                Some(c) => Some(c@),
                None => None,
            },
        }
    }
}

/// A safety rating of a prompt or a candidate.
#[derive(Debug)]
pub struct SafetyRating {
    /// The harm category rated.
    pub category: String,
    /// The probability of harm, e.g. `NEGLIGIBLE`.
    pub probability: String,
}

/// Feedback on the prompt.
#[derive(Debug)]
pub struct PromptFeedback {
    /// Why the prompt was blocked, if it was.
    pub block_reason: Option<String>,
    /// Safety ratings of the prompt.
    pub safety_ratings: Option<Vec<SafetyRating>>,
}

/// One generated completion.
#[derive(Debug)]
pub struct Candidate {
    /// The generated turn.
    pub content: Option<Content>,
    /// Why generation stopped, e.g. `STOP`.
    pub finish_reason: Option<String>,
    /// Safety ratings of the completion.
    pub safety_ratings: Option<Vec<SafetyRating>>,
}

/// The parsed reply of a generateContent call.
#[derive(Debug)]
pub struct GenerateContentResponse {
    /// The generated candidates, usually one.
    pub candidates: Option<Vec<Candidate>>,
    /// Feedback on the prompt.
    pub prompt_feedback: Option<PromptFeedback>,
}

impl GenerateContentResponse {
    /// Whether the reply holds at least one candidate.
    pub open spec fn has_candidates(&self) -> bool {
        match self.candidates {
            Some(cs) => cs@.len() > 0,
            None => false,
        }
    }

    /// The turn of the first candidate, if there is a candidate and it has one.
    pub open spec fn first_content(&self) -> Option<ContentView> {
        match self.candidates {
            Some(cs) => if cs@.len() > 0 {
                match cs@[0].content {
                    Some(c) => Some(c@),
                    None => None,
                }
            } else {
                None
            },
            None => None,
        }
    }

    /// The text of the first part of the first candidate's turn; empty when
    /// there is no such part or it is not text.
    pub open spec fn first_text(&self) -> Seq<char> {
        match self.first_content() {
            Some(c) => match c.first_text() {
                Some(t) => t,
                None => Seq::empty(),
            },
            None => Seq::empty(),
        }
    }

    /// The first candidate's turn, copied, if there is one.
    pub fn first_content_copy(&self) -> (r: Option<Content>)
        ensures
            match r {
                Some(c) => self.first_content() == Some(c@),
                None => self.first_content() is None,
            },
    {
        match &self.candidates {
            Some(cs) => if cs.len() > 0 {
                match &cs[0].content {
                    Some(c) => Some(c.clone()),
                    None => None,
                }
            } else {
                None
            },
            None => None,
        }
    }

    /// The text of the first candidate: see [`GenerateContentResponse::first_text`].
    pub fn text(&self) -> (r: String)
        ensures
            r@ == self.first_text(),
    {
        match self.first_content_copy() {
            Some(c) => if c.parts.len() > 0 {
                match &c.parts[0] {
                    Part::Text { text } => text.clone(),
                    Part::InlineData { .. } => String::new(),
                }
            } else {
                String::new()
            },
            None => String::new(),
        }
    }
}

impl ContentView {
    /// The text of the first part, if that part is text.
    pub open spec fn first_text(self) -> Option<Seq<char>> {
        if self.parts.len() > 0 {
            match self.parts[0] {
                PartView::Text(t) => Some(t),
                PartView::InlineData(_) => None,
            }
        } else {
            None
        }
    }
}

} // verus!
