//! The Gemini models and their API identifiers.
use vstd::prelude::*;

use crate::text::same_text;

verus! {

/// Available Google Gemini models.
#[derive(Debug, Clone, Copy, PartialEq, Eq, Structural, Hash)]
pub enum Model {
    /// Gemini 2.5 Flash: the latest model, and the default.
    Gemini25Flash,
    /// Gemini 2.0 Flash: the previous flash generation.
    Gemini20Flash,
    /// Gemini 1.5 Pro: complex reasoning, long context.
    Gemini15Pro,
    /// Gemini 1.5 Flash: balance of speed and quality.
    Gemini15Flash,
    /// Gemini 1.5 Flash-8B: smallest and fastest.
    Gemini15Flash8B,
    /// Gemini 1.0 Pro: legacy model.
    Gemini10Pro,
}

/// The model every unrecognised identifier resolves to.
pub open spec fn default_model() -> Model {
    Model::Gemini25Flash
}

impl Model {
    /// The identifier the API uses for this model.
    pub open spec fn id(self) -> Seq<char> {
        match self {
            Model::Gemini25Flash => "gemini-2.5-flash"@,
            Model::Gemini20Flash => "gemini-2.0-flash"@,
            Model::Gemini15Pro => "gemini-1.5-pro"@,
            Model::Gemini15Flash => "gemini-1.5-flash"@,
            Model::Gemini15Flash8B => "gemini-1.5-flash-8b"@,
            Model::Gemini10Pro => "gemini-1.0-pro"@,
        }
    }

    /// The model an identifier names; any other text names the default model.
    pub open spec fn from_id(s: Seq<char>) -> Model {
        if s == Model::Gemini25Flash.id() {
            Model::Gemini25Flash
        } else if s == Model::Gemini20Flash.id() {
            Model::Gemini20Flash
        } else if s == Model::Gemini15Pro.id() {
            Model::Gemini15Pro
        } else if s == Model::Gemini15Flash.id() {
            Model::Gemini15Flash
        } else if s == Model::Gemini15Flash8B.id() {
            Model::Gemini15Flash8B
        } else if s == Model::Gemini10Pro.id() {
            Model::Gemini10Pro
        } else {
            default_model()
        }
    }

    /// Whether some model has this identifier.
    pub open spec fn is_known_id(s: Seq<char>) -> bool {
        exists|m: Model| m.id() == s
    }

    /// The API model identifier, e.g. `gemini-2.5-flash`.
    pub fn as_str(&self) -> (r: &'static str)
        ensures
            r@ == self.id(),
    {
        match self {
            Model::Gemini25Flash => "gemini-2.5-flash",
            Model::Gemini20Flash => "gemini-2.0-flash",
            Model::Gemini15Pro => "gemini-1.5-pro",
            Model::Gemini15Flash => "gemini-1.5-flash",
            Model::Gemini15Flash8B => "gemini-1.5-flash-8b",
            Model::Gemini10Pro => "gemini-1.0-pro",
        }
    }

    /// The full model path, `models/` followed by the identifier.
    pub fn full_name(&self) -> (r: String)
        ensures
            r@ == "models/"@ + self.id(),
    {
        let prefix = String::from_str("models/");
        prefix.concat(self.as_str())
    }
}

impl Default for Model {
    /// The latest model, Gemini 2.5 Flash.
    fn default() -> (r: Model)
        ensures
            r == default_model(),
    {
        Model::Gemini25Flash
    }
}

impl<'a> From<&'a str> for Model {
    /// The model with this identifier; unknown text gives the default model.
    fn from(s: &'a str) -> (r: Model) {
        if same_text(s, "gemini-2.5-flash") {
            Model::Gemini25Flash
        } else if same_text(s, "gemini-2.0-flash") {
            Model::Gemini20Flash
        } else if same_text(s, "gemini-1.5-pro") {
            Model::Gemini15Pro
        } else if same_text(s, "gemini-1.5-flash") {
            Model::Gemini15Flash
        } else if same_text(s, "gemini-1.5-flash-8b") {
            Model::Gemini15Flash8B
        } else if same_text(s, "gemini-1.0-pro") {
            Model::Gemini10Pro
        } else {
            Model::Gemini25Flash
        }
    }
}

impl<'a> vstd::std_specs::convert::FromSpecImpl<&'a str> for Model {
    open spec fn obeys_from_spec() -> bool {
        true
    }

    open spec fn from_spec(s: &'a str) -> Model {
        Model::from_id(s@)
    }
}

/// Every model maps to its identifier and back to itself, and any text that
/// is no model's identifier maps to the default model.
pub proof fn lemma_model_id_round_trip(m: Model, s: Seq<char>)
    ensures
        Model::from_id(m.id()) == m,
        !Model::is_known_id(s) ==> Model::from_id(s) == default_model(),
{
    reveal_strlit("gemini-2.5-flash");
    reveal_strlit("gemini-2.0-flash");
    reveal_strlit("gemini-1.5-pro");
    reveal_strlit("gemini-1.5-flash");
    reveal_strlit("gemini-1.5-flash-8b");
    reveal_strlit("gemini-1.0-pro");
    assert(Model::Gemini25Flash.id()[9] != Model::Gemini20Flash.id()[9]);
    assert(Model::Gemini25Flash.id()[7] != Model::Gemini15Pro.id()[7]);
    assert(Model::Gemini25Flash.id()[7] != Model::Gemini15Flash.id()[7]);
    assert(Model::Gemini25Flash.id()[7] != Model::Gemini15Flash8B.id()[7]);
    assert(Model::Gemini25Flash.id()[7] != Model::Gemini10Pro.id()[7]);
    assert(Model::Gemini20Flash.id()[7] != Model::Gemini15Pro.id()[7]);
    assert(Model::Gemini20Flash.id()[7] != Model::Gemini15Flash.id()[7]);
    assert(Model::Gemini20Flash.id()[7] != Model::Gemini15Flash8B.id()[7]);
    assert(Model::Gemini20Flash.id()[7] != Model::Gemini10Pro.id()[7]);
    assert(Model::Gemini15Pro.id()[11] != Model::Gemini15Flash.id()[11]);
    assert(Model::Gemini15Pro.id()[11] != Model::Gemini15Flash8B.id()[11]);
    assert(Model::Gemini15Pro.id()[9] != Model::Gemini10Pro.id()[9]);
    assert(Model::Gemini15Flash.id().len() != Model::Gemini15Flash8B.id().len());
    assert(Model::Gemini15Flash.id()[9] != Model::Gemini10Pro.id()[9]);
    assert(Model::Gemini15Flash8B.id()[9] != Model::Gemini10Pro.id()[9]);
    if !Model::is_known_id(s) {
        assert(s != Model::Gemini25Flash.id());
        assert(s != Model::Gemini20Flash.id());
        assert(s != Model::Gemini15Pro.id());
        assert(s != Model::Gemini15Flash.id());
        assert(s != Model::Gemini15Flash8B.id());
        assert(s != Model::Gemini10Pro.id());
    }
}

} // verus!
