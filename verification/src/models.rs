//! The domain values: the model identifier with its allow-list rule, the
//! generation request with its validation, and the generated image.

use vstd::prelude::*;
use vstd::slice::slice_index_get;
use vstd::string::StringExecFns;
use crate::text::{all_whitespace, is_blank, spec_decimal, str_eq, usize_to_string};

verus! {

/// An identifier of a remote image-generation model.
#[derive(Debug, PartialEq, Eq)]
pub struct GeminiModel(String);

impl View for GeminiModel {
    type V = Seq<char>;

    closed spec fn view(&self) -> Seq<char> {
        self.0@
    }
}

impl Clone for GeminiModel {
    fn clone(&self) -> (r: Self)
        ensures
            r == *self,
    {
        GeminiModel(self.0.clone())
    }
}

/// Whether `model` passes the allow-list: an empty list permits every name,
/// a non-empty list exactly its members.
pub open spec fn spec_allowed(model: Seq<char>, allowed: Seq<Seq<char>>) -> bool {
    allowed.len() == 0 || exists|i: int| 0 <= i < allowed.len() && allowed[i] == model
}

impl GeminiModel {
    /// The identifier's text.
    pub fn as_str(&self) -> (r: &str)
        ensures
            r@ == self@,
    {
        self.0.as_str()
    }

    /// Whether this identifier passes the allow-list.
    pub fn is_allowed(&self, allowed: &[String]) -> (r: bool)
        ensures
            r == spec_allowed(self@, allowed.deep_view()),
    {
        let n = allowed.len();
        if n == 0 {
            return true;
        }
        let mut i: usize = 0;
        while i < n
            invariant
                i <= n,
                n == allowed@.len(),
                forall|j: int| 0 <= j < i ==> allowed.deep_view()[j] != self@,
            decreases n - i,
        {
            if str_eq(slice_index_get(allowed, i).as_str(), self.0.as_str()) {
                assert(allowed.deep_view()[i as int] == self@);
                return true;
            }
            i += 1;
        }
        false
    }

    /// Builds an identifier from free text, checked against the allow-list:
    /// it succeeds unless the list is non-empty and the text is absent from
    /// it, in which case it fails with the offending name.
    pub fn try_new(value: &str, allowed: &[String]) -> (r: Result<GeminiModel, ModelParseError>)
        ensures
            spec_allowed(value@, allowed.deep_view()) ==> (r matches Ok(m) && m@ == value@),
            !spec_allowed(value@, allowed.deep_view()) ==> (r matches Err(
                ModelParseError::InvalidModel(name),
            ) && name@ == value@),
    {
        let model = GeminiModel(value.to_owned());
        if !model.is_allowed(allowed) {
            return Err(ModelParseError::InvalidModel(value.to_owned()));
        }
        Ok(model)
    }
}

impl Default for GeminiModel {
    /// The built-in default model name.
    fn default() -> (r: Self)
        ensures
            r@ == crate::DEFAULT_MODEL_NAME@,
    {
        GeminiModel(crate::DEFAULT_MODEL_NAME.to_owned())
    }
}

impl From<String> for GeminiModel {
    fn from(value: String) -> (r: Self)
        ensures
            r@ == value@,
    {
        GeminiModel(value)
    }
}

impl vstd::std_specs::convert::FromSpecImpl<String> for GeminiModel {
    open spec fn obeys_from_spec() -> bool {
        true
    }

    closed spec fn from_spec(value: String) -> Self {
        GeminiModel(value)
    }
}

/// A request for one generated image.
#[derive(Debug)]
pub struct ImageGenerationRequest {
    pub prompt: String,
    pub model: GeminiModel,
}

/// The prompt's length in bytes, the unit the bound is stated in.
pub open spec fn prompt_byte_len(prompt: Seq<char>) -> nat {
    vstd::utf8::encode_utf8(prompt).len()
}

impl ImageGenerationRequest {
    /// A request with the built-in default model.
    pub fn new(prompt: String) -> (r: Self)
        ensures
            r.prompt == prompt,
            r.model@ == crate::DEFAULT_MODEL_NAME@,
    {
        ImageGenerationRequest { prompt, model: GeminiModel::default() }
    }

    /// The same request aimed at `model`.
    pub fn with_model(self, model: GeminiModel) -> (r: Self)
        ensures
            r.prompt == self.prompt,
            r.model == model,
    {
        ImageGenerationRequest { prompt: self.prompt, model }
    }

    /// Validates the prompt against `max_length`: a prompt that trims to
    /// nothing is empty, and one over the bound is too long, reported with
    /// its actual byte length. A blank prompt is reported as empty whatever
    /// its length.
    pub fn validate(&self, max_length: usize) -> (r: Result<(), ValidationError>)
        ensures
            match r {
                Ok(()) => !all_whitespace(self.prompt@) && prompt_byte_len(self.prompt@) as usize
                    <= max_length,
                Err(ValidationError::EmptyPrompt) => all_whitespace(self.prompt@),
                Err(ValidationError::PromptTooLong(n)) => !all_whitespace(self.prompt@) && n
                    == prompt_byte_len(self.prompt@) as usize && n > max_length,
            },
    {
        if is_blank(self.prompt.as_str()) {
            return Err(ValidationError::EmptyPrompt);
        }
        let len = self.prompt.as_str().len();
        if len > max_length {
            return Err(ValidationError::PromptTooLong(len));
        }
        Ok(())
    }
}

/// Relies on chrono::Utc::now and chrono::DateTime::to_rfc3339: the current
/// time as RFC 3339 text. The result depends on the clock, so nothing is
/// claimed of it.
#[verifier::external_body]
fn now_rfc3339() -> String {
    chrono::Utc::now().to_rfc3339()
}

/// One generated image: its bytes, the model that made it, and when.
#[derive(Debug)]
pub struct GeneratedImage {
    pub data: Vec<u8>,
    pub model: GeminiModel,
    /// RFC 3339 text, taken from the clock at construction.
    pub generated_at: String,
}

impl GeneratedImage {
    /// Wraps freshly generated bytes, stamped with the current time.
    pub fn new(data: Vec<u8>, model: GeminiModel) -> (r: Self)
        ensures
            r.data == data,
            r.model == model,
    {
        GeneratedImage { data, model, generated_at: now_rfc3339() }
    }
}

/// Failure to build a model identifier.
#[derive(Debug, PartialEq, Eq)]
pub enum ModelParseError {
    /// The named model is absent from a non-empty allow-list.
    InvalidModel(String),
}

impl ModelParseError {
    /// The text of this failure.
    pub open spec fn spec_message(&self) -> Seq<char> {
        match *self {
            ModelParseError::InvalidModel(name) => "Invalid model: Model '"@ + name@
                + "' is not in the allowed list"@,
        }
    }

    /// The failure as text.
    pub fn message(&self) -> (r: String)
        ensures
            r@ == self.spec_message(),
    {
        match self {
            ModelParseError::InvalidModel(name) => {
                let mut m = "Invalid model: Model '".to_owned();
                m.append(name.as_str());
                m.append("' is not in the allowed list");
                m
            },
        }
    }
}

/// Failure of prompt validation.
#[derive(Debug, PartialEq, Eq)]
pub enum ValidationError {
    /// The prompt trims to the empty string.
    EmptyPrompt,
    /// The prompt is longer than the configured maximum; carries its actual
    /// byte length.
    PromptTooLong(usize),
}

impl ValidationError {
    /// The text of this failure.
    pub open spec fn spec_message(&self) -> Seq<char> {
        match *self {
            ValidationError::EmptyPrompt => "Prompt cannot be empty"@,
            ValidationError::PromptTooLong(n) => "Prompt too long: "@ + spec_decimal(n as nat)
                + " characters (max: 10000)"@,
        }
    }

    /// The failure as text.
    pub fn message(&self) -> (r: String)
        ensures
            r@ == self.spec_message(),
    {
        match self {
            ValidationError::EmptyPrompt => "Prompt cannot be empty".to_owned(),
            ValidationError::PromptTooLong(n) => {
                let mut m = "Prompt too long: ".to_owned();
                let num = usize_to_string(*n);
                m.append(num.as_str());
                m.append(" characters (max: 10000)");
                proof {
                    assert(m@ =~= self.spec_message());
                }
                m
            },
        }
    }
}

} // verus!
