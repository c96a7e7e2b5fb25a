//! The tool server: advertises the one `generate_image` tool and carries a
//! tool call through argument decoding, model selection, the use case, and
//! result encoding.

use vstd::prelude::*;
use vstd::string::StringExecFns;
use crate::gemini::{b64_encode, b64_encoding};
use crate::generate_image::{GenerateImageUseCase, UseCaseError};
use crate::image_generation::ImageGenerationRepository;
use crate::json::Json;
use crate::mcp_types::{CallToolResult, Content, Tool, spec_member_string};
use crate::models::{
    GeminiModel, GeneratedImage, ImageGenerationRequest, ModelParseError, ValidationError,
    prompt_byte_len, spec_allowed,
};
use crate::text::{all_whitespace, spec_decimal, str_eq, usize_to_string};

verus! {

/// The server: the use case it defers to, and the configuration that shapes
/// the advertised tool.
pub struct McpServer<R: ImageGenerationRepository> {
    pub use_case: GenerateImageUseCase<R>,
    pub default_model: String,
    pub allowed_models: Vec<String>,
    pub max_prompt_length: usize,
}

/// Failure of a tool call, before or after the use case.
#[derive(Debug, PartialEq)]
pub enum McpError {
    /// The call named a tool this server does not expose.
    UnknownTool(String),
    /// The arguments carry no string `prompt`.
    MissingPrompt,
    /// The arguments name a model outside the allow-list.
    InvalidModel(ModelParseError),
    /// The use case failed, by validation or by the repository.
    Generation(UseCaseError),
}

impl McpError {
    /// The text of this failure.
    pub open spec fn spec_message(&self) -> Seq<char> {
        match *self {
            McpError::UnknownTool(name) => "Unknown tool: "@ + name@,
            McpError::MissingPrompt => "Missing required parameter: prompt"@,
            McpError::InvalidModel(e) => "Invalid model: "@ + e.spec_message(),
            McpError::Generation(e) => "Image generation failed: "@ + e.spec_message(),
        }
    }

    /// The failure as text.
    pub fn message(&self) -> (r: String)
        ensures
            r@ == self.spec_message(),
    {
        match self {
            McpError::UnknownTool(name) => {
                let mut m = "Unknown tool: ".to_owned();
                m.append(name.as_str());
                m
            },
            McpError::MissingPrompt => "Missing required parameter: prompt".to_owned(),
            McpError::InvalidModel(e) => {
                let mut m = "Invalid model: ".to_owned();
                m.append(e.message().as_str());
                m
            },
            McpError::Generation(e) => {
                let mut m = "Image generation failed: ".to_owned();
                m.append(e.message().as_str());
                m
            },
        }
    }
}

/// The text content block of a successful call: one JSON object naming the
/// encoded image, the model, the timestamp and the byte count.
pub open spec fn spec_image_payload(b64: Seq<char>, model: Seq<char>, at: Seq<char>, size: nat) -> Seq<
    char,
> {
    "{\"image_data\":\""@ + b64 + "\",\"model\":\""@ + model + "\",\"generated_at\":\""@ + at
        + "\",\"size_bytes\":"@ + spec_decimal(size) + "}"@
}

/// What a tool call must answer once a string prompt was found and the model
/// passed the allow-list: an invalid prompt fails with its validation error,
/// and for a valid one the repository decides between a single non-error
/// text block and a repository failure.
pub open spec fn spec_generation_outcome(
    prompt: String,
    max_len: usize,
    r: Result<CallToolResult, McpError>,
) -> bool {
    if all_whitespace(prompt@) {
        r matches Err(
            McpError::Generation(UseCaseError::Validation(ValidationError::EmptyPrompt)),
        )
    } else if prompt_byte_len(prompt@) as usize > max_len {
        r matches Err(
            McpError::Generation(UseCaseError::Validation(ValidationError::PromptTooLong(n))),
        ) && n == prompt_byte_len(prompt@) as usize
    } else {
        match r {
            Ok(res) => !res.is_error && res.content@.len() == 1 && (res.content@[0]
                matches Content::Text { text } && (exists|data: Seq<u8>, model: Seq<char>, at: Seq<
                char,
            >| text@ == #[trigger] spec_image_payload(b64_encoding(data), model, at, data.len()))),
            Err(e) => e matches McpError::Generation(UseCaseError::Repository(_)),
        }
    }
}

/// What a `generate_image` call must answer for its arguments: no string
/// prompt fails at once; a named model is held to the allow-list; an absent
/// or non-string model falls back to the default, unchecked.
pub open spec fn spec_tool_call_outcome(
    args: Json,
    allowed: Vec<String>,
    max_len: usize,
    r: Result<CallToolResult, McpError>,
) -> bool {
    match spec_member_string(args, "prompt"@) {
        None => r matches Err(McpError::MissingPrompt),
        Some(prompt) => match spec_member_string(args, "model"@) {
            Some(m) => if !spec_allowed(m@, allowed.deep_view()) {
                r matches Err(McpError::InvalidModel(ModelParseError::InvalidModel(n))) && n@
                    == m@
            } else {
                spec_generation_outcome(prompt, max_len, r)
            },
            None => spec_generation_outcome(prompt, max_len, r),
        },
    }
}

/// Whether `j` is the advertised schema of the `model` argument: a free
/// string with the default shown when the allow-list is empty, an enumerated
/// choice over exactly the allowed names otherwise.
pub open spec fn spec_model_schema(j: Json, default_model: String, allowed: Seq<String>) -> bool {
    if allowed.len() == 0 {
        &&& j matches Json::Obj(ms)
        &&& ms@.len() == 3
        &&& ms@[0].0@ == "type"@
        &&& (ms@[0].1 matches Json::Str(t) && t@ == "string"@)
        &&& ms@[1].0@ == "description"@
        &&& (ms@[1].1 matches Json::Str(d) && d@
            == "Gemini model name to use (can be restricted via GEMINI_ALLOWED_MODELS environment variable)"@)
        &&& ms@[2].0@ == "default"@
        &&& ms@[2].1 == Json::Str(default_model)
    } else {
        &&& j matches Json::Obj(ms)
        &&& ms@.len() == 4
        &&& ms@[0].0@ == "type"@
        &&& (ms@[0].1 matches Json::Str(t) && t@ == "string"@)
        &&& ms@[1].0@ == "description"@
        &&& (ms@[1].1 matches Json::Str(d) && d@ == "Gemini model name to use"@)
        &&& ms@[2].0@ == "enum"@
        &&& (ms@[2].1 matches Json::Arr(e) && e@.len() == allowed.len() && (forall|i: int|
            0 <= i < allowed.len() ==> e@[i] == Json::Str(allowed[i])))
        &&& ms@[3].0@ == "default"@
        &&& ms@[3].1 == Json::Str(default_model)
    }
}

/// Whether `j` is the advertised input schema of the tool: an object with a
/// required string `prompt` and an optional `model` shaped by the allow-list.
pub open spec fn spec_input_schema(j: Json, default_model: String, allowed: Seq<String>) -> bool {
    &&& j matches Json::Obj(ms)
    &&& ms@.len() == 3
    &&& ms@[0].0@ == "type"@
    &&& (ms@[0].1 matches Json::Str(t) && t@ == "object"@)
    &&& ms@[1].0@ == "properties"@
    &&& (ms@[1].1 matches Json::Obj(props) && props@.len() == 2 && props@[0].0@ == "prompt"@ && (
    props@[0].1 matches Json::Obj(ps) && ps@.len() == 2 && ps@[0].0@ == "type"@ && (ps@[0].1
        matches Json::Str(t) && t@ == "string"@) && ps@[1].0@ == "description"@ && (ps@[1].1
        matches Json::Str(d) && d@ == "Text prompt for image generation"@)) && props@[1].0@
        == "model"@ && spec_model_schema(props@[1].1, default_model, allowed))
    &&& ms@[2].0@ == "required"@
    &&& (ms@[2].1 matches Json::Arr(req) && req@.len() == 1 && (req@[0] matches Json::Str(p) && p@
        == "prompt"@))
}

/// Renders the payload text for one generated image.
fn image_payload(b64: &str, model: &str, at: &str, size: usize) -> (r: String)
    ensures
        r@ == spec_image_payload(b64@, model@, at@, size as nat),
{
    let mut m = "{\"image_data\":\"".to_owned();
    m.append(b64);
    m.append("\",\"model\":\"");
    m.append(model);
    m.append("\",\"generated_at\":\"");
    m.append(at);
    m.append("\",\"size_bytes\":");
    let num = usize_to_string(size);
    m.append(num.as_str());
    m.append("}");
    proof {
        assert(m@ =~= spec_image_payload(b64@, model@, at@, size as nat));
    }
    m
}

/// Encodes one generated image as a tool-call result: a single text block
/// holding the payload object, not an error.
pub fn image_result(image: &GeneratedImage) -> (r: CallToolResult)
    ensures
        !r.is_error,
        r.content@.len() == 1,
        r.content@[0] matches Content::Text { text } && text@ == spec_image_payload(
            b64_encoding(image.data@),
            image.model@,
            image.generated_at@,
            image.data@.len(),
        ),
{
    let b64 = b64_encode(image.data.as_slice());
    let text = image_payload(
        b64.as_str(),
        image.model.as_str(),
        image.generated_at.as_str(),
        image.data.len(),
    );
    let mut content: Vec<Content> = Vec::new();
    content.push(Content::Text { text });
    CallToolResult { content, is_error: false }
}

impl<R: ImageGenerationRepository> McpServer<R> {
    /// A server over `use_case`, advertising and enforcing the given model
    /// configuration.
    pub fn new(
        use_case: GenerateImageUseCase<R>,
        default_model: String,
        allowed_models: Vec<String>,
        max_prompt_length: usize,
    ) -> (r: Self)
        ensures
            r.use_case == use_case,
            r.default_model == default_model,
            r.allowed_models == allowed_models,
            r.max_prompt_length == max_prompt_length,
    {
        McpServer { use_case, default_model, allowed_models, max_prompt_length }
    }

    /// The advertised tools: always exactly one descriptor, named
    /// `generate_image`, with the input schema the configuration shapes.
    pub fn list_tools(&self) -> (r: Vec<Tool>)
        ensures
            r@.len() == 1,
            r@[0].name@ == "generate_image"@,
            r@[0].description matches Some(d) && d@
                == "Generate images from text prompts using Google Gemini's Banana (image generation feature)."@,
            r@[0].input_schema matches Some(s) && spec_input_schema(
                s,
                self.default_model,
                self.allowed_models@,
            ),
    {
        let model_schema: Json;
        if self.allowed_models.len() == 0 {
            let mut ms: Vec<(String, Json)> = Vec::new();
            ms.push(("type".to_owned(), Json::Str("string".to_owned())));
            ms.push(
                (
                    "description".to_owned(),
                    Json::Str(
                        "Gemini model name to use (can be restricted via GEMINI_ALLOWED_MODELS environment variable)".to_owned(),
                    ),
                ),
            );
            ms.push(("default".to_owned(), Json::Str(self.default_model.clone())));
            model_schema = Json::Obj(ms);
        } else {
            let mut e: Vec<Json> = Vec::new();
            let n = self.allowed_models.len();
            let mut i: usize = 0;
            while i < n
                invariant
                    i <= n,
                    n == self.allowed_models@.len(),
                    e@.len() == i,
                    forall|j: int| 0 <= j < i ==> e@[j] == Json::Str(self.allowed_models@[j]),
                decreases n - i,
            {
                e.push(Json::Str(self.allowed_models[i].clone()));
                i += 1;
            }
            let mut ms: Vec<(String, Json)> = Vec::new();
            ms.push(("type".to_owned(), Json::Str("string".to_owned())));
            ms.push(("description".to_owned(), Json::Str("Gemini model name to use".to_owned())));
            ms.push(("enum".to_owned(), Json::Arr(e)));
            ms.push(("default".to_owned(), Json::Str(self.default_model.clone())));
            model_schema = Json::Obj(ms);
        }
        let mut prompt_schema: Vec<(String, Json)> = Vec::new();
        prompt_schema.push(("type".to_owned(), Json::Str("string".to_owned())));
        prompt_schema.push(
            ("description".to_owned(), Json::Str("Text prompt for image generation".to_owned())),
        );
        let mut props: Vec<(String, Json)> = Vec::new();
        props.push(("prompt".to_owned(), Json::Obj(prompt_schema)));
        props.push(("model".to_owned(), model_schema));
        let mut required: Vec<Json> = Vec::new();
        required.push(Json::Str("prompt".to_owned()));
        let mut schema: Vec<(String, Json)> = Vec::new();
        schema.push(("type".to_owned(), Json::Str("object".to_owned())));
        schema.push(("properties".to_owned(), Json::Obj(props)));
        schema.push(("required".to_owned(), Json::Arr(required)));
        let tool = Tool {
            name: "generate_image".to_owned(),
            description: Some(
                "Generate images from text prompts using Google Gemini's Banana (image generation feature).".to_owned(),
            ),
            input_schema: Some(Json::Obj(schema)),
        };
        let mut tools: Vec<Tool> = Vec::new();
        tools.push(tool);
        tools
    }

    /// Handles one tool call: only `generate_image` exists, and any other
    /// name fails with an unknown-tool error naming it.
    pub fn call_tool(&self, name: &str, arguments: &Json) -> (r: Result<CallToolResult, McpError>)
        ensures
            name@ == "generate_image"@ ==> spec_tool_call_outcome(
                *arguments,
                self.allowed_models,
                self.max_prompt_length,
                r,
            ),
            name@ != "generate_image"@ ==> (r matches Err(McpError::UnknownTool(n)) && n@
                == name@),
    {
        if str_eq(name, "generate_image") {
            self.handle_generate_image(arguments)
        } else {
            Err(McpError::UnknownTool(name.to_owned()))
        }
    }

    /// Carries one `generate_image` call: extracts the prompt, selects and
    /// checks the model, runs the use case, and encodes the image.
    fn handle_generate_image(&self, arguments: &Json) -> (r: Result<CallToolResult, McpError>)
        ensures
            spec_tool_call_outcome(*arguments, self.allowed_models, self.max_prompt_length, r),
    {
        let prompt: String = match arguments.get("prompt") {
            Some(j) => match j {
                Json::Str(s) => s.clone(),
                _ => {
                    return Err(McpError::MissingPrompt);
                },
            },
            None => {
                return Err(McpError::MissingPrompt);
            },
        };
        let model: GeminiModel = match arguments.get("model") {
            Some(j) => match j {
                Json::Str(s) => match GeminiModel::try_new(
                    s.as_str(),
                    self.allowed_models.as_slice(),
                ) {
                    Ok(m) => m,
                    Err(e) => {
                        return Err(McpError::InvalidModel(e));
                    },
                },
                _ => GeminiModel::from(self.default_model.clone()),
            },
            None => GeminiModel::from(self.default_model.clone()),
        };
        let request = ImageGenerationRequest::new(prompt).with_model(model);
        let image: GeneratedImage = match self.use_case.execute(request, self.max_prompt_length) {
            Ok(image) => image,
            Err(e) => {
                return Err(McpError::Generation(e));
            },
        };
        let result = image_result(&image);
        proof {
            assert(result.content@[0] matches Content::Text { text } && text@
                == spec_image_payload(
                b64_encoding(image.data@),
                image.model@,
                image.generated_at@,
                image.data@.len(),
            ));
        }
        Ok(result)
    }
}

} // verus!
