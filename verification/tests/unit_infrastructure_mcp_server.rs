use google_gemini_image_creator::generate_image::{GenerateImageUseCase, UseCaseError};
use google_gemini_image_creator::image_generation::{
    ImageGenerationError, ImageGenerationRepository,
};
use google_gemini_image_creator::json::{Json, parse_json};
use google_gemini_image_creator::mcp_server::{McpError, McpServer};
use google_gemini_image_creator::models::{
    GeneratedImage, ImageGenerationRequest, ValidationError,
};

struct MockRepository;

impl ImageGenerationRepository for MockRepository {
    fn generate_image(
        &self,
        request: &ImageGenerationRequest,
    ) -> Result<GeneratedImage, ImageGenerationError> {
        Ok(GeneratedImage::new(vec![1, 2, 3, 4], request.model.clone()))
    }
}

fn server(allowed: Vec<String>) -> McpServer<MockRepository> {
    McpServer::new(
        GenerateImageUseCase::new(MockRepository),
        "gemini-2.5-flash-image".to_string(),
        allowed,
        10000,
    )
}

#[test]
fn test_list_tools() {
    let server = server(Vec::new());
    let tools = server.list_tools();
    assert_eq!(tools.len(), 1);
    assert_eq!(tools[0].name, "generate_image");
}

#[test]
fn list_tools_enumerates_the_allow_list() {
    let server = server(vec!["m-a".to_string(), "m-b".to_string()]);
    let tools = server.list_tools();
    let schema = tools[0].input_schema.as_ref().unwrap();
    match schema.get("properties").unwrap().get("model").unwrap().get("enum").unwrap() {
        Json::Arr(models) => {
            assert_eq!(models.len(), 2);
            assert_eq!(models[0], Json::Str("m-a".to_string()));
            assert_eq!(models[1], Json::Str("m-b".to_string()));
        },
        other => panic!("enum is not an array: {:?}", other),
    }
}

#[test]
fn unknown_tool_fails_without_a_crash() {
    let server = server(Vec::new());
    let args = Json::Obj(Vec::new());
    let err = server.call_tool("someone_else", &args).unwrap_err();
    assert_eq!(err, McpError::UnknownTool("someone_else".to_string()));
    assert_eq!(err.message(), "Unknown tool: someone_else");
}

#[test]
fn missing_prompt_fails_the_call() {
    let server = server(Vec::new());
    let args = Json::Obj(Vec::new());
    let err = server.call_tool("generate_image", &args).unwrap_err();
    assert_eq!(err, McpError::MissingPrompt);
    assert_eq!(err.message(), "Missing required parameter: prompt");
}

#[test]
fn empty_prompt_fails_validation() {
    let server = server(Vec::new());
    let args = Json::Obj(vec![("prompt".to_string(), Json::Str("".to_string()))]);
    let err = server.call_tool("generate_image", &args).unwrap_err();
    assert_eq!(
        err,
        McpError::Generation(UseCaseError::Validation(ValidationError::EmptyPrompt))
    );
}

#[test]
fn disallowed_model_fails_the_call() {
    let server = server(vec!["m-a".to_string()]);
    let args = Json::Obj(vec![
        ("prompt".to_string(), Json::Str("a cat".to_string())),
        ("model".to_string(), Json::Str("m-b".to_string())),
    ]);
    let err = server.call_tool("generate_image", &args).unwrap_err();
    assert_eq!(
        err.message(),
        "Invalid model: Invalid model: Model 'm-b' is not in the allowed list"
    );
}

#[test]
fn successful_call_encodes_the_image() {
    let server = server(Vec::new());
    let args = Json::Obj(vec![("prompt".to_string(), Json::Str("a cat".to_string()))]);
    let result = server.call_tool("generate_image", &args).unwrap();
    assert!(!result.is_error);
    assert_eq!(result.content.len(), 1);
    match &result.content[0] {
        google_gemini_image_creator::mcp_types::Content::Text { text } => {
            assert!(text.contains("\"image_data\":\"AQIDBA==\""));
            assert!(text.contains("\"model\":\"gemini-2.5-flash-image\""));
            assert!(text.contains("\"size_bytes\":4"));
        },
        other => panic!("not a text block: {:?}", other),
    }
}

#[test]
fn non_string_model_falls_back_to_the_default() {
    let server = server(Vec::new());
    let args = parse_json("{\"prompt\":\"a cat\",\"model\":7}").unwrap();
    let result = server.call_tool("generate_image", &args).unwrap();
    match &result.content[0] {
        google_gemini_image_creator::mcp_types::Content::Text { text } => {
            assert!(text.contains("\"model\":\"gemini-2.5-flash-image\""));
        },
        other => panic!("not a text block: {:?}", other),
    }
}
