use std::cell::Cell;
use std::rc::Rc;

use google_gemini_image_creator::config::Config;
use google_gemini_image_creator::generate_image::GenerateImageUseCase;
use google_gemini_image_creator::handlers::RequestHandler;
use google_gemini_image_creator::image_generation::{
    ImageGenerationError, ImageGenerationRepository,
};
use google_gemini_image_creator::json::{json_to_string, parse_json};
use google_gemini_image_creator::mcp_server::McpServer;
use google_gemini_image_creator::models::{GeneratedImage, ImageGenerationRequest};

struct CountingRepository {
    calls: Rc<Cell<u32>>,
    fail_with_rate_limit: bool,
}

impl ImageGenerationRepository for CountingRepository {
    fn generate_image(
        &self,
        request: &ImageGenerationRequest,
    ) -> Result<GeneratedImage, ImageGenerationError> {
        self.calls.set(self.calls.get() + 1);
        if self.fail_with_rate_limit {
            Err(ImageGenerationError::RateLimitError("Rate limit exceeded".to_string()))
        } else {
            Ok(GeneratedImage::new(vec![1, 2, 3, 4], request.model.clone()))
        }
    }
}

fn handler(fail_with_rate_limit: bool) -> (RequestHandler<CountingRepository>, Rc<Cell<u32>>) {
    let calls = Rc::new(Cell::new(0));
    let repo = CountingRepository { calls: calls.clone(), fail_with_rate_limit };
    let server = McpServer::new(
        GenerateImageUseCase::new(repo),
        "gemini-2.5-flash-image".to_string(),
        Vec::new(),
        10000,
    );
    (RequestHandler::with_config(server, Config::default()), calls)
}

fn answer(h: &RequestHandler<CountingRepository>, line: &str) -> String {
    json_to_string(h.handle_line(parse_json(line)))
}

#[test]
fn tools_list_line() {
    let (h, _calls) = handler(false);
    let out = answer(&h, "{\"jsonrpc\":\"2.0\",\"id\":1,\"method\":\"tools/list\"}");
    assert!(out.starts_with(
        "{\"jsonrpc\":\"2.0\",\"id\":1,\"result\":{\"tools\":[{\"name\":\"generate_image\""
    ));
}

#[test]
fn unparseable_line_is_a_parse_error_with_null_id() {
    let (h, _calls) = handler(false);
    let out = answer(&h, "this is not json");
    assert!(out.starts_with("{\"jsonrpc\":\"2.0\",\"error\":{\"code\":-32700,"));
    assert!(out.ends_with(",\"id\":null}"));
}

#[test]
fn non_request_json_is_a_parse_error_with_null_id() {
    let (h, _calls) = handler(false);
    let out = answer(&h, "{\"no\":\"method\"}");
    assert!(out.starts_with("{\"jsonrpc\":\"2.0\",\"error\":{\"code\":-32700,"));
    assert!(out.ends_with(",\"id\":null}"));
}

#[test]
fn empty_prompt_call_surfaces_an_internal_error() {
    let (h, _calls) = handler(false);
    let out = answer(
        &h,
        "{\"jsonrpc\":\"2.0\",\"id\":5,\"method\":\"tools/call\",\"params\":{\"name\":\"generate_image\",\"arguments\":{\"prompt\":\"\"}}}",
    );
    assert!(out.contains("\"error\":{\"code\":-32603,"));
    assert!(out.contains("Prompt cannot be empty"));
    assert!(out.contains("\"id\":5"));
    assert!(!out.contains("\"result\""));
}

#[test]
fn rate_limited_call_fails_once_and_is_not_retried() {
    let (h, calls) = handler(true);
    let out = answer(
        &h,
        "{\"jsonrpc\":\"2.0\",\"id\":9,\"method\":\"tools/call\",\"params\":{\"name\":\"generate_image\",\"arguments\":{\"prompt\":\"a cat\"}}}",
    );
    assert!(out.contains("\"error\":{\"code\":-32603,"));
    assert!(out.contains("Rate limit exceeded"));
    assert_eq!(calls.get(), 1);
}

#[test]
fn successful_call_line_carries_the_payload() {
    let (h, _calls) = handler(false);
    let out = answer(
        &h,
        "{\"jsonrpc\":\"2.0\",\"id\":2,\"method\":\"tools/call\",\"params\":{\"name\":\"generate_image\",\"arguments\":{\"prompt\":\"a cat\"}}}",
    );
    assert!(out.starts_with("{\"jsonrpc\":\"2.0\",\"id\":2,\"result\":{\"content\":[{\"type\":\"text\",\"text\":"));
    assert!(out.contains("AQIDBA=="));
    assert!(out.contains("\"isError\":false"));
}

#[test]
fn initialize_line_reports_the_server() {
    let (h, _calls) = handler(false);
    let out = answer(&h, "{\"jsonrpc\":\"2.0\",\"id\":0,\"method\":\"initialize\"}");
    assert!(out.starts_with("{\"jsonrpc\":\"2.0\",\"id\":0,\"result\":{\"protocolVersion\":\"2024-11-05\""));
    assert!(out.contains("google-gemini-image-creator"));
}

#[test]
fn unknown_method_line_is_a_method_not_found_error() {
    let (h, _calls) = handler(false);
    let out = answer(&h, "{\"jsonrpc\":\"2.0\",\"id\":3,\"method\":\"resources/list\"}");
    assert!(out.contains("\"error\":{\"code\":-32601,"));
    assert!(out.contains("Method not found: resources/list"));
}

#[test]
fn unknown_tool_call_is_a_call_failure_not_a_crash() {
    let (h, _calls) = handler(false);
    let out = answer(
        &h,
        "{\"jsonrpc\":\"2.0\",\"id\":4,\"method\":\"tools/call\",\"params\":{\"name\":\"other_tool\",\"arguments\":{}}}",
    );
    assert!(out.contains("\"error\":{\"code\":-32603,"));
    assert!(out.contains("Unknown tool: other_tool"));
}

#[test]
fn call_without_params_gets_an_internal_error_echoing_the_id() {
    let (h, _calls) = handler(false);
    let out = answer(&h, "{\"jsonrpc\":\"2.0\",\"id\":6,\"method\":\"tools/call\"}");
    assert!(out.starts_with("{\"jsonrpc\":\"2.0\",\"id\":6,\"error\":{\"code\":-32603,"));
    assert!(out.contains("Missing params for tools/call"));
}

#[test]
fn call_without_a_name_gets_an_internal_error_echoing_the_id() {
    let (h, _calls) = handler(false);
    let out = answer(
        &h,
        "{\"jsonrpc\":\"2.0\",\"id\":7,\"method\":\"tools/call\",\"params\":{\"arguments\":{\"prompt\":\"a cat\"}}}",
    );
    assert!(out.starts_with("{\"jsonrpc\":\"2.0\",\"id\":7,\"error\":{\"code\":-32603,"));
    assert!(out.contains("Missing 'name' in params"));
}

#[test]
fn id_is_echoed_back_unchanged() {
    let (h, _calls) = handler(false);
    let out = answer(&h, "{\"jsonrpc\":\"2.0\",\"id\":\"abc-123\",\"method\":\"tools/list\"}");
    assert!(out.starts_with("{\"jsonrpc\":\"2.0\",\"id\":\"abc-123\","));
    let out2 = answer(&h, "{\"jsonrpc\":\"2.0\",\"method\":\"tools/list\"}");
    assert!(out2.starts_with("{\"jsonrpc\":\"2.0\",\"id\":null,"));
}
