use google_gemini_image_creator::gemini::{
    GeminiClient, base64_round_trip, build_request_body, extract_image_data,
    interpret_http_response,
};
use google_gemini_image_creator::image_generation::ImageGenerationError;
use google_gemini_image_creator::json::{Json, json_to_string, parse_json};
use google_gemini_image_creator::models::GeminiModel;

#[test]
fn test_gemini_client_build_url() {
    let client = GeminiClient::new("test-key".to_string());
    let model = GeminiModel::from("gemini-2.5-flash-image".to_string());
    let url = client.build_url(&model);
    assert!(url.contains("gemini-2.5-flash-image"));
    assert!(url.contains("generateContent"));
}

#[test]
fn build_url_joins_base_model_and_call() {
    let client = GeminiClient::with_base_url("k".to_string(), "https://example.test/v1".to_string());
    let model = GeminiModel::from("m-1".to_string());
    assert_eq!(client.build_url(&model), "https://example.test/v1/models/m-1:generateContent");
}

#[test]
fn request_body_wraps_the_prompt() {
    let body = build_request_body("a red fox");
    let text = json_to_string(body);
    assert_eq!(text, "{\"contents\":[{\"parts\":[{\"text\":\"a red fox\"}]}]}");
}

#[test]
fn base64_round_trip_returns_the_original_bytes() {
    let data = vec![0u8, 1, 2, 3, 250, 251, 252, 253, 254, 255];
    assert_eq!(base64_round_trip(&data), data);
    let empty: Vec<u8> = Vec::new();
    assert_eq!(base64_round_trip(&empty), empty);
}

#[test]
fn extract_image_data_decodes_the_first_inline_part() {
    let body = "{\"candidates\":[{\"content\":{\"parts\":[{\"text\":\"hello\"},{\"inlineData\":{\"mimeType\":\"image/png\",\"data\":\"AQIDBA==\"}}]}}]}";
    let v = parse_json(body).unwrap();
    assert_eq!(extract_image_data(&v).unwrap(), vec![1, 2, 3, 4]);
}

#[test]
fn extract_image_data_without_candidates_is_an_api_error() {
    let v = parse_json("{\"candidates\":[]}").unwrap();
    assert_eq!(
        extract_image_data(&v).unwrap_err(),
        ImageGenerationError::ApiError("No candidates in response".to_string())
    );
}

#[test]
fn extract_image_data_without_an_image_part_is_an_api_error() {
    let v = parse_json("{\"candidates\":[{\"content\":{\"parts\":[{\"text\":\"only text\"}]}}]}")
        .unwrap();
    assert_eq!(
        extract_image_data(&v).unwrap_err(),
        ImageGenerationError::ApiError("No image data in response".to_string())
    );
}

#[test]
fn extract_image_data_reports_bad_base64() {
    let v = parse_json("{\"candidates\":[{\"content\":{\"parts\":[{\"inlineData\":{\"data\":\"!!!\"}}]}}]}")
        .unwrap();
    match extract_image_data(&v).unwrap_err() {
        ImageGenerationError::ApiError(m) => {
            assert!(m.starts_with("Failed to decode base64: "))
        },
        other => panic!("unexpected error: {:?}", other),
    }
}

#[test]
fn status_401_is_an_authentication_error() {
    assert_eq!(
        interpret_http_response(401, "whatever").unwrap_err(),
        ImageGenerationError::AuthenticationError("Invalid API key".to_string())
    );
}

#[test]
fn status_429_is_a_rate_limit_error() {
    assert_eq!(
        interpret_http_response(429, "slow down").unwrap_err(),
        ImageGenerationError::RateLimitError("Rate limit exceeded".to_string())
    );
}

#[test]
fn status_400_carries_the_body_as_invalid_prompt() {
    assert_eq!(
        interpret_http_response(400, "bad prompt body").unwrap_err(),
        ImageGenerationError::InvalidPromptError("bad prompt body".to_string())
    );
}

#[test]
fn other_failure_statuses_name_status_and_body() {
    assert_eq!(
        interpret_http_response(503, "unavailable").unwrap_err(),
        ImageGenerationError::ApiError("API returned status 503: unavailable".to_string())
    );
}

#[test]
fn success_status_with_an_image_body_yields_the_bytes() {
    let body = "{\"candidates\":[{\"content\":{\"parts\":[{\"inlineData\":{\"data\":\"AQIDBA==\"}}]}}]}";
    assert_eq!(interpret_http_response(200, body).unwrap(), vec![1, 2, 3, 4]);
}

#[test]
fn success_status_with_a_non_json_body_is_a_network_error() {
    match interpret_http_response(200, "not json").unwrap_err() {
        ImageGenerationError::NetworkError(m) => assert!(m.starts_with("HTTP error: ")),
        other => panic!("unexpected error: {:?}", other),
    }
}

#[test]
fn parse_json_round_trips_an_object() {
    let v = parse_json("{\"a\":[1,true,null,\"x\"],\"b\":{\"c\":-2}}").unwrap();
    assert_eq!(json_to_string(v), "{\"a\":[1,true,null,\"x\"],\"b\":{\"c\":-2}}");
}

#[test]
fn json_get_finds_the_first_member() {
    let v = parse_json("{\"a\":1,\"b\":2}").unwrap();
    assert_eq!(v.get("b"), Some(&Json::Num("2".to_string())));
    assert_eq!(v.get("missing"), None);
}
