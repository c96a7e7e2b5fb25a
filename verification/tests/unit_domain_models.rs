use google_gemini_image_creator::config::parse_allowed_models;
use google_gemini_image_creator::models::{
    GeminiModel, GeneratedImage, ImageGenerationRequest, ValidationError,
};

#[test]
fn test_gemini_model_display() {
    let model1 = GeminiModel::from("gemini-2.5-flash-image".to_string());
    assert_eq!(model1.as_str(), "gemini-2.5-flash-image");

    let model2 = GeminiModel::from("gemini-3-pro-image-preview".to_string());
    assert_eq!(model2.as_str(), "gemini-3-pro-image-preview");
}

#[test]
fn test_gemini_model_try_from() {
    // With an empty allow-list every construction succeeds.
    let allowed: Vec<String> = Vec::new();
    let result1 = GeminiModel::try_new("gemini-2.5-flash-image", &allowed);
    let result2 = GeminiModel::try_new("gemini-3-pro-image-preview", &allowed);
    let result3 = GeminiModel::try_new("custom-model-name", &allowed);

    let test_models = vec![
        ("gemini-2.5-flash-image", &result1),
        ("gemini-3-pro-image-preview", &result2),
        ("custom-model-name", &result3),
    ];

    let mut success_count = 0;
    for (name, result) in &test_models {
        if let Ok(model) = result {
            assert_eq!(model.as_str(), *name);
            success_count += 1;
        }
    }

    assert!(success_count > 0, "At least one model should be allowed");
}

#[test]
fn test_gemini_model_allowed_list() {
    let allowed = vec![
        "gemini-2.5-flash-image".to_string(),
        "gemini-3-pro-image-preview".to_string(),
    ];
    let result1 = GeminiModel::try_new("gemini-2.5-flash-image", &allowed);
    let result2 = GeminiModel::try_new("gemini-3-pro-image-preview", &allowed);
    let result3 = GeminiModel::try_new("custom-model-name", &allowed);

    assert!(result1.is_ok());
    assert!(result2.is_ok());
    assert!(result3.is_err(), "Model not in allowed list should fail");
}

#[test]
fn test_gemini_model_is_allowed() {
    let empty: Vec<String> = Vec::new();
    let listed = vec!["a-model".to_string(), "b-model".to_string()];
    let a = GeminiModel::from("a-model".to_string());
    let c = GeminiModel::from("c-model".to_string());
    assert!(a.is_allowed(&empty));
    assert!(c.is_allowed(&empty));
    assert!(a.is_allowed(&listed));
    assert!(!c.is_allowed(&listed));
}

#[test]
fn test_image_generation_request_new() {
    let request = ImageGenerationRequest::new("test prompt".to_string());
    assert_eq!(request.prompt, "test prompt");
    assert_eq!(request.model.as_str(), "gemini-2.5-flash-image");
}

#[test]
fn test_image_generation_request_with_model() {
    let request = ImageGenerationRequest::new("test".to_string())
        .with_model(GeminiModel::from("gemini-3-pro-image-preview".to_string()));
    assert_eq!(request.model.as_str(), "gemini-3-pro-image-preview");
}

#[test]
fn test_image_generation_request_validate_empty() {
    let request = ImageGenerationRequest::new("".to_string());
    assert!(request.validate(10000).is_err());
}

#[test]
fn test_image_generation_request_validate_whitespace() {
    let request = ImageGenerationRequest::new("   ".to_string());
    assert!(request.validate(10000).is_err());
}

#[test]
fn test_image_generation_request_validate_too_long() {
    let prompt = "a".repeat(10001);
    let request = ImageGenerationRequest::new(prompt);
    assert!(request.validate(10000).is_err());
}

#[test]
fn test_image_generation_request_validate_valid() {
    let request = ImageGenerationRequest::new("valid prompt".to_string());
    assert!(request.validate(10000).is_ok());
}

#[test]
fn validate_reports_empty_prompt_exactly() {
    let request = ImageGenerationRequest::new("\t \n".to_string());
    assert_eq!(request.validate(10000), Err(ValidationError::EmptyPrompt));
}

#[test]
fn validate_reports_actual_length() {
    let request = ImageGenerationRequest::new("b".repeat(10001));
    assert_eq!(request.validate(10000), Err(ValidationError::PromptTooLong(10001)));
}

#[test]
fn validate_counts_bytes_not_chars() {
    // Four three-byte characters: twelve bytes, over a ten-byte bound.
    let request = ImageGenerationRequest::new("\u{3042}\u{3044}\u{3046}\u{3048}".to_string());
    assert_eq!(request.validate(10), Err(ValidationError::PromptTooLong(12)));
}

#[test]
fn blank_prompt_over_the_bound_is_reported_empty() {
    let request = ImageGenerationRequest::new(" ".repeat(10001));
    assert_eq!(request.validate(10000), Err(ValidationError::EmptyPrompt));
}

#[test]
fn validation_error_messages() {
    assert_eq!(ValidationError::EmptyPrompt.message(), "Prompt cannot be empty");
    assert_eq!(
        ValidationError::PromptTooLong(10001).message(),
        "Prompt too long: 10001 characters (max: 10000)"
    );
}

#[test]
fn model_parse_error_message() {
    let allowed = vec!["only-this".to_string()];
    let err = GeminiModel::try_new("custom", &allowed).unwrap_err();
    assert_eq!(
        err.message(),
        "Invalid model: Model 'custom' is not in the allowed list"
    );
}

#[test]
fn allow_list_parsing_trims_and_drops_empties() {
    assert_eq!(
        parse_allowed_models(" a-model , b-model ,,  ,c"),
        vec!["a-model".to_string(), "b-model".to_string(), "c".to_string()]
    );
    assert_eq!(parse_allowed_models(""), Vec::<String>::new());
    assert_eq!(parse_allowed_models(" , ,"), Vec::<String>::new());
    assert_eq!(parse_allowed_models("solo"), vec!["solo".to_string()]);
}

#[test]
fn test_generated_image_new() {
    let data = vec![1, 2, 3, 4];
    let model = GeminiModel::from("gemini-2.5-flash-image".to_string());
    let image = GeneratedImage::new(data.clone(), model.clone());
    assert_eq!(image.data, data);
    assert_eq!(image.model.as_str(), model.as_str());
}
