use google_gemini_image_creator::image_generation::ImageGenerationError;

#[test]
fn test_image_generation_error_display() {
    let err = ImageGenerationError::AuthenticationError("Invalid API key".to_string());
    assert!(err.message().contains("authentication"));
}

#[test]
fn error_messages_carry_their_kind_and_detail() {
    assert_eq!(
        ImageGenerationError::AuthenticationError("k".to_string()).message(),
        "API authentication error: k"
    );
    assert_eq!(
        ImageGenerationError::RateLimitError("r".to_string()).message(),
        "Rate limit exceeded: r"
    );
    assert_eq!(
        ImageGenerationError::InvalidPromptError("p".to_string()).message(),
        "Invalid prompt: p"
    );
    assert_eq!(
        ImageGenerationError::NetworkError("n".to_string()).message(),
        "Network error: n"
    );
    assert_eq!(ImageGenerationError::ApiError("a".to_string()).message(), "API error: a");
    assert_eq!(ImageGenerationError::Unknown("u".to_string()).message(), "Unknown error: u");
}
