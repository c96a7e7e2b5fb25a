use google_gemini_image_creator::generate_image::{GenerateImageUseCase, UseCaseError};
use google_gemini_image_creator::image_generation::{
    ImageGenerationError, ImageGenerationRepository,
};
use google_gemini_image_creator::models::{GeminiModel, GeneratedImage, ImageGenerationRequest};

struct MockRepository {
    should_fail: bool,
}

impl ImageGenerationRepository for MockRepository {
    fn generate_image(
        &self,
        _request: &ImageGenerationRequest,
    ) -> Result<GeneratedImage, ImageGenerationError> {
        if self.should_fail {
            Err(ImageGenerationError::ApiError("Mock error".to_string()))
        } else {
            Ok(GeneratedImage::new(
                vec![1, 2, 3, 4],
                GeminiModel::from("gemini-2.5-flash-image".to_string()),
            ))
        }
    }
}

#[test]
fn test_generate_image_use_case_success() {
    let repository = MockRepository { should_fail: false };
    let use_case = GenerateImageUseCase::new(repository);
    let request = ImageGenerationRequest::new("test prompt".to_string());

    let result = use_case.execute(request, 10000);
    assert!(result.is_ok());
    let image = result.unwrap();
    assert_eq!(image.data, vec![1, 2, 3, 4]);
}

#[test]
fn test_generate_image_use_case_validation_error() {
    let repository = MockRepository { should_fail: false };
    let use_case = GenerateImageUseCase::new(repository);
    let request = ImageGenerationRequest::new("".to_string());

    let result = use_case.execute(request, 10000);
    assert!(result.is_err());
    assert!(matches!(result.unwrap_err(), UseCaseError::Validation(_)));
}

#[test]
fn test_generate_image_use_case_repository_error() {
    let repository = MockRepository { should_fail: true };
    let use_case = GenerateImageUseCase::new(repository);
    let request = ImageGenerationRequest::new("test prompt".to_string());

    let result = use_case.execute(request, 10000);
    assert!(result.is_err());
    assert!(matches!(result.unwrap_err(), UseCaseError::Repository(_)));
}

#[test]
fn use_case_error_messages() {
    let e = UseCaseError::Repository(ImageGenerationError::ApiError("boom".to_string()));
    assert_eq!(e.message(), "Repository error: API error: boom");
    let v = UseCaseError::Validation(
        google_gemini_image_creator::models::ValidationError::EmptyPrompt,
    );
    assert_eq!(v.message(), "Validation error: Prompt cannot be empty");
}
