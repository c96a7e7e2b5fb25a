//! The use case: validate a request, then — only if it is valid — hand it to
//! the generation port. Strictly sequential, no retry, no partial results.

use vstd::prelude::*;
use vstd::string::StringExecFns;
use crate::image_generation::{ImageGenerationError, ImageGenerationRepository};
use crate::models::{GeneratedImage, ImageGenerationRequest, ValidationError, prompt_byte_len};
use crate::text::all_whitespace;

verus! {

/// Orchestrates one generation: validation first, then the repository.
pub struct GenerateImageUseCase<R: ImageGenerationRepository> {
    repository: R,
}

impl<R: ImageGenerationRepository> GenerateImageUseCase<R> {
    pub fn new(repository: R) -> Self {
        GenerateImageUseCase { repository }
    }

    /// Generates an image for `request`, validating the prompt against
    /// `max_prompt_length` first. An invalid prompt fails with exactly its
    /// validation error and never reaches the repository; for a valid one
    /// the repository decides, and its failure is passed on unretried.
    pub fn execute(&self, request: ImageGenerationRequest, max_prompt_length: usize) -> (r: Result<
        GeneratedImage,
        UseCaseError,
    >)
        ensures
            match r {
                Ok(_) => !all_whitespace(request.prompt@) && prompt_byte_len(request.prompt@)
                    as usize <= max_prompt_length,
                Err(UseCaseError::Validation(ValidationError::EmptyPrompt)) => all_whitespace(
                    request.prompt@,
                ),
                Err(UseCaseError::Validation(ValidationError::PromptTooLong(n))) => {
                    &&& !all_whitespace(request.prompt@)
                    &&& n == prompt_byte_len(request.prompt@) as usize
                    &&& n > max_prompt_length
                },
                Err(UseCaseError::Repository(_)) => !all_whitespace(request.prompt@)
                    && prompt_byte_len(request.prompt@) as usize <= max_prompt_length,
            },
    {
        match request.validate(max_prompt_length) {
            Ok(()) => (),
            Err(e) => {
                return Err(UseCaseError::Validation(e));
            },
        }
        match self.repository.generate_image(&request) {
            Ok(image) => Ok(image),
            Err(e) => Err(UseCaseError::Repository(e)),
        }
    }
}

/// Failure of the use case: either the request was invalid, or the
/// repository could not generate.
#[derive(Debug, PartialEq, Eq)]
pub enum UseCaseError {
    Validation(ValidationError),
    Repository(ImageGenerationError),
}

impl UseCaseError {
    /// The text of this failure: which side failed, then that side's own
    /// words.
    pub open spec fn spec_message(&self) -> Seq<char> {
        match *self {
            UseCaseError::Validation(e) => "Validation error: "@ + e.spec_message(),
            UseCaseError::Repository(e) => "Repository error: "@ + e.spec_message(),
        }
    }

    /// The failure as text.
    pub fn message(&self) -> (r: String)
        ensures
            r@ == self.spec_message(),
    {
        match self {
            UseCaseError::Validation(e) => {
                let mut m = "Validation error: ".to_owned();
                m.append(e.message().as_str());
                m
            },
            UseCaseError::Repository(e) => {
                let mut m = "Repository error: ".to_owned();
                m.append(e.message().as_str());
                m
            },
        }
    }
}

} // verus!
