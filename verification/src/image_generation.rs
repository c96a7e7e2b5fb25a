//! The abstract image-generation capability: a port the use case delegates
//! to, implemented outside the library by an HTTP adapter and, in tests, by
//! stand-ins.

use vstd::prelude::*;
use vstd::string::StringExecFns;
use crate::models::{GeneratedImage, ImageGenerationRequest};

verus! {

/// The one capability the domain needs: generate an image for a request.
///
/// Implementations decide the outcome; callers of the trait state what holds
/// of every outcome rather than promising success.
pub trait ImageGenerationRepository {
    fn generate_image(&self, request: &ImageGenerationRequest) -> Result<
        GeneratedImage,
        ImageGenerationError,
    >;
}

/// How a generation attempt failed, with the reporter's words.
#[derive(Debug, PartialEq, Eq)]
pub enum ImageGenerationError {
    AuthenticationError(String),
    RateLimitError(String),
    InvalidPromptError(String),
    NetworkError(String),
    ApiError(String),
    Unknown(String),
}

impl ImageGenerationError {
    /// The text of this failure: the kind's fixed prefix, then the detail.
    pub open spec fn spec_message(&self) -> Seq<char> {
        match *self {
            ImageGenerationError::AuthenticationError(d) => "API authentication error: "@ + d@,
            ImageGenerationError::RateLimitError(d) => "Rate limit exceeded: "@ + d@,
            ImageGenerationError::InvalidPromptError(d) => "Invalid prompt: "@ + d@,
            ImageGenerationError::NetworkError(d) => "Network error: "@ + d@,
            ImageGenerationError::ApiError(d) => "API error: "@ + d@,
            ImageGenerationError::Unknown(d) => "Unknown error: "@ + d@,
        }
    }

    /// The failure as text.
    pub fn message(&self) -> (r: String)
        ensures
            r@ == self.spec_message(),
    {
        let mut m: String;
        match self {
            ImageGenerationError::AuthenticationError(d) => {
                m = "API authentication error: ".to_owned();
                m.append(d.as_str());
            },
            ImageGenerationError::RateLimitError(d) => {
                m = "Rate limit exceeded: ".to_owned();
                m.append(d.as_str());
            },
            ImageGenerationError::InvalidPromptError(d) => {
                m = "Invalid prompt: ".to_owned();
                m.append(d.as_str());
            },
            ImageGenerationError::NetworkError(d) => {
                m = "Network error: ".to_owned();
                m.append(d.as_str());
            },
            ImageGenerationError::ApiError(d) => {
                m = "API error: ".to_owned();
                m.append(d.as_str());
            },
            ImageGenerationError::Unknown(d) => {
                m = "Unknown error: ".to_owned();
                m.append(d.as_str());
            },
        }
        m
    }
}

} // verus!
