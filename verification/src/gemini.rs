//! The verified half of the Gemini HTTP adapter: building the request URL
//! and body, classifying the HTTP status, and digging the base64-encoded
//! image out of a response. The one network send lives outside the library;
//! it hands back a status and a body, or a transport failure, and everything
//! after that point is verified here.

use vstd::prelude::*;
use vstd::string::StringExecFns;
use base64::Engine;
use crate::image_generation::ImageGenerationError;
use crate::json::{Json, json_parse_of, parse_json, spec_get};
use crate::models::GeminiModel;
use crate::text::{spec_decimal, usize_to_string};

verus! {

/// The standard base64 encoding, with padding, of `bytes`; a fixed function
/// of the bytes.
pub uninterp spec fn b64_encoding(bytes: Seq<u8>) -> Seq<char>;

/// What standard base64 decoding yields for `text`: the encoded bytes, or
/// nothing when the text is not a valid encoding.
pub uninterp spec fn b64_decoding(text: Seq<char>) -> Option<Seq<u8>>;

/// Relies on base64's STANDARD engine: encodes any byte sequence, and its
/// documentation promises that decoding with the same engine gives the bytes
/// back.
#[verifier::external_body]
pub(crate) fn b64_encode(data: &[u8]) -> (r: String)
    ensures
        r@ == b64_encoding(data@),
        b64_decoding(r@) == Some(data@),
{
    base64::engine::general_purpose::STANDARD.encode(data)
}

/// Relies on base64's STANDARD engine: decoding succeeds exactly on valid
/// standard encodings and then yields the encoded bytes; the error's text is
/// kept otherwise.
#[verifier::external_body]
pub(crate) fn b64_decode(text: &str) -> (r: Result<Vec<u8>, String>)
    ensures
        match r {
            Ok(v) => b64_decoding(text@) == Some(v@),
            Err(_) => b64_decoding(text@) is None,
        },
{
    base64::engine::general_purpose::STANDARD.decode(text).map_err(|e| e.to_string())
}

/// Law: encoding a byte payload through base64 and decoding it again yields
/// the original bytes.
pub fn base64_round_trip(data: &[u8]) -> (r: Vec<u8>)
    ensures
        r@ == data@,
{
    let encoded = b64_encode(data);
    match b64_decode(encoded.as_str()) {
        Ok(v) => v,
        Err(_) => vstd::pervasive::unreached(),
    }
}

/// The remote client's fixed coordinates: where to call and with which key.
/// The network send itself happens outside the library.
pub struct GeminiClient {
    pub api_key: String,
    pub api_base_url: String,
}

impl GeminiClient {
    /// A client for the public endpoint.
    pub fn new(api_key: String) -> (r: Self)
        ensures
            r.api_key == api_key,
            r.api_base_url@ == "https://generativelanguage.googleapis.com/v1beta"@,
    {
        GeminiClient {
            api_key,
            api_base_url: "https://generativelanguage.googleapis.com/v1beta".to_owned(),
        }
    }

    /// A client for a chosen endpoint.
    pub fn with_base_url(api_key: String, api_base_url: String) -> (r: Self)
        ensures
            r.api_key == api_key,
            r.api_base_url == api_base_url,
    {
        GeminiClient { api_key, api_base_url }
    }

    /// The URL of the generate-content call for `model`.
    pub fn build_url(&self, model: &GeminiModel) -> (r: String)
        ensures
            r@ == self.api_base_url@ + "/models/"@ + model@ + ":generateContent"@,
    {
        let mut url = self.api_base_url.clone();
        url.append("/models/");
        url.append(model.as_str());
        url.append(":generateContent");
        url
    }
}

/// The request body of the generate-content call: the prompt as the single
/// part of a single content.
pub fn build_request_body(prompt: &str) -> (r: Json)
    ensures
        r matches Json::Obj(top) && top@.len() == 1 && top@[0].0@ == "contents"@ && (top@[0].1
            matches Json::Arr(contents) && contents@.len() == 1 && (contents@[0] matches Json::Obj(
            content,
        ) && content@.len() == 1 && content@[0].0@ == "parts"@ && (content@[0].1
            matches Json::Arr(parts) && parts@.len() == 1 && (parts@[0] matches Json::Obj(part)
            && part@.len() == 1 && part@[0].0@ == "text"@ && (part@[0].1 matches Json::Str(text)
            && text@ == prompt@))))),
{
    let text = prompt.to_owned();
    let mut part: Vec<(String, Json)> = Vec::new();
    part.push(("text".to_owned(), Json::Str(text)));
    let mut parts: Vec<Json> = Vec::new();
    parts.push(Json::Obj(part));
    let mut content: Vec<(String, Json)> = Vec::new();
    content.push(("parts".to_owned(), Json::Arr(parts)));
    let mut contents: Vec<Json> = Vec::new();
    contents.push(Json::Obj(content));
    let mut top: Vec<(String, Json)> = Vec::new();
    top.push(("contents".to_owned(), Json::Arr(contents)));
    Json::Obj(top)
}

/// The image data of one response part: the text under `inlineData.data`,
/// when the part carries it.
pub open spec fn spec_image_part_data(p: Json) -> Option<String> {
    match spec_get(p, "inlineData"@) {
        Some(inline) => match spec_get(inline, "data"@) {
            Some(j) => match j {
                Json::Str(s) => Some(s),
                _ => None,
            },
            None => None,
        },
        None => None,
    }
}

/// The image data of the first image-bearing part, if any.
pub open spec fn spec_first_image_data(parts: Seq<Json>) -> Option<String>
    decreases parts.len(),
{
    if parts.len() == 0 {
        None
    } else if spec_image_part_data(parts[0]) is Some {
        spec_image_part_data(parts[0])
    } else {
        spec_first_image_data(parts.drop_first())
    }
}

/// The first candidate of a response, when the response carries any.
pub open spec fn spec_first_candidate(v: Json) -> Option<Json> {
    match spec_get(v, "candidates"@) {
        Some(j) => match j {
            Json::Arr(cands) => if cands@.len() > 0 {
                Some(cands@[0])
            } else {
                None
            },
            _ => None,
        },
        None => None,
    }
}

/// The parts of a candidate's content; a candidate without a well-formed
/// content carries no parts.
pub open spec fn spec_parts(c: Json) -> Seq<Json> {
    match spec_get(c, "content"@) {
        Some(content) => match spec_get(content, "parts"@) {
            Some(j) => match j {
                Json::Arr(parts) => parts@,
                _ => Seq::empty(),
            },
            None => Seq::empty(),
        },
        None => Seq::empty(),
    }
}

proof fn lemma_first_image_skip(parts: Seq<Json>, i: int)
    requires
        0 <= i <= parts.len(),
        forall|j: int| 0 <= j < i ==> spec_image_part_data(parts[j]) is None,
    ensures
        spec_first_image_data(parts) == spec_first_image_data(parts.skip(i)),
    decreases i,
{
    if i > 0 {
        lemma_first_image_skip(parts.drop_first(), i - 1);
        assert(parts.drop_first().skip(i - 1) =~= parts.skip(i));
    } else {
        assert(parts.skip(0) =~= parts);
    }
}

/// Whether `r` is the extraction outcome the response value `v` fixes: the
/// first image-bearing part of the first candidate, base64-decoded, and for
/// a response with no candidate, no image-bearing part, or malformed inline
/// data the matching API error.
pub open spec fn spec_extraction(v: Json, r: Result<Vec<u8>, ImageGenerationError>) -> bool {
    match spec_first_candidate(v) {
        None => r matches Err(ImageGenerationError::ApiError(m)) && m@
            == "No candidates in response"@,
        Some(c) => match spec_first_image_data(spec_parts(c)) {
            None => r matches Err(ImageGenerationError::ApiError(m)) && m@
                == "No image data in response"@,
            Some(data) => match b64_decoding(data@) {
                Some(bytes) => r matches Ok(b) && b@ == bytes,
                None => r matches Err(ImageGenerationError::ApiError(m))
                    && "Failed to decode base64: "@.is_prefix_of(m@),
            },
        },
    }
}

/// Pulls the generated image's bytes out of a successful response: the first
/// image-bearing part of the first candidate, base64-decoded. A response
/// with no candidate, no image-bearing part, or malformed inline data fails
/// with the matching API error.
pub fn extract_image_data(v: &Json) -> (r: Result<Vec<u8>, ImageGenerationError>)
    ensures
        spec_extraction(*v, r),
{
    let cand: &Json = match v.get("candidates") {
        Some(j) => match j {
            Json::Arr(cands) => {
                if cands.len() == 0 {
                    return Err(
                        ImageGenerationError::ApiError("No candidates in response".to_owned()),
                    );
                }
                &cands[0]
            },
            _ => {
                return Err(ImageGenerationError::ApiError("No candidates in response".to_owned()));
            },
        },
        None => {
            return Err(ImageGenerationError::ApiError("No candidates in response".to_owned()));
        },
    };
    let parts_opt: Option<&Vec<Json>> = match cand.get("content") {
        Some(content) => match content.get("parts") {
            Some(j) => match j {
                Json::Arr(parts) => Some(parts),
                _ => None,
            },
            None => None,
        },
        None => None,
    };
    let parts: &Vec<Json> = match parts_opt {
        Some(parts) => parts,
        None => {
            return Err(ImageGenerationError::ApiError("No image data in response".to_owned()));
        },
    };
    assert(spec_parts(*cand) == parts@);
    let n = parts.len();
    let mut i: usize = 0;
    while i < n
        invariant
            i <= n,
            n == parts@.len(),
            spec_parts(*cand) == parts@,
            spec_first_candidate(*v) == Some(*cand),
            forall|j: int| 0 <= j < i ==> spec_image_part_data(parts@[j]) is None,
        decreases n - i,
    {
        let data_opt: Option<&String> = match parts[i].get("inlineData") {
            Some(inline) => match inline.get("data") {
                Some(j) => match j {
                    Json::Str(s) => Some(s),
                    _ => None,
                },
                None => None,
            },
            None => None,
        };
        if let Some(data) = data_opt {
            proof {
                lemma_first_image_skip(parts@, i as int);
                assert(parts@.skip(i as int)[0] == parts@[i as int]);
                assert(spec_image_part_data(parts@[i as int]) == Some(*data));
                assert(spec_first_image_data(parts@) == spec_image_part_data(parts@[i as int]));
                assert(spec_first_image_data(spec_parts(*cand)) == Some(*data));
            }
            return match b64_decode(data.as_str()) {
                Ok(bytes) => Ok(bytes),
                Err(e) => {
                    let mut m = "Failed to decode base64: ".to_owned();
                    m.append(e.as_str());
                    proof {
                        assert(m@.subrange(0, "Failed to decode base64: "@.len() as int)
                            =~= "Failed to decode base64: "@);
                    }
                    Err(ImageGenerationError::ApiError(m))
                },
            };
        }
        i += 1;
    }
    proof {
        lemma_first_image_skip(parts@, n as int);
        assert(parts@.skip(n as int) =~= Seq::<Json>::empty());
    }
    Err(ImageGenerationError::ApiError("No image data in response".to_owned()))
}

/// Interprets what came back over HTTP, mapping the status exactly as the
/// remote API's contract reads: 401 means a bad key, 429 the rate limit, 400
/// a rejected prompt, any other failure status an API error naming status
/// and body. A success status hands the body to the response extraction;
/// a body that is not JSON is a network-level decode failure.
pub fn interpret_http_response(status: u16, body: &str) -> (r: Result<
    Vec<u8>,
    ImageGenerationError,
>)
    ensures
        status == 401 ==> (r matches Err(ImageGenerationError::AuthenticationError(m)) && m@
            == "Invalid API key"@),
        status == 429 ==> (r matches Err(ImageGenerationError::RateLimitError(m)) && m@
            == "Rate limit exceeded"@),
        status == 400 ==> (r matches Err(ImageGenerationError::InvalidPromptError(m)) && m@
            == body@),
        (status < 200 || status >= 300) && status != 401 && status != 429 && status != 400 ==> (
        r matches Err(ImageGenerationError::ApiError(m)) && m@ =~= "API returned status "@
            + spec_decimal(status as nat) + ": "@ + body@),
        200 <= status < 300 ==> (match json_parse_of(body@) {
            Some(v) => spec_extraction(v, r),
            None => r matches Err(ImageGenerationError::NetworkError(m))
                && "HTTP error: "@.is_prefix_of(m@),
        }),
{
    if status < 200 || status >= 300 {
        return match status {
            401 => Err(ImageGenerationError::AuthenticationError("Invalid API key".to_owned())),
            429 => Err(ImageGenerationError::RateLimitError("Rate limit exceeded".to_owned())),
            400 => Err(ImageGenerationError::InvalidPromptError(body.to_owned())),
            _ => {
                let mut m = "API returned status ".to_owned();
                let num = usize_to_string(status as usize);
                m.append(num.as_str());
                m.append(": ");
                m.append(body);
                Err(ImageGenerationError::ApiError(m))
            },
        };
    }
    match parse_json(body) {
        Ok(v) => extract_image_data(&v),
        Err(e) => {
            let mut m = "HTTP error: ".to_owned();
            m.append(e.as_str());
            proof {
                assert(m@.subrange(0, "HTTP error: "@.len() as int) =~= "HTTP error: "@);
            }
            Err(ImageGenerationError::NetworkError(m))
        },
    }
}

} // verus!
