//! Process configuration: one immutable value, built once at startup and
//! handed to the server, with the documented defaults.

use vstd::prelude::*;
use vstd::string::StrSliceExecFns;
use crate::text::{spec_trim, trim_str};

verus! {

/// The JSON-RPC error codes the dispatcher answers with.
#[derive(Debug, Clone, Copy, PartialEq, Eq)]
pub struct JsonRpcErrorCodes {
    pub parse_error: i32,
    pub invalid_request: i32,
    pub method_not_found: i32,
    pub internal_error: i32,
}

impl Default for JsonRpcErrorCodes {
    /// The codes of the JSON-RPC specification: parse error, invalid request,
    /// method not found, internal error.
    fn default() -> (r: Self)
        ensures
            r.parse_error == -32700,
            r.invalid_request == -32600,
            r.method_not_found == -32601,
            r.internal_error == -32603,
    {
        JsonRpcErrorCodes {
            parse_error: -32700,
            invalid_request: -32600,
            method_not_found: -32601,
            internal_error: -32603,
        }
    }
}

/// Application configuration. Loading it from the environment is the
/// caller's affair; the library only consumes the finished value.
#[derive(Debug)]
pub struct Config {
    /// The JSON-RPC version string echoed in every response envelope.
    pub jsonrpc_version: String,
    /// Base URL of the remote image-generation API.
    pub gemini_api_base_url: String,
    /// Model used when a tool call names none.
    pub gemini_default_model: String,
    /// When non-empty, the only model names a tool call may name.
    pub gemini_allowed_models: Vec<String>,
    /// Longest accepted prompt, in bytes.
    pub max_prompt_length: usize,
    pub jsonrpc_error_codes: JsonRpcErrorCodes,
}

impl Default for Config {
    /// The configuration that holds when no environment overrides anything.
    fn default() -> (r: Self)
        ensures
            r.jsonrpc_version@ == "2.0"@,
            r.gemini_api_base_url@ == "https://generativelanguage.googleapis.com/v1beta"@,
            r.gemini_default_model@ == crate::DEFAULT_MODEL_NAME@,
            r.gemini_allowed_models@.len() == 0,
            r.max_prompt_length == 10000,
            r.jsonrpc_error_codes.parse_error == -32700,
            r.jsonrpc_error_codes.invalid_request == -32600,
            r.jsonrpc_error_codes.method_not_found == -32601,
            r.jsonrpc_error_codes.internal_error == -32603,
    {
        Config {
            jsonrpc_version: "2.0".to_owned(),
            gemini_api_base_url: "https://generativelanguage.googleapis.com/v1beta".to_owned(),
            gemini_default_model: crate::DEFAULT_MODEL_NAME.to_owned(),
            gemini_allowed_models: Vec::new(),
            max_prompt_length: 10000,
            jsonrpc_error_codes: JsonRpcErrorCodes::default(),
        }
    }
}

impl Config {
    pub fn jsonrpc_version(&self) -> (r: &str)
        ensures
            r@ == self.jsonrpc_version@,
    {
        self.jsonrpc_version.as_str()
    }

    pub fn gemini_api_base_url(&self) -> (r: &str)
        ensures
            r@ == self.gemini_api_base_url@,
    {
        self.gemini_api_base_url.as_str()
    }

    pub fn gemini_default_model(&self) -> (r: &str)
        ensures
            r@ == self.gemini_default_model@,
    {
        self.gemini_default_model.as_str()
    }

    pub fn gemini_allowed_models(&self) -> (r: &[String])
        ensures
            r@ == self.gemini_allowed_models@,
    {
        self.gemini_allowed_models.as_slice()
    }

    pub fn max_prompt_length(&self) -> (r: usize)
        ensures
            r == self.max_prompt_length,
    {
        self.max_prompt_length
    }
}

/// The comma-separated segments of `s`, in order; an empty text is one empty
/// segment.
pub open spec fn spec_comma_segments(s: Seq<char>) -> Seq<Seq<char>>
    decreases s.len(),
{
    if s.len() == 0 {
        seq![Seq::<char>::empty()]
    } else {
        let rest = spec_comma_segments(s.drop_last());
        if s.last() == ',' {
            rest.push(Seq::empty())
        } else {
            rest.update(rest.len() - 1, rest.last().push(s.last()))
        }
    }
}

proof fn lemma_comma_segments_nonempty(s: Seq<char>)
    ensures
        spec_comma_segments(s).len() >= 1,
    decreases s.len(),
{
    if s.len() > 0 {
        lemma_comma_segments_nonempty(s.drop_last());
    }
}

/// The segments trimmed, the empty ones dropped, order kept.
pub open spec fn spec_clean_segments(segs: Seq<Seq<char>>) -> Seq<Seq<char>>
    decreases segs.len(),
{
    if segs.len() == 0 {
        Seq::empty()
    } else {
        let rest = spec_clean_segments(segs.drop_last());
        if spec_trim(segs.last()).len() > 0 {
            rest.push(spec_trim(segs.last()))
        } else {
            rest
        }
    }
}

/// The model names in a comma-separated allow-list: each segment trimmed,
/// empty ones dropped.
pub open spec fn spec_model_list(s: Seq<char>) -> Seq<Seq<char>> {
    spec_clean_segments(spec_comma_segments(s))
}

/// Splits a comma-separated allow-list into model names: each segment is
/// trimmed of whitespace, and empty segments are dropped.
pub fn parse_allowed_models(s: &str) -> (r: Vec<String>)
    ensures
        r.deep_view() == spec_model_list(s@),
{
    let n = s.unicode_len();
    let mut out: Vec<String> = Vec::new();
    let mut seg_start: usize = 0;
    let mut i: usize = 0;
    proof {
        assert(s@.take(0) =~= Seq::<char>::empty());
    }
    while i < n
        invariant
            seg_start <= i <= n,
            n == s@.len(),
            spec_comma_segments(s@.take(i as int)).len() >= 1,
            out.deep_view() =~= spec_clean_segments(
                spec_comma_segments(s@.take(i as int)).drop_last(),
            ),
            spec_comma_segments(s@.take(i as int)).last() == s@.subrange(
                seg_start as int,
                i as int,
            ),
        decreases n - i,
    {
        let ghost pre = spec_comma_segments(s@.take(i as int));
        let c = s.get_char(i);
        proof {
            assert(s@.take(i as int + 1).drop_last() =~= s@.take(i as int));
            lemma_comma_segments_nonempty(s@.take(i as int + 1));
        }
        if c == ',' {
            let piece = trim_str(s.substring_char(seg_start, i));
            proof {
                assert(spec_comma_segments(s@.take(i as int + 1)) =~= pre.push(
                    Seq::<char>::empty(),
                ));
                assert(pre.push(Seq::<char>::empty()).drop_last() =~= pre);
                assert(pre.push(Seq::<char>::empty()).last() =~= Seq::<char>::empty());
                assert(pre.drop_last().push(pre.last()) =~= pre);
            }
            if !piece.as_str().is_empty() {
                let ghost prev_dv = out.deep_view();
                let ghost piece_view = piece@;
                out.push(piece);
                proof {
                    assert(out.deep_view() =~= prev_dv.push(piece_view));
                    assert(out.deep_view() =~= spec_clean_segments(pre));
                }
            } else {
                proof {
                    assert(out.deep_view() =~= spec_clean_segments(pre));
                }
            }
            seg_start = i + 1;
            proof {
                assert(s@.subrange(seg_start as int, i as int + 1) =~= Seq::<char>::empty());
            }
        } else {
            proof {
                let post = spec_comma_segments(s@.take(i as int + 1));
                assert(post == pre.update(pre.len() - 1, pre.last().push(s@[i as int])));
                assert(post.drop_last() =~= pre.drop_last());
                assert(post.last() == pre.last().push(s@[i as int]));
                assert(s@.subrange(seg_start as int, i as int + 1) =~= s@.subrange(
                    seg_start as int,
                    i as int,
                ).push(s@[i as int]));
            }
        }
        i += 1;
    }
    let ghost full = spec_comma_segments(s@.take(n as int));
    let piece = trim_str(s.substring_char(seg_start, n));
    proof {
        assert(s@.take(n as int) =~= s@);
        lemma_comma_segments_nonempty(s@);
        assert(full.drop_last().push(full.last()) =~= full);
    }
    if !piece.as_str().is_empty() {
        let ghost prev_dv = out.deep_view();
        let ghost piece_view = piece@;
        out.push(piece);
        proof {
            assert(out.deep_view() =~= prev_dv.push(piece_view));
        }
    }
    proof {
        assert(out.deep_view() =~= spec_clean_segments(full));
    }
    out
}

} // verus!
