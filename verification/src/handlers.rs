//! The JSON-RPC dispatcher: a stateless request-to-response mapping over the
//! three protocol methods, and the line-level entry that also answers
//! malformed input. Every response envelope echoes the request's id and
//! carries exactly one of `result` and `error`.

use vstd::prelude::*;
use vstd::string::StringExecFns;
use crate::config::{Config, JsonRpcErrorCodes};
use crate::image_generation::ImageGenerationRepository;
use crate::json::{Json, spec_get};
use crate::generate_image::UseCaseError;
use crate::gemini::b64_encoding;
use crate::mcp_server::{McpError, McpServer, spec_image_payload, spec_input_schema};
use crate::models::{ModelParseError, ValidationError, prompt_byte_len, spec_allowed};
use crate::mcp_types::{
    CallToolResult, JsonRpcError, JsonRpcRequest, JsonRpcResponse, content_to_json,
    response_to_json, spec_is_content_json, spec_member_string, spec_request_of,
    spec_response_json, tool_to_json,
};
use crate::text::{all_whitespace, str_eq};

verus! {

/// Whether `resp` is an error envelope: no result, and an error object with
/// the given code and message and no data.
pub open spec fn spec_error_envelope(resp: JsonRpcResponse, code: i32, msg: Seq<char>) -> bool {
    &&& resp.result is None
    &&& (resp.error matches Some(err) && err.code == code && err.message@ == msg && err.data
        is None)
}

/// Whether `j` is the fixed result of `initialize`: protocol version,
/// capabilities, and server identity.
pub open spec fn spec_initialize_result(j: Json) -> bool {
    &&& j matches Json::Obj(ms)
    &&& ms@.len() == 3
    &&& ms@[0].0@ == "protocolVersion"@
    &&& (ms@[0].1 matches Json::Str(p) && p@ == "2024-11-05"@)
    &&& ms@[1].0@ == "capabilities"@
    &&& (ms@[1].1 matches Json::Obj(cs) && cs@.len() == 1 && cs@[0].0@ == "tools"@ && (cs@[0].1
        matches Json::Obj(ts) && ts@.len() == 0))
    &&& ms@[2].0@ == "serverInfo"@
    &&& (ms@[2].1 matches Json::Obj(si) && si@.len() == 2 && si@[0].0@ == "name"@ && (si@[0].1
        matches Json::Str(n) && n@ == "google-gemini-image-creator"@) && si@[1].0@ == "version"@
        && (si@[1].1 matches Json::Str(ver) && ver@ == "0.1.0"@))
}

/// Whether `j` is the result of `tools/list`: a `tools` array holding the
/// one descriptor, named `generate_image`, with the configured schema.
pub open spec fn spec_tools_list_result(j: Json, default_model: String, allowed: Seq<String>) -> bool {
    &&& j matches Json::Obj(ms)
    &&& ms@.len() == 1
    &&& ms@[0].0@ == "tools"@
    &&& (ms@[0].1 matches Json::Arr(ts) && ts@.len() == 1 && (ts@[0] matches Json::Obj(tm)
        && tm@.len() == 3 && tm@[0].0@ == "name"@ && (tm@[0].1 matches Json::Str(n) && n@
        == "generate_image"@) && tm@[1].0@ == "description"@ && (tm@[1].1 matches Json::Str(d)
        && d@
        == "Generate images from text prompts using Google Gemini's Banana (image generation feature)."@)
        && tm@[2].0@ == "inputSchema"@ && spec_input_schema(tm@[2].1, default_model, allowed)))
}

/// Whether the envelope `resp` carries the success of a tool call: a
/// `content` array of one text block whose text is the image payload of some
/// generated image, and `isError` false.
pub open spec fn spec_call_success(resp: JsonRpcResponse) -> bool {
    &&& resp.error is None
    &&& (resp.result matches Some(j) && j matches Json::Obj(ms) && ms@.len() == 2 && ms@[0].0@
        == "content"@ && (ms@[0].1 matches Json::Arr(bs) && bs@.len() == 1 && (bs@[0]
        matches Json::Obj(cm) && cm@.len() == 2 && cm@[0].0@ == "type"@ && (cm@[0].1
        matches Json::Str(t) && t@ == "text"@) && cm@[1].0@ == "text"@ && (cm@[1].1
        matches Json::Str(text) && (exists|data: Seq<u8>, model: Seq<char>, at: Seq<char>|
        text@ == #[trigger] spec_image_payload(b64_encoding(data), model, at, data.len())))))
        && ms@[1].0@ == "isError"@ && ms@[1].1 == Json::Bool(false))
}

/// What the envelope answers once the prompt is in hand and the model passed
/// the allow-list: an invalid prompt fails with its exact validation words,
/// and for a valid one the repository decides between a success envelope and
/// an internal error reporting a repository failure.
pub open spec fn spec_call_generation(
    resp: JsonRpcResponse,
    prompt: String,
    max_len: usize,
    code: i32,
) -> bool {
    if all_whitespace(prompt@) {
        spec_call_reflects(
            resp,
            Err(McpError::Generation(UseCaseError::Validation(ValidationError::EmptyPrompt))),
            code,
        )
    } else if prompt_byte_len(prompt@) as usize > max_len {
        spec_call_reflects(
            resp,
            Err(
                McpError::Generation(
                    UseCaseError::Validation(
                        ValidationError::PromptTooLong(prompt_byte_len(prompt@) as usize),
                    ),
                ),
            ),
            code,
        )
    } else {
        spec_call_success(resp) || (resp.result is None && (resp.error matches Some(err)
            && err.code == code && err.data is None
            && "Internal error: Image generation failed: Repository error: "@.is_prefix_of(
            err.message@,
        )))
    }
}

/// What the envelope answers for a tool call by name and optional arguments:
/// an unknown name, a missing prompt and a disallowed model each yield the
/// internal error carrying that failure's exact words; otherwise the prompt
/// is validated and generation decides.
pub open spec fn spec_call_response(
    resp: JsonRpcResponse,
    name: String,
    args_opt: Option<Json>,
    allowed: Vec<String>,
    max_len: usize,
    code: i32,
) -> bool {
    if name@ != "generate_image"@ {
        spec_call_reflects(resp, Err(McpError::UnknownTool(name)), code)
    } else {
        match args_opt {
            None => spec_call_reflects(resp, Err(McpError::MissingPrompt), code),
            Some(args) => match spec_member_string(args, "prompt"@) {
                None => spec_call_reflects(resp, Err(McpError::MissingPrompt), code),
                Some(prompt) => match spec_member_string(args, "model"@) {
                    Some(m) => if !spec_allowed(m@, allowed.deep_view()) {
                        spec_call_reflects(
                            resp,
                            Err(McpError::InvalidModel(ModelParseError::InvalidModel(m))),
                            code,
                        )
                    } else {
                        spec_call_generation(resp, prompt, max_len, code)
                    },
                    None => spec_call_generation(resp, prompt, max_len, code),
                },
            },
        }
    }
}

/// Whether the response envelope `resp` reports the tool-call outcome `rr`:
/// a success as a `content`/`isError` result, a failure as an error object
/// with the internal-error code and the failure's words.
pub open spec fn spec_call_reflects(
    resp: JsonRpcResponse,
    rr: Result<CallToolResult, McpError>,
    internal_code: i32,
) -> bool {
    match rr {
        Ok(res) => resp.error is None && (resp.result matches Some(j) && j matches Json::Obj(ms)
            && ms@.len() == 2 && ms@[0].0@ == "content"@ && (ms@[0].1 matches Json::Arr(bs)
            && bs@.len() == res.content@.len() && (forall|i: int|
            0 <= i < bs@.len() ==> spec_is_content_json(bs@[i], res.content@[i]))) && ms@[1].0@
            == "isError"@ && ms@[1].1 == Json::Bool(res.is_error)),
        Err(e) => spec_error_envelope(resp, internal_code, "Internal error: "@ + e.spec_message()),
    }
}

/// What the dispatcher answers for a request: the envelope invariant — the
/// configured version, the request's id echoed unchanged, exactly one of
/// result and error — then the three methods' results, with a `tools/call`
/// that lacks params or a string name failing as an internal error, and a
/// method-not-found error for anything else.
pub open spec fn spec_dispatch(
    req: JsonRpcRequest,
    version: String,
    codes: JsonRpcErrorCodes,
    default_model: String,
    allowed: Vec<String>,
    max_len: usize,
    resp: JsonRpcResponse,
) -> bool {
    &&& resp.jsonrpc == version
    &&& resp.id == req.id
    &&& (resp.result is Some <==> resp.error is None)
    &&& (req.method@ == "initialize"@ ==> (resp.result matches Some(j) && spec_initialize_result(
        j,
    )))
    &&& (req.method@ == "tools/list"@ ==> (resp.result matches Some(j) && spec_tools_list_result(
        j,
        default_model,
        allowed@,
    )))
    &&& (req.method@ == "tools/call"@ ==> (match req.params {
        None => spec_error_envelope(
            resp,
            codes.internal_error,
            "Internal error: Missing params for tools/call"@,
        ),
        Some(params) => match spec_member_string(params, "name"@) {
            None => spec_error_envelope(
                resp,
                codes.internal_error,
                "Internal error: Missing 'name' in params"@,
            ),
            Some(name) => spec_call_response(
                resp,
                name,
                spec_get(params, "arguments"@),
                allowed,
                max_len,
                codes.internal_error,
            ),
        },
    }))
    &&& (req.method@ != "initialize"@ && req.method@ != "tools/list"@ && req.method@
        != "tools/call"@ ==> spec_error_envelope(
        resp,
        codes.method_not_found,
        "Method not found: "@ + req.method@,
    ))
}

/// Whether `j` is a transport-level error line: the version, an error object
/// of the given code and message, and a null id.
pub open spec fn spec_transport_error_json(
    j: Json,
    version: String,
    code: i32,
    msg: Seq<char>,
) -> bool {
    &&& j matches Json::Obj(ms)
    &&& ms@.len() == 3
    &&& ms@[0].0@ == "jsonrpc"@
    &&& ms@[0].1 == Json::Str(version)
    &&& ms@[1].0@ == "error"@
    &&& (ms@[1].1 matches Json::Obj(es) && es@.len() == 2 && es@[0].0@ == "code"@ && es@[0].1
        == Json::Int(code as i64) && es@[1].0@ == "message"@ && (es@[1].1 matches Json::Str(m)
        && m@ == msg))
    &&& ms@[2].0@ == "id"@
    &&& ms@[2].1 == Json::Null
}

/// The dispatcher: holds the tool server and the protocol configuration.
pub struct RequestHandler<R: ImageGenerationRepository> {
    pub server: McpServer<R>,
    pub config: Config,
}

impl<R: ImageGenerationRepository> RequestHandler<R> {
    /// A handler with the default configuration.
    pub fn new(server: McpServer<R>) -> (r: Self)
        ensures
            r.server == server,
            r.config.jsonrpc_version@ == "2.0"@,
            r.config.jsonrpc_error_codes.parse_error == -32700,
            r.config.jsonrpc_error_codes.invalid_request == -32600,
            r.config.jsonrpc_error_codes.method_not_found == -32601,
            r.config.jsonrpc_error_codes.internal_error == -32603,
    {
        RequestHandler { server, config: Config::default() }
    }

    /// A handler with the given configuration.
    pub fn with_config(server: McpServer<R>, config: Config) -> (r: Self)
        ensures
            r.server == server,
            r.config == config,
    {
        RequestHandler { server, config }
    }

    /// One transport-level error line.
    fn transport_error(&self, code: i32, message: String) -> (r: Json)
        ensures
            spec_transport_error_json(r, self.config.jsonrpc_version, code, message@),
    {
        let mut es: Vec<(String, Json)> = Vec::new();
        es.push(("code".to_owned(), Json::Int(code as i64)));
        es.push(("message".to_owned(), Json::Str(message)));
        let mut ms: Vec<(String, Json)> = Vec::new();
        ms.push(("jsonrpc".to_owned(), Json::Str(self.config.jsonrpc_version.clone())));
        ms.push(("error".to_owned(), Json::Obj(es)));
        ms.push(("id".to_owned(), Json::Null));
        Json::Obj(ms)
    }

    /// One error envelope, echoing the request's id.
    fn error_response(&self, id: Option<Json>, code: i32, message: String) -> (r: JsonRpcResponse)
        ensures
            r.jsonrpc == self.config.jsonrpc_version,
            r.id == id,
            spec_error_envelope(r, code, message@),
    {
        JsonRpcResponse {
            jsonrpc: self.config.jsonrpc_version.clone(),
            id,
            result: None,
            error: Some(JsonRpcError { code, message, data: None }),
        }
    }

    /// Maps one decoded request to its response; every response echoes the
    /// request's id.
    #[verifier::rlimit(60)]
    pub fn handle_jsonrpc_request(&self, request: JsonRpcRequest) -> (r: JsonRpcResponse)
        ensures
            spec_dispatch(
                request,
                self.config.jsonrpc_version,
                self.config.jsonrpc_error_codes,
                self.server.default_model,
                self.server.allowed_models,
                self.server.max_prompt_length,
                r,
            ),
    {
        proof {
            reveal_strlit("initialize");
            reveal_strlit("tools/list");
            reveal_strlit("tools/call");
            assert("initialize"@[0] == 'i' && "tools/list"@[0] == 't' && "tools/call"@[0] == 't');
            assert("tools/list"@[6] == 'l' && "tools/call"@[6] == 'c');
            assert("initialize"@ != "tools/list"@);
            assert("initialize"@ != "tools/call"@);
            assert("tools/list"@ != "tools/call"@);
        }
        let JsonRpcRequest { jsonrpc: _, id, method, params } = request;
        if str_eq(method.as_str(), "initialize") {
            let mut ts: Vec<(String, Json)> = Vec::new();
            let mut cs: Vec<(String, Json)> = Vec::new();
            cs.push(("tools".to_owned(), Json::Obj(ts)));
            let mut si: Vec<(String, Json)> = Vec::new();
            si.push(("name".to_owned(), Json::Str("google-gemini-image-creator".to_owned())));
            si.push(("version".to_owned(), Json::Str("0.1.0".to_owned())));
            let mut ms: Vec<(String, Json)> = Vec::new();
            ms.push(("protocolVersion".to_owned(), Json::Str("2024-11-05".to_owned())));
            ms.push(("capabilities".to_owned(), Json::Obj(cs)));
            ms.push(("serverInfo".to_owned(), Json::Obj(si)));
            let resp = JsonRpcResponse {
                jsonrpc: self.config.jsonrpc_version.clone(),
                id,
                result: Some(Json::Obj(ms)),
                error: None,
            };
            proof {
                assert(spec_dispatch(
                    request,
                    self.config.jsonrpc_version,
                    self.config.jsonrpc_error_codes,
                    self.server.default_model,
                    self.server.allowed_models,
                    self.server.max_prompt_length,
                    resp,
                ));
            }
            return resp;
        } else if str_eq(method.as_str(), "tools/list") {
            let mut tools = self.server.list_tools();
            let tool = match tools.pop() {
                Some(t) => t,
                None => {
                    return vstd::pervasive::unreached();
                },
            };
            let mut ts: Vec<Json> = Vec::new();
            ts.push(tool_to_json(tool));
            let mut ms: Vec<(String, Json)> = Vec::new();
            ms.push(("tools".to_owned(), Json::Arr(ts)));
            let resp = JsonRpcResponse {
                jsonrpc: self.config.jsonrpc_version.clone(),
                id,
                result: Some(Json::Obj(ms)),
                error: None,
            };
            proof {
                assert(spec_dispatch(
                    request,
                    self.config.jsonrpc_version,
                    self.config.jsonrpc_error_codes,
                    self.server.default_model,
                    self.server.allowed_models,
                    self.server.max_prompt_length,
                    resp,
                ));
            }
            return resp;
        } else if str_eq(method.as_str(), "tools/call") {
            let params: Json = match params {
                Some(p) => p,
                None => {
                    return self.error_response(
                        id,
                        self.config.jsonrpc_error_codes.internal_error,
                        "Internal error: Missing params for tools/call".to_owned(),
                    );
                },
            };
            let name: String = match params.get("name") {
                Some(j) => match j {
                    Json::Str(s) => s.clone(),
                    _ => {
                        return self.error_response(
                            id,
                            self.config.jsonrpc_error_codes.internal_error,
                            "Internal error: Missing 'name' in params".to_owned(),
                        );
                    },
                },
                None => {
                    return self.error_response(
                        id,
                        self.config.jsonrpc_error_codes.internal_error,
                        "Internal error: Missing 'name' in params".to_owned(),
                    );
                },
            };
            let empty_args = Json::Obj(Vec::new());
            let args: &Json = match params.get("arguments") {
                Some(a) => a,
                None => &empty_args,
            };
            let rr = self.server.call_tool(name.as_str(), args);
            let ghost grr = rr;
            proof {
                if spec_get(params, "arguments"@) is None {
                    assert(spec_member_string(empty_args, "prompt"@) is None);
                }
            }
            match rr {
                Ok(res) => {
                    let n = res.content.len();
                    let mut bs: Vec<Json> = Vec::new();
                    let mut i: usize = 0;
                    while i < n
                        invariant
                            i <= n,
                            n == res.content@.len(),
                            bs@.len() == i,
                            forall|j: int|
                                0 <= j < i ==> spec_is_content_json(bs@[j], res.content@[j]),
                        decreases n - i,
                    {
                        bs.push(content_to_json(&res.content[i]));
                        i += 1;
                    }
                    let mut ms: Vec<(String, Json)> = Vec::new();
                    ms.push(("content".to_owned(), Json::Arr(bs)));
                    ms.push(("isError".to_owned(), Json::Bool(res.is_error)));
                    let resp = JsonRpcResponse {
                        jsonrpc: self.config.jsonrpc_version.clone(),
                        id,
                        result: Some(Json::Obj(ms)),
                        error: None,
                    };
                    proof {
                        assert(spec_call_reflects(
                            resp,
                            grr,
                            self.config.jsonrpc_error_codes.internal_error,
                        ));
                        assert(spec_dispatch(
                            request,
                            self.config.jsonrpc_version,
                            self.config.jsonrpc_error_codes,
                            self.server.default_model,
                            self.server.allowed_models,
                            self.server.max_prompt_length,
                            resp,
                        ));
                    }
                    return resp;
                },
                Err(e) => {
                    let mut msg = "Internal error: ".to_owned();
                    msg.append(e.message().as_str());
                    let resp = JsonRpcResponse {
                        jsonrpc: self.config.jsonrpc_version.clone(),
                        id,
                        result: None,
                        error: Some(
                            JsonRpcError {
                                code: self.config.jsonrpc_error_codes.internal_error,
                                message: msg,
                                data: None,
                            },
                        ),
                    };
                    proof {
                        assert(spec_call_reflects(
                            resp,
                            grr,
                            self.config.jsonrpc_error_codes.internal_error,
                        ));
                        reveal_strlit("Internal error: Image generation failed: Repository error: ");
                        reveal_strlit("Internal error: ");
                        reveal_strlit("Image generation failed: ");
                        reveal_strlit("Repository error: ");
                        assert("Internal error: Image generation failed: Repository error: "@
                            =~= "Internal error: "@ + "Image generation failed: "@
                            + "Repository error: "@);
                        assert(e matches McpError::Generation(UseCaseError::Repository(_))
                            ==> "Internal error: Image generation failed: Repository error: "@.is_prefix_of(
                            msg@,
                        ));
                        assert(spec_dispatch(
                            request,
                            self.config.jsonrpc_version,
                            self.config.jsonrpc_error_codes,
                            self.server.default_model,
                            self.server.allowed_models,
                            self.server.max_prompt_length,
                            resp,
                        ));
                    }
                    return resp;
                },
            }
        } else {
            let mut msg = "Method not found: ".to_owned();
            msg.append(method.as_str());
            let resp = JsonRpcResponse {
                jsonrpc: self.config.jsonrpc_version.clone(),
                id,
                result: None,
                error: Some(
                    JsonRpcError {
                        code: self.config.jsonrpc_error_codes.method_not_found,
                        message: msg,
                        data: None,
                    },
                ),
            };
            proof {
                assert(spec_dispatch(
                    request,
                    self.config.jsonrpc_version,
                    self.config.jsonrpc_error_codes,
                    self.server.default_model,
                    self.server.allowed_models,
                    self.server.max_prompt_length,
                    resp,
                ));
            }
            resp
        }
    }

    /// Answers one line of input as one line of output: a parse failure or a
    /// value that is no request envelope gets the parse-error line with a
    /// null id; a request gets its dispatched response, its id echoed.
    pub fn handle_line(&self, parsed: Result<Json, String>) -> (r: Json)
        ensures
            match parsed {
                Err(e) => spec_transport_error_json(
                    r,
                    self.config.jsonrpc_version,
                    self.config.jsonrpc_error_codes.parse_error,
                    "Parse error: "@ + e@,
                ),
                Ok(v) => if spec_member_string(v, "jsonrpc"@) is None || spec_member_string(
                    v,
                    "method"@,
                ) is None {
                    spec_transport_error_json(
                        r,
                        self.config.jsonrpc_version,
                        self.config.jsonrpc_error_codes.parse_error,
                        "Parse error: invalid JSON-RPC request"@,
                    )
                } else {
                    exists|req: JsonRpcRequest, resp: JsonRpcResponse|
                        spec_request_of(v, req) && #[trigger] spec_dispatch(
                            req,
                            self.config.jsonrpc_version,
                            self.config.jsonrpc_error_codes,
                            self.server.default_model,
                            self.server.allowed_models,
                            self.server.max_prompt_length,
                            resp,
                        ) && spec_response_json(r, resp)
                },
            },
    {
        let v: Json = match parsed {
            Ok(v) => v,
            Err(e) => {
                let mut msg = "Parse error: ".to_owned();
                msg.append(e.as_str());
                return self.transport_error(self.config.jsonrpc_error_codes.parse_error, msg);
            },
        };
        let req: JsonRpcRequest = match JsonRpcRequest::from_json(v) {
            Some(req) => req,
            None => {
                return self.transport_error(
                    self.config.jsonrpc_error_codes.parse_error,
                    "Parse error: invalid JSON-RPC request".to_owned(),
                );
            },
        };
        let ghost greq = req;
        let resp = self.handle_jsonrpc_request(req);
        let ghost gresp = resp;
        let out = response_to_json(resp);
        proof {
            assert(spec_request_of(v, greq) && spec_dispatch(
                greq,
                self.config.jsonrpc_version,
                self.config.jsonrpc_error_codes,
                self.server.default_model,
                self.server.allowed_models,
                self.server.max_prompt_length,
                gresp,
            ));
        }
        out
    }
}

} // verus!
