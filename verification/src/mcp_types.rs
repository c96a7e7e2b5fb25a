//! The protocol's value types: tool descriptors, tool-call results, and the
//! JSON-RPC envelopes, with the verified conversions between them and the
//! JSON model.

use vstd::prelude::*;
use crate::json::{Json, lemma_obj_get_push, spec_get, spec_obj_get};
use crate::text::str_eq;

verus! {

/// A tool as the server advertises it.
#[derive(Debug)]
pub struct Tool {
    pub name: String,
    pub description: Option<String>,
    pub input_schema: Option<Json>,
}

/// What a tool call answered.
#[derive(Debug)]
pub struct CallToolResult {
    pub content: Vec<Content>,
    pub is_error: bool,
}

/// One block of tool-call content.
#[derive(Debug, PartialEq)]
pub enum Content {
    Text { text: String },
    Image { data: String, mime_type: String },
}

/// A decoded JSON-RPC request envelope.
#[derive(Debug)]
pub struct JsonRpcRequest {
    pub jsonrpc: String,
    pub id: Option<Json>,
    pub method: String,
    pub params: Option<Json>,
}

/// A JSON-RPC response envelope; exactly one of `result` and `error` is
/// populated by every path of the dispatcher.
#[derive(Debug)]
pub struct JsonRpcResponse {
    pub jsonrpc: String,
    pub id: Option<Json>,
    pub result: Option<Json>,
    pub error: Option<JsonRpcError>,
}

/// A JSON-RPC error object.
#[derive(Debug, PartialEq)]
pub struct JsonRpcError {
    pub code: i32,
    pub message: String,
    pub data: Option<Json>,
}

/// The member named `key` when it is a string.
pub open spec fn spec_member_string(v: Json, key: Seq<char>) -> Option<String> {
    match spec_get(v, key) {
        Some(j) => match j {
            Json::Str(s) => Some(s),
            _ => None,
        },
        None => None,
    }
}

/// The member named `key`, with an explicit `null` reading as absent.
pub open spec fn spec_opt_member(v: Json, key: Seq<char>) -> Option<Json> {
    match spec_get(v, key) {
        Some(j) => if j == Json::Null {
            None
        } else {
            Some(j)
        },
        None => None,
    }
}

/// Whether `req` is the request envelope read out of the JSON value `v`.
pub open spec fn spec_request_of(v: Json, req: JsonRpcRequest) -> bool {
    &&& spec_member_string(v, "jsonrpc"@) == Some(req.jsonrpc)
    &&& spec_member_string(v, "method"@) == Some(req.method)
    &&& req.id == spec_opt_member(v, "id"@)
    &&& req.params == spec_opt_member(v, "params"@)
}

impl JsonRpcRequest {
    /// Reads a request envelope out of a parsed JSON value: `jsonrpc` and
    /// `method` must be strings, `id` and `params` are kept when present and
    /// not `null`. Anything else is not a request.
    pub fn from_json(v: Json) -> (r: Option<JsonRpcRequest>)
        ensures
            match r {
                Some(req) => spec_request_of(v, req),
                None => spec_member_string(v, "jsonrpc"@) is None || spec_member_string(
                    v,
                    "method"@,
                ) is None,
            },
    {
        let jsonrpc: String = match v.get("jsonrpc") {
            Some(j) => match j {
                Json::Str(s) => s.clone(),
                _ => {
                    return None;
                },
            },
            None => {
                return None;
            },
        };
        let method: String = match v.get("method") {
            Some(j) => match j {
                Json::Str(s) => s.clone(),
                _ => {
                    return None;
                },
            },
            None => {
                return None;
            },
        };
        let mut fields: Vec<(String, Json)> = match v {
            Json::Obj(f) => f,
            _ => {
                return vstd::pervasive::unreached();
            },
        };
        let ghost all = fields@;
        let mut id: Option<Json> = None;
        let mut params: Option<Json> = None;
        loop
            invariant
                v is Obj,
                v->Obj_0@ == all,
                spec_obj_get(all, "id"@) == (if spec_obj_get(fields@, "id"@) is Some {
                    spec_obj_get(fields@, "id"@)
                } else {
                    id
                }),
                spec_obj_get(all, "params"@) == (if spec_obj_get(fields@, "params"@) is Some {
                    spec_obj_get(fields@, "params"@)
                } else {
                    params
                }),
            ensures
                spec_obj_get(all, "id"@) == id,
                spec_obj_get(all, "params"@) == params,
            decreases fields@.len(),
        {
            let ghost prev = fields@;
            let (k, val) = match fields.pop() {
                Some(m) => m,
                None => {
                    break ;
                },
            };
            proof {
                reveal_strlit("id");
                reveal_strlit("params");
                assert("id"@.len() == 2);
                assert("params"@.len() == 6);
                assert("id"@ != "params"@);
                assert(prev =~= fields@.push((k, val)));
                lemma_obj_get_push(fields@, "id"@, (k, val));
                lemma_obj_get_push(fields@, "params"@, (k, val));
            }
            if str_eq(k.as_str(), "id") {
                id = Some(val);
            } else if str_eq(k.as_str(), "params") {
                params = Some(val);
            }
        }
        let id = match id {
            Some(j) => match j {
                Json::Null => None,
                other => Some(other),
            },
            None => None,
        };
        let params = match params {
            Some(j) => match j {
                Json::Null => None,
                other => Some(other),
            },
            None => None,
        };
        Some(JsonRpcRequest { jsonrpc, id, method, params })
    }
}

/// Whether `j` is the JSON object for the content block `c`, tagged with
/// its type.
pub open spec fn spec_is_content_json(j: Json, c: Content) -> bool {
    match c {
        Content::Text { text } => j matches Json::Obj(ms) && ms@.len() == 2 && ms@[0].0@
            == "type"@ && (ms@[0].1 matches Json::Str(t) && t@ == "text"@) && ms@[1].0@ == "text"@
            && ms@[1].1 == Json::Str(text),
        Content::Image { data, mime_type } => j matches Json::Obj(ms) && ms@.len() == 3
            && ms@[0].0@ == "type"@ && (ms@[0].1 matches Json::Str(t) && t@ == "image"@)
            && ms@[1].0@ == "data"@ && ms@[1].1 == Json::Str(data) && ms@[2].0@ == "mime_type"@
            && ms@[2].1 == Json::Str(mime_type),
    }
}

/// The JSON object for one content block, tagged with its type.
pub fn content_to_json(c: &Content) -> (r: Json)
    ensures
        spec_is_content_json(r, *c),
{
    let mut ms: Vec<(String, Json)> = Vec::new();
    match c {
        Content::Text { text } => {
            ms.push(("type".to_owned(), Json::Str("text".to_owned())));
            ms.push(("text".to_owned(), Json::Str(text.clone())));
        },
        Content::Image { data, mime_type } => {
            ms.push(("type".to_owned(), Json::Str("image".to_owned())));
            ms.push(("data".to_owned(), Json::Str(data.clone())));
            ms.push(("mime_type".to_owned(), Json::Str(mime_type.clone())));
        },
    }
    Json::Obj(ms)
}

/// The JSON object for a tool descriptor: its name, then the description and
/// the input schema, `null` when absent.
pub fn tool_to_json(t: Tool) -> (r: Json)
    ensures
        r matches Json::Obj(ms) && ms@.len() == 3 && ms@[0].0@ == "name"@ && ms@[0].1 == Json::Str(
            t.name,
        ) && ms@[1].0@ == "description"@ && ms@[1].1 == (match t.description {
            Some(d) => Json::Str(d),
            None => Json::Null,
        }) && ms@[2].0@ == "inputSchema"@ && ms@[2].1 == (match t.input_schema {
            Some(s) => s,
            None => Json::Null,
        }),
{
    let Tool { name, description, input_schema } = t;
    let mut ms: Vec<(String, Json)> = Vec::new();
    ms.push(("name".to_owned(), Json::Str(name)));
    ms.push(
        (
            "description".to_owned(),
            match description {
                Some(d) => Json::Str(d),
                None => Json::Null,
            },
        ),
    );
    ms.push(
        (
            "inputSchema".to_owned(),
            match input_schema {
                Some(s) => s,
                None => Json::Null,
            },
        ),
    );
    Json::Obj(ms)
}

/// Whether `j` is the JSON object for the error `e`: code and message, and
/// data only when present.
pub open spec fn spec_is_error_json(j: Json, e: JsonRpcError) -> bool {
    &&& j matches Json::Obj(ms)
    &&& ms@.len() == (if e.data is Some {
        3int
    } else {
        2int
    })
    &&& ms@[0].0@ == "code"@
    &&& ms@[0].1 == Json::Int(e.code as i64)
    &&& ms@[1].0@ == "message"@
    &&& ms@[1].1 == Json::Str(e.message)
    &&& (e.data matches Some(d) ==> ms@[2].0@ == "data"@ && ms@[2].1 == d)
}

/// The JSON object for a JSON-RPC error object.
pub fn error_to_json(e: JsonRpcError) -> (r: Json)
    ensures
        spec_is_error_json(r, e),
{
    let JsonRpcError { code, message, data } = e;
    let mut ms: Vec<(String, Json)> = Vec::new();
    ms.push(("code".to_owned(), Json::Int(code as i64)));
    ms.push(("message".to_owned(), Json::Str(message)));
    match data {
        Some(d) => ms.push(("data".to_owned(), d)),
        None => (),
    }
    Json::Obj(ms)
}

/// Whether `j` is the JSON object for the response envelope `resp`: the
/// version, the echoed id (`null` when the request had none), then the
/// result and the error, each only when present.
pub open spec fn spec_response_json(j: Json, resp: JsonRpcResponse) -> bool {
    let nr: int = if resp.result is Some {
        1int
    } else {
        0int
    };
    let ne: int = if resp.error is Some {
        1int
    } else {
        0int
    };
    &&& j matches Json::Obj(ms)
    &&& ms@.len() == 2 + nr + ne
    &&& ms@[0].0@ == "jsonrpc"@
    &&& ms@[0].1 == Json::Str(resp.jsonrpc)
    &&& ms@[1].0@ == "id"@
    &&& ms@[1].1 == (match resp.id {
        Some(i) => i,
        None => Json::Null,
    })
    &&& (resp.result matches Some(res) ==> ms@[2].0@ == "result"@ && ms@[2].1 == res)
    &&& (resp.error matches Some(err) ==> ms@[2 + nr].0@ == "error"@ && spec_is_error_json(
        ms@[2 + nr].1,
        err,
    ))
}

/// The JSON object for a response envelope.
pub fn response_to_json(resp: JsonRpcResponse) -> (r: Json)
    ensures
        spec_response_json(r, resp),
{
    let JsonRpcResponse { jsonrpc, id, result, error } = resp;
    let mut ms: Vec<(String, Json)> = Vec::new();
    ms.push(("jsonrpc".to_owned(), Json::Str(jsonrpc)));
    ms.push(
        (
            "id".to_owned(),
            match id {
                Some(i) => i,
                None => Json::Null,
            },
        ),
    );
    match result {
        Some(res) => ms.push(("result".to_owned(), res)),
        None => (),
    }
    match error {
        Some(err) => ms.push(("error".to_owned(), error_to_json(err))),
        None => (),
    }
    Json::Obj(ms)
}

} // verus!
