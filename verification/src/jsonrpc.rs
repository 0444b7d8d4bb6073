//! JSON-RPC 2.0 requests as the proxy sees them: validation of a parsed
//! request into a tool call (MCP `tools/call` or an A2A task method), a
//! request to pass through, or an error; and the error responses.
//!
//! The request arrives parsed: the fields the validation reads are plain
//! values, JSON values among them as their compact JSON text.
use vstd::prelude::*;
use vstd::string::StringExecFns;
use crate::a2a::{is_a2a_method, resolve_policy_context, policy_context_text};
use crate::hashing::{hex_digit, hex_digit_char};
use crate::text::{copy_str, decimal_i32, decimal_int, push_char, str_eq};

verus! {

/// Invalid JSON.
pub const PARSE_ERROR: i32 = -32700;

/// Not a valid request object.
pub const INVALID_REQUEST: i32 = -32600;

/// Invalid method parameters.
pub const INVALID_PARAMS: i32 = -32602;

/// Refused by the security policy (server error range).
pub const POLICY_DENIED: i32 = -32000;

/// What validation reads of a request's `params` object.
pub struct RpcParams {
    /// The `name` member, when it is a string.
    pub name: Option<String>,
    /// The JSON text of the `arguments` member, if present.
    pub arguments: Option<String>,
    /// The JSON text of the `args` member, if present.
    pub args: Option<String>,
    /// The JSON text of the `input` member, if present.
    pub input: Option<String>,
    /// The `recipient` member, when it is a string.
    pub recipient: Option<String>,
    /// The JSON text of the whole parameters.
    pub text: String,
}

/// A parsed JSON-RPC request.
pub struct JsonRpcRequest {
    /// The `jsonrpc` version, if given.
    pub jsonrpc: Option<String>,
    /// The JSON text of the request id, if given.
    pub id: Option<String>,
    /// The method name (empty when missing).
    pub method: String,
    /// The parameters, if given.
    pub params: Option<RpcParams>,
    /// The calling agent, if given.
    pub agent_id: Option<String>,
}

/// Outcome of validating a request.
pub enum JsonRpcValidation {
    /// A tool call to screen: its id, tool name, argument text and agent.
    ToolCall { id: Option<String>, tool_name: String, arguments: String, agent_id: Option<String> },
    /// A valid request that is not a tool call.
    PassThrough,
    /// An invalid request, answered with an error.
    Error { id: Option<String>, code: i32, message: String },
}

/// The characters of an optional string.
pub open spec fn opt_text(o: Option<String>) -> Option<Seq<char>> {
    match o {
        Some(s) => Some(s@),
        None => None,
    }
}

/// The abstract outcome of validation.
pub enum ValidationView {
    /// A tool call.
    ToolCall {
        id: Option<Seq<char>>,
        tool_name: Seq<char>,
        arguments: Seq<char>,
        agent_id: Option<Seq<char>>,
    },
    /// A request to pass through.
    PassThrough,
    /// An error.
    Error { id: Option<Seq<char>>, code: i32, message: Seq<char> },
}

/// The abstract outcome of a validation result.
pub open spec fn validation_view(v: JsonRpcValidation) -> ValidationView {
    match v {
        JsonRpcValidation::ToolCall { id, tool_name, arguments, agent_id } => ValidationView::ToolCall {
            id: opt_text(id),
            tool_name: tool_name@,
            arguments: arguments@,
            agent_id: opt_text(agent_id),
        },
        JsonRpcValidation::PassThrough => ValidationView::PassThrough,
        JsonRpcValidation::Error { id, code, message } => ValidationView::Error {
            id: opt_text(id),
            code,
            message: message@,
        },
    }
}

/// The argument text of a tool call: the `arguments` member, else `args`,
/// else `input`, else an empty object.
pub open spec fn call_arguments(p: RpcParams) -> Seq<char> {
    match p.arguments {
        Some(a) => a@,
        None => match p.args {
            Some(a) => a@,
            None => match p.input {
                Some(a) => a@,
                None => "{}"@,
            },
        },
    }
}

/// What validating `req` gives: `None` stands for text that is not JSON.
/// A version other than "2.0", or an empty method, is an invalid request;
/// `tools/call` needs parameters with a nonempty tool name; an A2A task
/// method is screened under its policy name with its whole parameters as
/// arguments; any other method passes through.
pub open spec fn validated(req: Option<JsonRpcRequest>) -> ValidationView {
    match req {
        None => ValidationView::Error {
            id: None,
            code: PARSE_ERROR,
            message: "Parse error: Invalid JSON"@,
        },
        Some(r) => if r.jsonrpc is Some && r.jsonrpc->0@ != "2.0"@ {
            ValidationView::Error {
                id: opt_text(r.id),
                code: INVALID_REQUEST,
                message: "Invalid Request: jsonrpc must be '2.0', got '"@ + r.jsonrpc->0@ + "'"@,
            }
        } else if r.method@.len() == 0 {
            ValidationView::Error {
                id: opt_text(r.id),
                code: INVALID_REQUEST,
                message: "Invalid Request: method is required"@,
            }
        } else if r.method@ == "tools/call"@ {
            match r.params {
                None => ValidationView::Error {
                    id: opt_text(r.id),
                    code: INVALID_PARAMS,
                    message: "Invalid params: params object required"@,
                },
                Some(p) => if p.name is Some && p.name->0@.len() > 0 {
                    ValidationView::ToolCall {
                        id: opt_text(r.id),
                        tool_name: p.name->0@,
                        arguments: call_arguments(p),
                        agent_id: opt_text(r.agent_id),
                    }
                } else {
                    ValidationView::Error {
                        id: opt_text(r.id),
                        code: INVALID_PARAMS,
                        message: "Invalid params: tool name is required"@,
                    }
                },
            }
        } else if crate::a2a::a2a_methods().contains(r.method@) {
            match r.params {
                None => ValidationView::ToolCall {
                    id: opt_text(r.id),
                    tool_name: policy_context_text(r.method@, None),
                    arguments: "{}"@,
                    agent_id: opt_text(r.agent_id),
                },
                Some(p) => ValidationView::ToolCall {
                    id: opt_text(r.id),
                    tool_name: policy_context_text(r.method@, opt_text(p.recipient)),
                    arguments: p.text@,
                    agent_id: opt_text(r.agent_id),
                },
            }
        } else {
            ValidationView::PassThrough
        },
    }
}

/// A copy of an optional string.
fn copy_opt(o: &Option<String>) -> (c: Option<String>)
    ensures
        opt_text(c) == opt_text(*o),
{
    match o {
        Some(s) => Some(copy_str(s.as_str())),
        None => None,
    }
}

/// Validates a parsed request (`None` for text that is not JSON) and
/// extracts the tool call it makes, if any.
pub fn validate_request(req: Option<JsonRpcRequest>) -> (v: JsonRpcValidation)
    ensures
        validation_view(v) == validated(req),
{
    let r = match req {
        None => {
            return JsonRpcValidation::Error {
                id: None,
                code: PARSE_ERROR,
                message: copy_str("Parse error: Invalid JSON"),
            };
        },
        Some(r) => r,
    };
    match &r.jsonrpc {
        Some(version) => {
            if !str_eq(version.as_str(), "2.0") {
                let mut message = copy_str("Invalid Request: jsonrpc must be '2.0', got '");
                message.append(version.as_str());
                message.append("'");
                return JsonRpcValidation::Error { id: r.id, code: INVALID_REQUEST, message };
            }
        },
        None => {},
    }
    if r.method.as_str().unicode_len() == 0 {
        return JsonRpcValidation::Error {
            id: r.id,
            code: INVALID_REQUEST,
            message: copy_str("Invalid Request: method is required"),
        };
    }
    if str_eq(r.method.as_str(), "tools/call") {
        match r.params {
            None => JsonRpcValidation::Error {
                id: r.id,
                code: INVALID_PARAMS,
                message: copy_str("Invalid params: params object required"),
            },
            Some(p) => {
                let named = match &p.name {
                    Some(n) => n.as_str().unicode_len() > 0,
                    None => false,
                };
                if !named {
                    return JsonRpcValidation::Error {
                        id: r.id,
                        code: INVALID_PARAMS,
                        message: copy_str("Invalid params: tool name is required"),
                    };
                }
                let arguments = match &p.arguments {
                    Some(a) => copy_str(a.as_str()),
                    None => match &p.args {
                        Some(a) => copy_str(a.as_str()),
                        None => match &p.input {
                            Some(a) => copy_str(a.as_str()),
                            None => copy_str("{}"),
                        },
                    },
                };
                let tool_name = match p.name {
                    Some(n) => n,
                    None => String::new(),
                };
                JsonRpcValidation::ToolCall { id: r.id, tool_name, arguments, agent_id: r.agent_id }
            },
        }
    } else if is_a2a_method(r.method.as_str()) {
        match r.params {
            None => JsonRpcValidation::ToolCall {
                id: r.id,
                tool_name: resolve_policy_context(r.method.as_str(), None),
                arguments: copy_str("{}"),
                agent_id: r.agent_id,
            },
            Some(p) => {
                let tool_name = match &p.recipient {
                    Some(t) => resolve_policy_context(r.method.as_str(), Some(t.as_str())),
                    None => resolve_policy_context(r.method.as_str(), None),
                };
                JsonRpcValidation::ToolCall { id: r.id, tool_name, arguments: p.text, agent_id: r.agent_id }
            },
        }
    } else {
        JsonRpcValidation::PassThrough
    }
}

/// Law: the arguments of a `tools/call` come from the first of the
/// `arguments`, `args` and `input` members that is present, as its JSON
/// text; the call has no arguments (`{}`) only when none of them is.
pub proof fn lemma_tool_call_argument_members(r: JsonRpcRequest, p: RpcParams)
    requires
        r.jsonrpc is None || r.jsonrpc->0@ == "2.0"@,
        r.method@ == "tools/call"@,
        r.params == Some(p),
        p.name is Some && p.name->0@.len() > 0,
    ensures
        validated(Some(r)) is ToolCall,
        p.arguments matches Some(a) ==> validated(Some(r))->arguments == a@,
        p.arguments is None ==> (p.args matches Some(a) ==> validated(Some(r))->arguments == a@),
        p.arguments is None && p.args is None ==> (p.input matches Some(a) ==> validated(
            Some(r),
        )->arguments == a@),
        p.arguments is None && p.args is None && p.input is None ==> validated(Some(r))->arguments
            == "{}"@,
{
    reveal_strlit("tools/call");
    assert(r.method@.len() > 0);
}

// ---------------------------------------------------------------------------
// Error responses
// ---------------------------------------------------------------------------

/// The JSON escape of one character, as serde_json writes it inside a
/// string: `"` and `\` behind a backslash, the usual short escapes for
/// backspace, form feed, line feed, carriage return and tab, other control
/// characters as `\u00XX` in lowercase hexadecimal, everything else as is.
pub open spec fn json_char(c: char) -> Seq<char> {
    if c == '"' {
        seq!['\\', '"']
    } else if c == '\\' {
        seq!['\\', '\\']
    } else if c == '\u{8}' {
        seq!['\\', 'b']
    } else if c == '\u{c}' {
        seq!['\\', 'f']
    } else if c == '\n' {
        seq!['\\', 'n']
    } else if c == '\r' {
        seq!['\\', 'r']
    } else if c == '\t' {
        seq!['\\', 't']
    } else if (c as u32) < 0x20 {
        seq![
            '\\',
            'u',
            '0',
            '0',
            hex_digit_char(((c as u32) / 16) as nat),
            hex_digit_char(((c as u32) % 16) as nat),
        ]
    } else {
        seq![c]
    }
}

/// The escaped characters of `s`.
pub open spec fn json_escaped(s: Seq<char>) -> Seq<char>
    decreases s.len(),
{
    if s.len() == 0 {
        Seq::empty()
    } else {
        json_escaped(s.drop_last()) + json_char(s.last())
    }
}

/// `s` as a JSON string literal.
pub open spec fn json_string(s: Seq<char>) -> Seq<char> {
    seq!['"'] + json_escaped(s) + seq!['"']
}

/// The error response to a request: `id` is the JSON text of its id
/// (`null` when it has none). Members are in the order serde_json writes
/// an object's keys: sorted.
pub open spec fn error_response_text(id: Option<Seq<char>>, code: i32, message: Seq<char>) -> Seq<char> {
    "{\"error\":{\"code\":"@ + decimal_int(code as int) + ",\"message\":"@ + json_string(message)
        + "},\"id\":"@ + (match id {
        Some(t) => t,
        None => "null"@,
    }) + ",\"jsonrpc\":\"2.0\"}"@
}

/// Appends the JSON escape of `c` to `out`.
fn push_json_char(out: &mut String, c: char)
    ensures
        final(out)@ == old(out)@ + json_char(c),
{
    if c == '"' {
        push_char(out, '\\');
        push_char(out, '"');
    } else if c == '\\' {
        push_char(out, '\\');
        push_char(out, '\\');
    } else if c == '\u{8}' {
        push_char(out, '\\');
        push_char(out, 'b');
    } else if c == '\u{c}' {
        push_char(out, '\\');
        push_char(out, 'f');
    } else if c == '\n' {
        push_char(out, '\\');
        push_char(out, 'n');
    } else if c == '\r' {
        push_char(out, '\\');
        push_char(out, 'r');
    } else if c == '\t' {
        push_char(out, '\\');
        push_char(out, 't');
    } else if (c as u32) < 0x20 {
        let u = c as u32;
        push_char(out, '\\');
        push_char(out, 'u');
        push_char(out, '0');
        push_char(out, '0');
        push_char(out, hex_digit((u / 16) as u64));
        push_char(out, hex_digit((u % 16) as u64));
    } else {
        push_char(out, c);
    }
    assert(final(out)@ =~= old(out)@ + json_char(c));
}

/// Appends `s` as a JSON string literal to `out`.
pub fn push_json_string(out: &mut String, s: &str)
    ensures
        final(out)@ == old(out)@ + json_string(s@),
{
    let v = crate::text::chars_of(s);
    push_char(out, '"');
    let ghost start = out@;
    let mut k: usize = 0;
    while k < v.len()
        invariant
            k <= v@.len(),
            v@ == s@,
            out@ == start + json_escaped(v@.take(k as int)),
        decreases v.len() - k,
    {
        push_json_char(out, v[k]);
        assert(v@.take(k + 1).drop_last() =~= v@.take(k as int));
        k = k + 1;
    }
    assert(v@.take(k as int) =~= v@);
    push_char(out, '"');
    assert(out@ =~= old(out)@ + json_string(s@));
}

/// The error response to a request with the JSON id text `id`: a JSON-RPC
/// 2.0 error object with `code` and `message`.
pub fn jsonrpc_error_response(id: Option<&str>, code: i32, message: &str) -> (s: String)
    ensures
        s@ == error_response_text(
            match id {
                Some(t) => Some(t@),
                None => None,
            },
            code,
            message@,
        ),
{
    let mut s = copy_str("{\"error\":{\"code\":");
    let c = decimal_i32(code);
    s.append(c.as_str());
    s.append(",\"message\":");
    push_json_string(&mut s, message);
    s.append("},\"id\":");
    match id {
        Some(t) => s.append(t),
        None => s.append("null"),
    }
    s.append(",\"jsonrpc\":\"2.0\"}");
    s
}

} // verus!
