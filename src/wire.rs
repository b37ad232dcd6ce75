//! The wire format: each outbound message is one line of JSON-RPC 2.0 text
//! ended by a line feed, and each inbound line is read for its identifier,
//! error and result members.
use vstd::prelude::*;
use vstd::string::StringExecFns;
use crate::json::{
    decimal, decimal_text, encode_string, encode_value, json_string_text, lemma_decimal_digits,
    lemma_decimal_injective, lemma_decimal_single_line, lemma_json_string_single_line, member,
    single_line,
};

verus! {

/// The protocol methods that the client calls.
#[derive(Clone, Copy, Debug, PartialEq, Eq, Structural)]
pub enum Method {
    Initialize,
    ToolsList,
    ToolsCall,
}

pub open spec fn method_name(m: Method) -> Seq<char> {
    match m {
        Method::Initialize => "initialize"@,
        Method::ToolsList => "tools/list"@,
        Method::ToolsCall => "tools/call"@,
    }
}

/// The name of a method as it stands in a request.
pub fn method_str(m: Method) -> (r: &'static str)
    ensures
        r@ == method_name(m),
{
    match m {
        Method::Initialize => "initialize",
        Method::ToolsList => "tools/list",
        Method::ToolsCall => "tools/call",
    }
}

/// The parameters of the handshake: protocol version, capabilities and the
/// client's name and version.
pub const INITIALIZE_PARAMS: &'static str = "{\"protocolVersion\":\"2024-11-05\",\"capabilities\":{\"tools\":{\"listChanged\":true},\"roots\":{\"listChanged\":true}},\"clientInfo\":{\"name\":\"smolpc-gimp-assistant\",\"version\":\"0.1.0\"}}";

/// The parameters of a tool listing: no cursor.
pub const LIST_TOOLS_PARAMS: &'static str = "{\"cursor\":null}";

/// The notification that acknowledges a completed handshake.
pub const INITIALIZED_NOTIFICATION: &'static str = "notifications/initialized";

/// The text of a request, without its line feed.
pub open spec fn request_text(id: nat, method: Seq<char>, params: Seq<char>) -> Seq<char> {
    "{\"jsonrpc\":\"2.0\",\"id\":"@ + decimal_text(id) + ",\"method\":\""@ + method
        + "\",\"params\":"@ + params + "}"@
}

/// The text of a notification, without its line feed: it has no identifier.
pub open spec fn notification_text(method: Seq<char>, params: Seq<char>) -> Seq<char> {
    "{\"jsonrpc\":\"2.0\",\"method\":\""@ + method + "\",\"params\":"@ + params + "}"@
}

/// The parameters of a tool call: the tool's name as a JSON string and its
/// arguments, each as serialised JSON text.
pub open spec fn tool_call_params_text(name: Seq<char>, arguments: Seq<char>) -> Seq<char> {
    "{\"name\":"@ + name + ",\"arguments\":"@ + arguments + "}"@
}

/// `p` is the parameters text of a call of the tool `name`: the name as a
/// JSON string, and arguments that are one line of JSON text.
pub open spec fn is_tool_call_params(p: Seq<char>, name: Seq<char>) -> bool {
    exists|a: Seq<char>|
        #![trigger tool_call_params_text(json_string_text(name), a)]
        single_line(a) && p == tool_call_params_text(json_string_text(name), a)
}

/// A frame: the text followed by exactly one line feed.
pub open spec fn framed(text: Seq<char>) -> Seq<char> {
    text.push('\n')
}

/// A frame holds one line feed, its last character.
pub open spec fn is_one_line(s: Seq<char>) -> bool {
    s.len() > 0 && s.last() == '\n' && single_line(s.drop_last())
}

/// Frames a request with identifier `id`.
pub fn request_line(id: u64, method: Method, params: &str) -> (r: String)
    ensures
        r@ == framed(request_text(id as nat, method_name(method), params@)),
{
    let mut s = String::from_str("{\"jsonrpc\":\"2.0\",\"id\":");
    let digits = decimal(id);
    s.append(digits.as_str());
    s.append(",\"method\":\"");
    s.append(method_str(method));
    s.append("\",\"params\":");
    s.append(params);
    s.append("}\n");
    proof {
        assert("}\n"@ =~= "}"@.push('\n')) by {
            reveal_strlit("}\n");
            reveal_strlit("}");
        }
        assert(s@ =~= framed(request_text(id as nat, method_name(method), params@)));
    }
    s
}

/// Frames a notification.
pub fn notification_line(method: &str, params: &str) -> (r: String)
    ensures
        r@ == framed(notification_text(method@, params@)),
{
    let mut s = String::from_str("{\"jsonrpc\":\"2.0\",\"method\":\"");
    s.append(method);
    s.append("\",\"params\":");
    s.append(params);
    s.append("}\n");
    proof {
        assert("}\n"@ =~= "}"@.push('\n')) by {
            reveal_strlit("}\n");
            reveal_strlit("}");
        }
        assert(s@ =~= framed(notification_text(method@, params@)));
    }
    s
}

/// A frame built from single-line pieces holds exactly one line feed.
pub proof fn lemma_request_frame_one_line(id: nat, method: Method, params: Seq<char>)
    requires
        single_line(params),
    ensures
        is_one_line(framed(request_text(id, method_name(method), params))),
{
    reveal_strlit("{\"jsonrpc\":\"2.0\",\"id\":");
    reveal_strlit(",\"method\":\"");
    reveal_strlit("\",\"params\":");
    reveal_strlit("}");
    reveal_strlit("initialize");
    reveal_strlit("tools/list");
    reveal_strlit("tools/call");
    lemma_decimal_single_line(id);
    let t = request_text(id, method_name(method), params);
    assert(framed(t).drop_last() =~= t);
}

/// Framing loses nothing: a request frame determines the identifier, the
/// method and the parameters it was built from, so reading a frame back
/// gives the request that was written.
pub proof fn lemma_request_frame_determines_request(
    i1: nat,
    m1: Method,
    p1: Seq<char>,
    i2: nat,
    m2: Method,
    p2: Seq<char>,
)
    requires
        framed(request_text(i1, method_name(m1), p1)) == framed(
            request_text(i2, method_name(m2), p2),
        ),
    ensures
        i1 == i2,
        m1 == m2,
        p1 == p2,
{
    let h = "{\"jsonrpc\":\"2.0\",\"id\":"@;
    let c = ",\"method\":\""@;
    let q = "\",\"params\":"@;
    let e = "}"@;
    reveal_strlit("{\"jsonrpc\":\"2.0\",\"id\":");
    reveal_strlit(",\"method\":\"");
    reveal_strlit("\",\"params\":");
    reveal_strlit("}");
    reveal_strlit("initialize");
    reveal_strlit("tools/list");
    reveal_strlit("tools/call");
    let a = request_text(i1, method_name(m1), p1);
    let b = request_text(i2, method_name(m2), p2);
    assert(framed(a).drop_last() =~= a);
    assert(framed(b).drop_last() =~= b);
    assert(a == b);
    let d1 = decimal_text(i1);
    let d2 = decimal_text(i2);
    lemma_decimal_digits(i1);
    lemma_decimal_digits(i2);
    let mn1 = method_name(m1);
    let mn2 = method_name(m2);
    assert(h.len() == 22);
    assert(c.len() == 11);
    assert(mn1.len() == 10 && mn2.len() == 10);
    assert(a =~= h + d1 + c + mn1 + q + p1 + e);
    assert(b =~= h + d2 + c + mn2 + q + p2 + e);
    let n1: int = d1.len() as int;
    let n2: int = d2.len() as int;
    assert(a[22 + n1] == ',');
    assert(b[22 + n2] == ',');
    if n1 < n2 {
        assert(b[22 + n1] == d2[n1]);
        assert(false);
    }
    if n2 < n1 {
        assert(a[22 + n2] == d1[n2]);
        assert(false);
    }
    assert(d1 =~= a.subrange(22, 22 + n1));
    assert(d2 =~= b.subrange(22, 22 + n2));
    lemma_decimal_injective(i1, i2);
    let off: int = 33 + n1;
    assert(mn1 =~= a.subrange(off, off + 10));
    assert(mn2 =~= b.subrange(off, off + 10));
    assert(m1 == m2) by {
        assert(mn1 == mn2);
        if m1 != m2 {
            assert(mn1[0] != mn2[0] || mn1[6] != mn2[6]);
        }
    }
    let pstart: int = off + 10 + q.len();
    assert(p1 =~= a.subrange(pstart, a.len() - 1));
    assert(p2 =~= b.subrange(pstart, b.len() - 1));
}

/// What a tool call asks of the worker: which tool, with which arguments.
#[derive(Debug)]
pub enum Call {
    ListTools,
    CallTool { name: String, arguments: serde_json::Value },
}

pub open spec fn call_method(c: &Call) -> Method {
    match c {
        Call::ListTools => Method::ToolsList,
        Call::CallTool { .. } => Method::ToolsCall,
    }
}

impl Call {
    /// The method that carries the call.
    pub fn method(&self) -> (r: Method)
        ensures
            r == call_method(self),
    {
        match self {
            Call::ListTools => Method::ToolsList,
            Call::CallTool { .. } => Method::ToolsCall,
        }
    }
}

/// The parameters of a call as one line of JSON text. A tool listing asks
/// with no cursor; a tool call gives the tool's name as a JSON string and its
/// arguments as serde_json writes them.
pub fn call_params(c: &Call) -> (r: String)
    ensures
        single_line(r@),
        c is ListTools ==> r@ == LIST_TOOLS_PARAMS@,
        c matches Call::CallTool { name, .. } ==> is_tool_call_params(r@, name@),
{
    match c {
        Call::ListTools => {
            proof {
                reveal_strlit("{\"cursor\":null}");
            }
            String::from_str(LIST_TOOLS_PARAMS)
        },
        Call::CallTool { name, arguments } => {
            let name_text = encode_string(name.as_str());
            proof {
                lemma_json_string_single_line(name@);
            }
            let args_text = encode_value(arguments).unwrap();
            let mut s = String::from_str("{\"name\":");
            s.append(name_text.as_str());
            s.append(",\"arguments\":");
            s.append(args_text.as_str());
            s.append("}");
            assert(s@ =~= tool_call_params_text(name_text@, args_text@));
            proof {
                reveal_strlit("{\"name\":");
                reveal_strlit(",\"arguments\":");
                reveal_strlit("}");
            }
            s
        },
    }
}

/// What the dispatcher reads of an inbound message: its identifier when it
/// is a non-negative integer, and its error and result members when present.
/// A message without such an identifier is a notification or is malformed.
#[derive(Debug)]
pub struct Inbound {
    pub id: Option<u64>,
    pub error: Option<serde_json::Value>,
    pub result: Option<serde_json::Value>,
}

/// Reads the members of a parsed message that the dispatcher decides on:
/// the `id` member when it is a non-negative integer that fits in a `u64`
/// (a string, negative or fractional identifier counts as none), and the
/// `error` and `result` members. A message that is not an object has none.
/// A serde_json value is opaque to the proofs, so what is read is stated
/// by the tests rather than by a contract.
pub fn classify(msg: &serde_json::Value) -> (r: Inbound) {
    let id = match member(msg, "id") {
        Some(v) => v.as_u64(),
        None => None,
    };
    Inbound { id, error: member(msg, "error"), result: member(msg, "result") }
}

} // verus!
