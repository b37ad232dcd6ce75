//! The ways a call to the worker can fail.
use vstd::prelude::*;
use vstd::string::StringExecFns;
use crate::json::encode_value;

verus! {

/// Why a call to the worker failed. Every failure is handed to the caller;
/// none is retried.
#[derive(Debug)]
pub enum McpError {
    /// The worker could not be started; carries the system's error text.
    Spawn(String),
    /// Writing to the worker's input failed; carries the I/O error text.
    Write(String),
    /// Reading from the worker's output failed; carries the I/O error text.
    Read(String),
    /// The worker closed its output: a read returned zero bytes.
    ConnectionClosed,
    /// A line from the worker was not JSON.
    Protocol { line: String, diagnostic: String },
    /// The worker answered the handshake with an error object, carried verbatim.
    Initialize(serde_json::Value),
    /// The worker answered a request with an error object, carried verbatim.
    Remote(serde_json::Value),
    /// The matching response held neither a result nor an error.
    MissingResult,
    /// An earlier holder of the connection lock panicked while holding it.
    LockPoisoned,
}

impl McpError {
    /// The error as a sentence for the user; an error object from the worker
    /// is written as compact JSON.
    pub fn message(&self) -> (r: String)
        ensures
            self matches McpError::ConnectionClosed ==> r@ == CLOSED_MESSAGE@,
            self matches McpError::MissingResult ==> r@ == "Missing result in MCP response"@,
            self matches McpError::LockPoisoned ==> r@ == "MCP mutex poisoned"@,
            self matches McpError::Spawn(e) ==> r@ == "Failed to start gimp-mcp server: "@ + e@,
            self matches McpError::Write(e) ==> r@ == "Failed to write to MCP server: "@ + e@,
            self matches McpError::Read(e) ==> r@ == "Failed to read from MCP server: "@ + e@,
            self matches McpError::Protocol { line, diagnostic } ==> r@
                == "Invalid JSON from MCP server: "@ + diagnostic@ + "\nLine was: "@ + line@,
            self matches McpError::Initialize(_) ==> r@.len() >= "Initialize error from server: "@.len()
                && r@.subrange(0, "Initialize error from server: "@.len() as int)
                == "Initialize error from server: "@,
            self matches McpError::Remote(_) ==> r@.len() >= "Server error: "@.len()
                && r@.subrange(0, "Server error: "@.len() as int) == "Server error: "@,
    {
        match self {
            McpError::Spawn(e) => String::from_str("Failed to start gimp-mcp server: ").concat(e.as_str()),
            McpError::Write(e) => String::from_str("Failed to write to MCP server: ").concat(e.as_str()),
            McpError::Read(e) => String::from_str("Failed to read from MCP server: ").concat(e.as_str()),
            McpError::ConnectionClosed => String::from_str(CLOSED_MESSAGE),
            McpError::Protocol { line, diagnostic } => {
                String::from_str("Invalid JSON from MCP server: ").concat(diagnostic.as_str()).concat(
                    "\nLine was: ",
                ).concat(line.as_str())
            },
            McpError::Initialize(v) => prefixed_json("Initialize error from server: ", v),
            McpError::Remote(v) => prefixed_json("Server error: ", v),
            McpError::MissingResult => String::from_str("Missing result in MCP response"),
            McpError::LockPoisoned => String::from_str("MCP mutex poisoned"),
        }
    }
}

/// What the user is told when the worker has closed its output.
pub const CLOSED_MESSAGE: &'static str = "MCP server closed the connection. Make sure GIMP is running, an image is open, and Tools → Start MCP Server has been clicked.";

fn prefixed_json(prefix: &str, v: &serde_json::Value) -> (r: String)
    ensures
        r@.len() >= prefix@.len(),
        r@.subrange(0, prefix@.len() as int) == prefix@,
{
    let body = encode_value(v).unwrap();
    let r = String::from_str(prefix).concat(body.as_str());
    assert(r@.subrange(0, prefix@.len() as int) =~= prefix@);
    r
}

} // verus!
