use gimp_assistant::session::{Action, Session};
use gimp_assistant::wire::{call_params, classify, notification_line, request_line, Call, Inbound, Method};
use gimp_assistant::json::{decimal, trim_end};
use gimp_assistant::McpError;
use serde_json::Value;

const INIT_FRAME_1: &str = "{\"jsonrpc\":\"2.0\",\"id\":1,\"method\":\"initialize\",\"params\":{\"protocolVersion\":\"2024-11-05\",\"capabilities\":{\"tools\":{\"listChanged\":true},\"roots\":{\"listChanged\":true}},\"clientInfo\":{\"name\":\"smolpc-gimp-assistant\",\"version\":\"0.1.0\"}}}\n";
const ACK_FRAME: &str = "{\"jsonrpc\":\"2.0\",\"method\":\"notifications/initialized\",\"params\":{}}\n";

fn json(text: &str) -> Value {
    serde_json::from_str(text).unwrap()
}

fn written(a: Action) -> String {
    match a {
        Action::Write(l) => l,
        other => panic!("expected a frame to write, got {:?}", other),
    }
}

fn feed(s: &mut Session, line: &str) -> Action {
    s.on_read(line.len(), line)
}

/// Runs the handshake of a fresh session ahead of `call`, up to the frame of
/// the call's own request.
fn handshake(s: &mut Session, call: Call) -> String {
    assert_eq!(written(s.start(call)), INIT_FRAME_1);
    assert!(matches!(s.on_written(), Action::Read));
    let init_response = "{\"jsonrpc\":\"2.0\",\"id\":1,\"result\":{\"protocolVersion\":\"2024-11-05\"}}\n";
    assert_eq!(written(feed(s, init_response)), ACK_FRAME);
    written(s.on_written())
}

#[test]
fn first_call_list_tools_wire_sequence() {
    let mut s = Session::new();
    let request = handshake(&mut s, Call::ListTools);
    assert_eq!(
        request,
        "{\"jsonrpc\":\"2.0\",\"id\":2,\"method\":\"tools/list\",\"params\":{\"cursor\":null}}\n"
    );
    assert!(s.is_initialized());
    assert!(matches!(s.on_written(), Action::Read));
    let reply = feed(&mut s, "{\"jsonrpc\":\"2.0\",\"id\":2,\"result\":{\"tools\":[{\"name\":\"call_api\"}]}}\n");
    match reply {
        Action::Done(Ok(v)) => assert_eq!(v, json("{\"tools\":[{\"name\":\"call_api\"}]}")),
        other => panic!("unexpected {:?}", other),
    }
    assert!(s.is_idle());
    assert_eq!(s.next_id(), 3);
}

#[test]
fn remote_error_keeps_connection_usable() {
    let mut s = Session::new();
    handshake(&mut s, Call::ListTools);
    s.on_written();
    feed(&mut s, "{\"jsonrpc\":\"2.0\",\"id\":2,\"result\":{}}\n");
    let call = Call::CallTool {
        name: "call_api".to_string(),
        arguments: json("{\"api_path\":\"exec\",\"args\":[\"pyGObject-console\",[\"print(1)\"]]}"),
    };
    let frame = written(s.start(call));
    let sent: Value = serde_json::from_str(frame.trim_end()).unwrap();
    assert_eq!(sent["id"], json("3"));
    assert_eq!(sent["method"], json("\"tools/call\""));
    assert_eq!(sent["params"]["name"], json("\"call_api\""));
    assert_eq!(sent["params"]["arguments"]["api_path"], json("\"exec\""));
    s.on_written();
    let reply = feed(&mut s, "{\"jsonrpc\":\"2.0\",\"id\":3,\"error\":{\"message\":\"boom\"}}\n");
    match reply {
        Action::Done(Err(e)) => {
            assert!(matches!(e, McpError::Remote(_)));
            assert!(e.message().contains("boom"));
            assert!(e.message().starts_with("Server error: "));
        }
        other => panic!("unexpected {:?}", other),
    }
    assert!(s.is_initialized());
    assert!(s.is_idle());
    let next = written(s.start(Call::ListTools));
    assert_eq!(
        next,
        "{\"jsonrpc\":\"2.0\",\"id\":4,\"method\":\"tools/list\",\"params\":{\"cursor\":null}}\n"
    );
}

#[test]
fn worker_exit_gives_connection_closed() {
    let mut s = Session::new();
    handshake(&mut s, Call::ListTools);
    s.on_written();
    let reply = s.on_read(0, "");
    assert!(matches!(reply, Action::Done(Err(McpError::ConnectionClosed))));
    assert!(s.is_idle());
    // The session is not replaced: the next call goes out on the same one,
    // with the next identifier and no new handshake.
    assert!(s.is_initialized());
    let next = written(s.start(Call::ListTools));
    assert!(next.contains("\"id\":3"));
    s.on_written();
    assert!(matches!(s.on_read(0, ""), Action::Done(Err(McpError::ConnectionClosed))));
}

#[test]
fn zero_byte_read_is_not_parsed() {
    let mut s = Session::new();
    s.start(Call::ListTools);
    s.on_written();
    // Even text that would parse is ignored when the read reports no bytes.
    let reply = s.on_read(0, "{\"jsonrpc\":\"2.0\",\"id\":1,\"result\":{}}");
    assert!(matches!(reply, Action::Done(Err(McpError::ConnectionClosed))));
    assert!(!s.is_initialized());
    assert_eq!(
        McpError::ConnectionClosed.message(),
        gimp_assistant::error::CLOSED_MESSAGE
    );
}

#[test]
fn mismatched_and_unnumbered_messages_are_skipped() {
    let mut s = Session::new();
    handshake(&mut s, Call::ListTools);
    s.on_written();
    for line in [
        "{\"jsonrpc\":\"2.0\",\"method\":\"notifications/progress\",\"params\":{}}\n",
        "{\"jsonrpc\":\"2.0\",\"id\":1,\"result\":{}}\n",
        "{\"jsonrpc\":\"2.0\",\"id\":7,\"error\":{\"message\":\"stale\"}}\n",
        "{\"jsonrpc\":\"2.0\",\"id\":\"2\",\"result\":{}}\n",
        "{\"jsonrpc\":\"2.0\",\"id\":-2,\"result\":{}}\n",
        "[1,2,3]\n",
        "42\n",
    ] {
        assert!(matches!(feed(&mut s, line), Action::Read), "not skipped: {line}");
        assert!(s.is_reading());
    }
    let reply = feed(&mut s, "{\"jsonrpc\":\"2.0\",\"id\":2,\"result\":[]}\n");
    assert!(matches!(reply, Action::Done(Ok(Value::Array(_)))));
}

#[test]
fn malformed_line_is_protocol_error() {
    let mut s = Session::new();
    s.start(Call::ListTools);
    s.on_written();
    let reply = feed(&mut s, "{\"jsonrpc\": oops\r\n");
    match reply {
        Action::Done(Err(McpError::Protocol { line, diagnostic })) => {
            assert_eq!(line, "{\"jsonrpc\": oops");
            assert!(!diagnostic.is_empty());
            let m = McpError::Protocol { line, diagnostic }.message();
            assert!(m.ends_with("\nLine was: {\"jsonrpc\": oops"));
        }
        other => panic!("unexpected {:?}", other),
    }
    assert!(s.is_idle());
}

#[test]
fn handshake_error_fails_every_later_call() {
    let mut s = Session::new();
    s.start(Call::ListTools);
    s.on_written();
    let reply = feed(&mut s, "{\"jsonrpc\":\"2.0\",\"id\":1,\"error\":{\"code\":-32600,\"message\":\"bad version\"}}\n");
    match reply {
        Action::Done(Err(e)) => {
            assert!(matches!(e, McpError::Initialize(_)));
            assert!(e.message().starts_with("Initialize error from server: "));
            assert!(e.message().contains("bad version"));
        }
        other => panic!("unexpected {:?}", other),
    }
    assert!(!s.is_initialized());
    assert!(s.handshake_rejected());
    assert!(s.is_idle());
    // No new handshake and no request: the rejection stands.
    match s.start(Call::ListTools) {
        Action::Done(Err(e)) => assert!(e.message().contains("bad version")),
        other => panic!("unexpected {:?}", other),
    }
    assert_eq!(s.next_id(), 2);
    assert!(s.is_idle());
}

#[test]
fn crlf_and_unicode_space_are_trimmed() {
    let mut s = Session::new();
    handshake(&mut s, Call::ListTools);
    s.on_written();
    let reply = feed(&mut s, "{\"id\":2,\"result\":[]}\r\n");
    match reply {
        Action::Done(Ok(v)) => assert_eq!(v, json("[]")),
        other => panic!("unexpected {:?}", other),
    }
    s.start(Call::ListTools);
    s.on_written();
    let reply = feed(&mut s, "{ oops \u{3000}\t\r\n");
    match reply {
        Action::Done(Err(McpError::Protocol { line, .. })) => assert_eq!(line, "{ oops"),
        other => panic!("unexpected {:?}", other),
    }
}

#[test]
fn blank_line_is_protocol_error() {
    let mut s = Session::new();
    s.start(Call::ListTools);
    s.on_written();
    match feed(&mut s, "\r\n") {
        Action::Done(Err(McpError::Protocol { line, .. })) => assert_eq!(line, ""),
        other => panic!("unexpected {:?}", other),
    }
}

#[test]
fn handshake_only_on_first_call() {
    let mut s = Session::new();
    let call = Call::CallTool { name: "get_gimp_info".to_string(), arguments: json("{}") };
    let first = handshake(&mut s, call);
    assert!(first.contains("\"method\":\"tools/call\""));
    s.on_written();
    feed(&mut s, "{\"jsonrpc\":\"2.0\",\"id\":2,\"result\":{\"content\":[]}}\n");
    for expected_id in 3..8u64 {
        let frame = written(s.start(Call::ListTools));
        assert!(!frame.contains("initialize"));
        assert!(frame.contains(&format!("\"id\":{expected_id},")));
        s.on_written();
        let reply = format!("{{\"jsonrpc\":\"2.0\",\"id\":{expected_id},\"result\":{{}}}}\n");
        assert!(matches!(feed(&mut s, &reply), Action::Done(Ok(_))));
    }
}

#[test]
fn ids_increase_from_one() {
    let mut s = Session::new();
    assert_eq!(s.next_id(), 1);
    let mut seen: Vec<u64> = Vec::new();
    let mut action = s.start(Call::ListTools);
    for _ in 0..40 {
        match action {
            Action::Write(l) => {
                let v: Value = serde_json::from_str(l.trim_end()).unwrap();
                if let Some(id) = v.get("id").and_then(|i| i.as_u64()) {
                    seen.push(id);
                }
                action = s.on_written();
            }
            Action::Read => {
                let id = *seen.last().unwrap();
                let reply = format!("{{\"jsonrpc\":\"2.0\",\"id\":{id},\"result\":{{}}}}\n");
                action = feed(&mut s, &reply);
            }
            Action::Done(r) => {
                assert!(r.is_ok());
                action = s.start(Call::ListTools);
            }
        }
    }
    assert!(seen.len() > 5);
    for (i, id) in seen.iter().enumerate() {
        assert_eq!(*id, i as u64 + 1);
    }
}

#[test]
fn write_and_read_failures_end_the_call() {
    let mut s = Session::new();
    s.start(Call::ListTools);
    let r = s.on_write_failed("broken pipe".to_string());
    assert!(matches!(r, Action::Done(Err(McpError::Write(ref m))) if m == "broken pipe"));
    assert!(s.is_idle());
    assert_eq!(s.next_id(), 2);
    s.start(Call::ListTools);
    s.on_written();
    let r = s.on_read_failed("interrupted".to_string());
    match r {
        Action::Done(Err(e)) => assert_eq!(e.message(), "Failed to read from MCP server: interrupted"),
        other => panic!("unexpected {:?}", other),
    }
}

#[test]
fn missing_result_is_an_error() {
    let mut s = Session::new();
    handshake(&mut s, Call::ListTools);
    s.on_written();
    let r = feed(&mut s, "{\"jsonrpc\":\"2.0\",\"id\":2}\n");
    assert!(matches!(r, Action::Done(Err(McpError::MissingResult))));
    assert_eq!(McpError::MissingResult.message(), "Missing result in MCP response");
}

#[test]
fn request_round_trip() {
    let params = json("{\"name\":\"tab\\there \\\"quoted\\\"\\nline\",\"arguments\":{\"n\":[1,2.5,null,true],\"u\":\"\u{e9}\u{1F600}\"}}");
    let text = serde_json::to_string(&params).unwrap();
    let line = request_line(9_007_199_254_740_993, Method::ToolsCall, &text);
    assert!(line.ends_with('\n'));
    assert_eq!(line.matches('\n').count(), 1);
    let back: Value = serde_json::from_str(line.trim_end()).unwrap();
    assert_eq!(back["jsonrpc"], json("\"2.0\""));
    assert_eq!(back["id"].as_u64(), Some(9_007_199_254_740_993));
    assert_eq!(back["method"].as_str(), Some("tools/call"));
    assert_eq!(back["params"], params);
}

#[test]
fn tool_call_params_round_trip() {
    let arguments = json("{\"api_path\":\"exec\",\"args\":[\"a\\nb\",{\"k\":0}]}");
    let call = Call::CallTool { name: "na\"me\n".to_string(), arguments: arguments.clone() };
    let text = call_params(&call);
    assert!(!text.contains('\n'));
    let back: Value = serde_json::from_str(&text).unwrap();
    assert_eq!(back["name"].as_str(), Some("na\"me\n"));
    assert_eq!(back["arguments"], arguments);
    assert_eq!(call_params(&Call::ListTools), "{\"cursor\":null}");
}

#[test]
fn notification_has_no_id() {
    let line = notification_line("notifications/initialized", "{}");
    assert_eq!(line, ACK_FRAME);
    let back: Value = serde_json::from_str(line.trim_end()).unwrap();
    assert!(back.get("id").is_none());
}

#[test]
fn classify_reads_members() {
    let m: Inbound = classify(&json("{\"jsonrpc\":\"2.0\",\"id\":5,\"error\":{\"message\":\"x\"}}"));
    assert_eq!(m.id, Some(5));
    assert_eq!(m.error, Some(json("{\"message\":\"x\"}")));
    assert!(m.result.is_none());
    let n = classify(&json("{\"method\":\"notifications/message\"}"));
    assert!(n.id.is_none() && n.error.is_none() && n.result.is_none());
}

#[test]
fn message_texts() {
    assert_eq!(
        McpError::Spawn("not found".to_string()).message(),
        "Failed to start gimp-mcp server: not found"
    );
    assert_eq!(
        McpError::Write("broken pipe".to_string()).message(),
        "Failed to write to MCP server: broken pipe"
    );
    assert_eq!(McpError::LockPoisoned.message(), "MCP mutex poisoned");
    assert_eq!(
        McpError::Remote(json("{\"message\":\"boom\"}")).message(),
        "Server error: {\"message\":\"boom\"}"
    );
}

#[test]
fn large_ids_in_decimal() {
    let line = request_line(u64::MAX, Method::Initialize, "{}");
    assert!(line.starts_with("{\"jsonrpc\":\"2.0\",\"id\":18446744073709551615,\"method\":\"initialize\""));
    let line = request_line(0, Method::ToolsList, "{}");
    assert!(line.contains("\"id\":0,"));
}

#[test]
fn tool_name_is_escaped_as_json() {
    let call = Call::CallTool {
        name: "a\u{1}b\\c\u{8}\u{c}\r\t/\u{1f}".to_string(),
        arguments: json("null"),
    };
    assert_eq!(
        call_params(&call),
        "{\"name\":\"a\\u0001b\\\\c\\b\\f\\r\\t/\\u001f\",\"arguments\":null}"
    );
}

#[test]
fn decimal_and_trim() {
    assert_eq!(decimal(0), "0");
    assert_eq!(decimal(907), "907");
    assert_eq!(decimal(u64::MAX), "18446744073709551615");
    assert_eq!(trim_end("ab \t\r\n\u{a0}\u{2029}"), "ab");
    assert_eq!(trim_end(" x y "), " x y");
    assert_eq!(trim_end(" \n"), "");
    assert_eq!(trim_end("caf\u{e9}"), "caf\u{e9}");
}
