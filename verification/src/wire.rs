//! The wire shape of protocol traffic.
//!
//! Outbound calls are UTF-8 JSON objects `{"id":N,"method":"...",
//! ["sessionId":"...",]"params":...}`; inbound frames are objects carrying
//! some of `{id, method, params, result, error, sessionId}`.  The library
//! builds outbound text itself and classifies inbound envelopes — whose
//! fields the embedding extracts from the JSON — into responses, events, and
//! the shutdown sentinel.  Parameter and result payloads stay raw JSON text:
//! their shape belongs to the method schema, not to the transport.

use vstd::prelude::*;
use crate::errors::RemoteError;

verus! {

/// The character for one decimal digit.
pub open spec fn digit_char(d: nat) -> char {
    if d == 0 {
        '0'
    } else if d == 1 {
        '1'
    } else if d == 2 {
        '2'
    } else if d == 3 {
        '3'
    } else if d == 4 {
        '4'
    } else if d == 5 {
        '5'
    } else if d == 6 {
        '6'
    } else if d == 7 {
        '7'
    } else if d == 8 {
        '8'
    } else {
        '9'
    }
}

/// The decimal rendering of a number, most significant digit first.
pub open spec fn dec_str(n: nat) -> Seq<char>
    decreases n,
{
    if n < 10 {
        seq![digit_char(n)]
    } else {
        dec_str(n / 10).push(digit_char(n % 10))
    }
}

fn digit_str(d: u64) -> (r: &'static str)
    requires
        d < 10,
    ensures
        r@ == seq![digit_char(d as nat)],
{
    proof {
        reveal_strlit("0");
        reveal_strlit("1");
        reveal_strlit("2");
        reveal_strlit("3");
        reveal_strlit("4");
        reveal_strlit("5");
        reveal_strlit("6");
        reveal_strlit("7");
        reveal_strlit("8");
        reveal_strlit("9");
    }
    let r: &'static str = if d == 0 {
        "0"
    } else if d == 1 {
        "1"
    } else if d == 2 {
        "2"
    } else if d == 3 {
        "3"
    } else if d == 4 {
        "4"
    } else if d == 5 {
        "5"
    } else if d == 6 {
        "6"
    } else if d == 7 {
        "7"
    } else if d == 8 {
        "8"
    } else {
        "9"
    };
    proof {
        assert(r@ =~= seq![digit_char(d as nat)]);
    }
    r
}

/// Render a call id in decimal.
pub fn u64_to_dec(n: u64) -> (r: String)
    ensures
        r@ == dec_str(n as nat),
    decreases n,
{
    if n < 10 {
        String::from_str(digit_str(n))
    } else {
        let mut s = u64_to_dec(n / 10);
        s.append(digit_str(n % 10));
        proof {
            assert(s@ =~= dec_str(n as nat));
        }
        s
    }
}

/// Text that can sit inside a JSON string without escaping: no quote, no
/// backslash, no control character.  Method names and session ids on this
/// protocol are plain ASCII identifiers, so the builder requires this rather
/// than escaping.
pub open spec fn is_json_plain(s: Seq<char>) -> bool {
    forall|i: int| 0 <= i < s.len() ==> s[i] != '"' && s[i] != '\\' && s[i] >= ' '
}

/// The exact text of an outbound method-call frame.
pub open spec fn call_json(
    id: u64,
    session: Option<Seq<char>>,
    method: Seq<char>,
    params: Seq<char>,
) -> Seq<char> {
    "{\"id\":"@ + dec_str(id as nat) + ",\"method\":\""@ + method + "\""@ + (match session {
        Some(s) => ",\"sessionId\":\""@ + s + "\""@,
        None => Seq::<char>::empty(),
    }) + ",\"params\":"@ + params + "}"@
}

/// Serialize a method call.  The session id is embedded for target-scoped
/// calls and omitted for browser-level calls; `params` is already-serialized
/// JSON supplied by the caller.
pub fn build_call_json(id: u64, session: Option<&str>, method: &str, params: &str) -> (r: String)
    requires
        is_json_plain(method@),
        (session matches Some(s) ==> is_json_plain(s@)),
    ensures
        r@ == call_json(id, match session {
            Some(s) => Some(s@),
            None => None,
        }, method@, params@),
{
    let mut s = String::from_str("{\"id\":");
    let id_text = u64_to_dec(id);
    s.append(id_text.as_str());
    s.append(",\"method\":\"");
    s.append(method);
    s.append("\"");
    match session {
        Some(sid) => {
            s.append(",\"sessionId\":\"");
            s.append(sid);
            s.append("\"");
        },
        None => {},
    }
    s.append(",\"params\":");
    s.append(params);
    s.append("}");
    proof {
        assert(s@ =~= call_json(id, match session {
            Some(sid) => Some(sid@),
            None => None,
        }, method@, params@));
    }
    s
}

/// The fields of one inbound JSON object, as the embedding hands them over
/// after parsing: each present or absent, with payloads kept as raw JSON
/// text.
pub struct Envelope {
    pub id: Option<u64>,
    pub method: Option<String>,
    pub session_id: Option<String>,
    pub result: Option<String>,
    pub error: Option<RemoteError>,
    pub params: Option<String>,
}

/// A response to an earlier call: the browser's result, or its error object.
pub struct MethodResponse {
    pub call_id: u64,
    pub result: Result<String, RemoteError>,
}

/// An unsolicited notification, tagged with the session it belongs to
/// (absent for browser-level events).
pub struct ProtocolEvent {
    pub session_id: Option<String>,
    pub method: String,
    pub params: String,
}

/// One inbound message after classification.
pub enum ProtocolMessage {
    Response(MethodResponse),
    Event(ProtocolEvent),
    /// The sentinel the channel adapter emits when the remote end closes.
    ConnectionShutdown,
}

/// Classify one inbound envelope: one with a method is an event; one with
/// an id but no method is a response, failed exactly when an error object
/// is present; anything else is unrecognized and dropped.  A missing
/// `params` or `result` payload stands for JSON `null`.
pub fn classify(env: Envelope) -> (r: Option<ProtocolMessage>)
    ensures
        env.method is Some ==> (match r {
            Some(ProtocolMessage::Event(rev)) => {
                &&& rev.session_id == env.session_id
                &&& rev.method == env.method->0
                &&& (env.params is Some ==> rev.params == env.params->0)
                &&& (env.params is None ==> rev.params@ == "null"@)
            },
            _ => false,
        }),
        env.method is None && env.id is Some ==> (match r {
            Some(ProtocolMessage::Response(rr)) => {
                &&& rr.call_id == env.id->0
                &&& (env.error is Some ==> rr.result == Result::<String, RemoteError>::Err(
                    env.error->0,
                ))
                &&& (env.error is None && env.result is Some ==> rr.result == Result::<
                    String,
                    RemoteError,
                >::Ok(env.result->0))
                &&& (env.error is None && env.result is None ==> (match rr.result {
                    Ok(v) => v@ == "null"@,
                    Err(_) => false,
                }))
            },
            _ => false,
        }),
        env.method is None && env.id is None ==> r is None,
{
    if env.method.is_some() {
        let method = match env.method {
            Some(m) => m,
            None => String::new(),
        };
        let params = match env.params {
            Some(p) => p,
            None => String::from_str("null"),
        };
        Some(ProtocolMessage::Event(ProtocolEvent { session_id: env.session_id, method, params }))
    } else if env.id.is_some() {
        let call_id = match env.id {
            Some(i) => i,
            None => 0,
        };
        let result: Result<String, RemoteError> = match env.error {
            Some(e) => Err(e),
            None => match env.result {
                Some(v) => Ok(v),
                None => Ok(String::from_str("null")),
            },
        };
        Some(ProtocolMessage::Response(MethodResponse { call_id, result }))
    } else {
        None
    }
}

} // verus!
