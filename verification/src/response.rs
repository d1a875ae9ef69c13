use vstd::prelude::*;

verus! {

#[verifier::external_type_specification]
#[verifier::external_body]
pub struct ExJsonValue(serde_json::Value);

/// Whether `serde_json::from_str::<serde_json::Value>` accepts a text as
/// JSON. Parsing reads the characters alone, so this is a function of them.
pub uninterp spec fn json_ok(s: Seq<char>) -> bool;

/// Relies on serde_json::from_str::<serde_json::Value>: it returns `Ok`
/// exactly when the text is a well-formed JSON document, and the decision
/// depends on the text alone.
#[verifier::external_body]
fn parse_json(body: &str) -> (r: Option<serde_json::Value>)
    ensures
        r is Some <==> json_ok(body@),
{
    match serde_json::from_str::<serde_json::Value>(body) {
        Ok(v) => Some(v),
        Err(_) => None,
    }
}

/// Relies on serde_json::Value's derived Clone: the copy is the same JSON
/// document as the original.
#[verifier::external_body]
pub(crate) fn clone_value(v: &serde_json::Value) -> (r: serde_json::Value)
    ensures
        r == *v,
{
    v.clone()
}

/// How an operation fails. Every operation returns either the decoded JSON
/// body or exactly one of these; nothing is retried or swallowed.
#[derive(Debug)]
pub enum BitGoError {
    /// The request never received a response: connection, TLS or timeout
    /// failure, described by the transport's own message.
    Transport(String),
    /// The service answered with a non-success HTTP status. The status is
    /// kept, and the response body is attached when it parsed as JSON.
    Api(u16, Option<serde_json::Value>),
    /// The service answered with a success status, but the body was not
    /// valid JSON.
    Decode,
}

/// Two errors carry the same information: same category, same status, same
/// attached body, and transport messages that read the same.
pub open spec fn same_error(a: BitGoError, b: BitGoError) -> bool {
    match (a, b) {
        (BitGoError::Transport(ma), BitGoError::Transport(mb)) => ma@ == mb@,
        (BitGoError::Api(sa, ba), BitGoError::Api(sb, bb)) => sa == sb && ba == bb,
        (BitGoError::Decode, BitGoError::Decode) => true,
        _ => false,
    }
}

impl Clone for BitGoError {
    fn clone(&self) -> (r: BitGoError)
        ensures
            same_error(r, *self),
    {
        match self {
            BitGoError::Transport(m) => BitGoError::Transport(m.clone()),
            BitGoError::Api(status, body) => BitGoError::Api(
                *status,
                match body {
                    Some(v) => Some(clone_value(v)),
                    None => None,
                },
            ),
            BitGoError::Decode => BitGoError::Decode,
        }
    }
}

/// The HTTP statuses this library counts as success.
pub open spec fn is_success_status(status: u16) -> bool {
    200 <= status < 300
}

/// Normalizes one received response. A success status with a JSON body
/// yields the decoded body; a success status with a body that is not JSON
/// yields `Decode`, never a silently empty value; any other status yields
/// `Api` carrying that same status, with the body attached exactly when it
/// parsed as JSON.
pub fn interpret_response(status: u16, body: &str) -> (r: Result<serde_json::Value, BitGoError>)
    ensures
        is_success_status(status) && json_ok(body@) ==> r is Ok,
        is_success_status(status) && !json_ok(body@) ==> (r matches Err(e) && e is Decode),
        !is_success_status(status) ==> (r matches Err(e) && e matches BitGoError::Api(s, b)
            && s == status && (b is Some <==> json_ok(body@))),
{
    let parsed = parse_json(body);
    if 200 <= status && status < 300 {
        match parsed {
            Some(v) => Ok(v),
            None => Err(BitGoError::Decode),
        }
    } else {
        Err(BitGoError::Api(status, parsed))
    }
}

} // verus!
