//! Decoding the service's reply to a push.
//!
//! A reply is a JSON document whose `content.result[0]` is a string that holds
//! a second, encoded JSON document; the push went through exactly when that
//! inner document's `success` member is the string `"ok"`.

use vstd::prelude::*;

use crate::json::{json_tree, member, parse_json, parsed_json, JsonTree};

verus! {

/// Why a reply could not be read.
#[derive(Debug, Clone, Copy, PartialEq, Eq, Structural)]
pub enum DecodeFailure {
    /// The reply body is not JSON.
    BodyNotJson,
    /// There is no value at `content.result[0]`.
    ResultMissing,
    /// The value at `content.result[0]` is not a string.
    ResultNotString,
    /// The string at `content.result[0]` is not JSON.
    ResultNotJson,
}

/// Why a push did not go through.
#[derive(Debug)]
pub enum PushError {
    /// The request could not be issued or its reply could not be received.
    Transport(String),
    /// The reply does not have the expected shape.
    Decode(DecodeFailure),
    /// The service answered, and not with success; holds the reply verbatim.
    Rejected(String),
}

/// How a reply body is to be read.
#[derive(Debug, Clone, Copy, PartialEq, Eq, Structural)]
pub enum Verdict {
    Delivered,
    Rejected,
    Undecodable(DecodeFailure),
}

/// The member of an object under `key`.
pub open spec fn member_of(t: JsonTree, key: Seq<char>) -> Option<JsonTree> {
    match t {
        JsonTree::Object(m) => if m.contains_key(key) {
            Some(m[key])
        } else {
            None
        },
        _ => None,
    }
}

/// The element of an array at `i`.
pub open spec fn element_of(t: JsonTree, i: int) -> Option<JsonTree> {
    match t {
        JsonTree::Array(s) => if 0 <= i < s.len() {
            Some(s[i])
        } else {
            None
        },
        _ => None,
    }
}

/// The value at `content.result[0]` of a reply document.
pub open spec fn result_slot(doc: JsonTree) -> Option<JsonTree> {
    match member_of(doc, "content"@) {
        Some(content) => match member_of(content, "result"@) {
            Some(results) => element_of(results, 0),
            None => None,
        },
        None => None,
    }
}

/// What reading `content.result[0]` of a reply document gives: its text, or
/// why there is none.
pub open spec fn result_text(doc: JsonTree) -> Result<Seq<char>, DecodeFailure> {
    match result_slot(doc) {
        None => Err(DecodeFailure::ResultMissing),
        Some(JsonTree::Str(s)) => Ok(s),
        Some(_) => Err(DecodeFailure::ResultNotString),
    }
}

/// Whether an inner result document reports success.
pub open spec fn reports_success(result: JsonTree) -> bool {
    member_of(result, "success"@) == Some(JsonTree::Str("ok"@))
}

/// How a reply body is read.
pub open spec fn verdict_of(body: Seq<char>) -> Verdict {
    match parsed_json(body) {
        None => Verdict::Undecodable(DecodeFailure::BodyNotJson),
        Some(doc) => match result_text(doc) {
            Err(f) => Verdict::Undecodable(f),
            Ok(text) => match parsed_json(text) {
                None => Verdict::Undecodable(DecodeFailure::ResultNotJson),
                Some(result) => if reports_success(result) {
                    Verdict::Delivered
                } else {
                    Verdict::Rejected
                },
            },
        },
    }
}

/// Whether `r` is what reading the reply `body` owes: success, the rejection
/// with the body attached, or the decoding failure.
pub open spec fn answers(r: Result<(), PushError>, body: Seq<char>) -> bool {
    match r {
        Ok(()) => verdict_of(body) == Verdict::Delivered,
        Err(PushError::Rejected(payload)) => {
            verdict_of(body) == Verdict::Rejected && payload@ == body
        },
        Err(PushError::Decode(f)) => verdict_of(body) == Verdict::Undecodable(f),
        Err(PushError::Transport(_)) => false,
    }
}

/// Reads the string at `content.result[0]` of a parsed reply.
pub fn result_entry(doc: &serde_json::Value) -> (r: Result<&str, DecodeFailure>)
    ensures
        match r {
            Ok(s) => result_text(json_tree(*doc)) == Ok::<Seq<char>, DecodeFailure>(s@),
            Err(f) => result_text(json_tree(*doc)) == Err::<Seq<char>, DecodeFailure>(f),
        },
{
    let content = match member(doc, "content") {
        Some(c) => c,
        None => return Err(DecodeFailure::ResultMissing),
    };
    let results = match member(content, "result") {
        Some(r) => r,
        None => return Err(DecodeFailure::ResultMissing),
    };
    let items = match results.as_array() {
        Some(a) => a,
        None => return Err(DecodeFailure::ResultMissing),
    };
    if items.len() == 0 {
        return Err(DecodeFailure::ResultMissing);
    }
    match items[0].as_str() {
        Some(s) => Ok(s),
        None => Err(DecodeFailure::ResultNotString),
    }
}

/// Whether a parsed inner result reports success.
pub fn is_success(result: &serde_json::Value) -> (r: bool)
    ensures
        r == reports_success(json_tree(*result)),
{
    proof {
        reveal_strlit("ok");
    }
    match member(result, "success") {
        Some(v) => match v.as_str() {
            Some(s) => s.to_owned() == "ok".to_owned(),
            None => false,
        },
        None => false,
    }
}

/// Reads the service's reply body: `Ok` when the push went through, else the
/// rejection (with the body) or why the reply could not be read.
pub fn read_reply(body: &str) -> (r: Result<(), PushError>)
    ensures
        answers(r, body@),
{
    let doc = match parse_json(body) {
        Ok(v) => v,
        Err(_) => return Err(PushError::Decode(DecodeFailure::BodyNotJson)),
    };
    let text = match result_entry(&doc) {
        Ok(s) => s,
        Err(f) => return Err(PushError::Decode(f)),
    };
    let result = match parse_json(text) {
        Ok(v) => v,
        Err(_) => return Err(PushError::Decode(DecodeFailure::ResultNotJson)),
    };
    if is_success(&result) {
        Ok(())
    } else {
        Err(PushError::Rejected(body.to_owned()))
    }
}

} // verus!
