//! The policy decision client: reading the policy engine's decision document.
use vstd::prelude::*;
use vstd::string::StringExecFns;

verus! {

/// Policy bundle that attestation evidence is evaluated against.
pub const ATTESTATION_POLICY: &'static str = "attestation.rego";

/// Whether serde_json reads a text as a JSON document.
pub uninterp spec fn json_parses(text: Seq<char>) -> bool;

/// The boolean `allow` member of a JSON document, if it has one.
pub uninterp spec fn allow_member_of(text: Seq<char>) -> Option<bool>;

/// The text `parseInfo` member of a JSON document, if it has one.
pub uninterp spec fn info_member_of(text: Seq<char>) -> Option<Seq<char>>;

/// Relies on serde_json::from_str into a `Value`, then `Value::get` with
/// `Value::as_bool` for the `allow` member and with `Value::as_str` for the
/// `parseInfo` member: whether the text parses, and what those members
/// hold, depend on the text alone.
#[verifier::external_body]
fn read_members(text: &str) -> (r: Option<(Option<bool>, Option<String>)>)
    ensures
        r is Some <==> json_parses(text@),
        r matches Some(p) ==> (p.0 == allow_member_of(text@) && match p.1 {
            Some(s) => info_member_of(text@) == Some(s@),
            None => info_member_of(text@) is None,
        }),
{
    let v: serde_json::Value = serde_json::from_str(text).ok()?;
    let allow = v.get("allow").and_then(serde_json::Value::as_bool);
    let info = v.get("parseInfo").and_then(serde_json::Value::as_str).map(str::to_string);
    Some((allow, info))
}

/// The policy engine's verdict.
#[derive(Clone, Debug)]
pub struct Decision {
    pub allow: bool,
    pub diagnostic: String,
}

/// Why no decision could be obtained.
#[derive(Clone, Debug)]
pub enum ClientError {
    /// The response lacks a boolean `allow` member, or is no JSON document.
    MalformedResponse,
    /// The policy engine failed; its message.
    EngineFailure(String),
}

/// The diagnostic carried by a decision: the `parseInfo` text, empty when absent.
pub open spec fn info_text(info: Option<&str>) -> Seq<char> {
    match info {
        Some(s) => s@,
        None => Seq::empty(),
    }
}

/// The diagnostic of a decision read from a document's `parseInfo` member.
pub open spec fn member_text(info: Option<Seq<char>>) -> Seq<char> {
    match info {
        Some(s) => s,
        None => Seq::empty(),
    }
}

/// Builds the decision from the members read out of the response: a boolean
/// `allow` is required; the diagnostic is the `parseInfo` text.
pub fn decision_from_fields(allow: Option<bool>, info: Option<&str>) -> (r: Result<Decision, ClientError>)
    ensures
        allow is None <==> r matches Err(ClientError::MalformedResponse),
        r is Err ==> allow is None,
        allow matches Some(b) ==> (r matches Ok(d) && d.allow == b && d.diagnostic@ == info_text(info)),
{
    match allow {
        None => Err(ClientError::MalformedResponse),
        Some(b) => {
            let diagnostic = match info {
                Some(s) => s.to_owned(),
                None => String::new(),
            };
            Ok(Decision { allow: b, diagnostic })
        },
    }
}

/// Reads the policy engine's reply: its failure message, or the decision
/// document text. A document that does not parse is malformed.
pub fn decide(reply: &Result<String, String>) -> (r: Result<Decision, ClientError>)
    ensures
        reply matches Err(m) ==> (r matches Err(ClientError::EngineFailure(e)) && e@ == m@),
        reply matches Ok(t) ==> !(r matches Err(ClientError::EngineFailure(_))),
        (reply matches Ok(t) && !json_parses(t@)) ==> r matches Err(ClientError::MalformedResponse),
        r is Ok ==> (reply matches Ok(t) && json_parses(t@)),
        reply matches Ok(t) ==> (json_parses(t@) ==> (allow_member_of(t@) is None <==> r matches Err(
            ClientError::MalformedResponse,
        ))),
        reply matches Ok(t) ==> (json_parses(t@) ==> (allow_member_of(t@) matches Some(b) ==> (
        r matches Ok(d) && d.allow == b && d.diagnostic@ == member_text(info_member_of(t@))))),
{
    match reply {
        Err(m) => Err(ClientError::EngineFailure(m.clone())),
        Ok(t) => match read_members(t.as_str()) {
            None => Err(ClientError::MalformedResponse),
            Some((allow, info)) => match info {
                Some(s) => decision_from_fields(allow, Some(s.as_str())),
                None => decision_from_fields(allow, None),
            },
        },
    }
}

} // verus!
