//! The verification callback: from evidence to a policy request, and from the
//! policy decision to an accept or reject signal.
use vstd::prelude::*;
use vstd::string::StringExecFns;
use crate::evidence::{Evidence, SgxQuote, base64_of, decimal, decimal_text, fact_json, fact_text, to_fact_document};
use crate::policy::{ClientError, Decision};

verus! {

/// A fact document to be evaluated under a named policy bundle.
#[derive(Clone, Debug)]
pub struct PolicyRequest {
    pub policy_id: String,
    pub facts: String,
}

/// The callback's answer to the negotiation layer, with the reason when it rejects.
#[derive(Clone, Debug)]
pub struct Verdict {
    pub accept: bool,
    pub diagnostic: String,
}

/// What the callback does next: consult the policy engine, or answer at once.
#[derive(Clone, Debug)]
pub enum CallbackStep {
    Consult(PolicyRequest),
    Done(Verdict),
}

/// The fact document text of a quote.
pub open spec fn quote_facts(q: SgxQuote) -> Seq<char> {
    fact_text(
        base64_of(q.mr_enclave@),
        base64_of(q.mr_signer@),
        q.product_id as nat,
        q.security_version as nat,
    )
}

/// The diagnostic for evidence of a kind that is not handled.
pub open spec fn unsupported_text(kind: u32) -> Seq<char> {
    "unsupported evidence type "@ + decimal(kind as nat)
}

/// Whether a decision lets the handshake go on.
pub open spec fn accepts(decision: Result<Decision, ClientError>) -> bool {
    decision matches Ok(d) && d.allow
}

/// The diagnostic recorded for a decision.
pub open spec fn verdict_text(decision: Result<Decision, ClientError>) -> Seq<char> {
    match decision {
        Ok(d) => if d.allow {
            "decision is true"@
        } else {
            "decision is false; parseInfo: "@ + d.diagnostic@
        },
        Err(ClientError::MalformedResponse) => "malformed decision document"@,
        Err(ClientError::EngineFailure(m)) => "make_decision error: "@ + m@,
    }
}

/// Decides on evidence for the negotiation layer, against one policy bundle.
#[derive(Clone, Debug)]
pub struct EvidenceVerifier {
    pub policy_id: String,
}

impl EvidenceVerifier {
    /// A verifier that consults the given policy bundle.
    pub fn new(policy_id: &str) -> (r: EvidenceVerifier)
        ensures
            r.policy_id@ == policy_id@,
    {
        EvidenceVerifier { policy_id: policy_id.to_owned() }
    }

    /// First step on evidence: a hardware quote becomes a request to the
    /// policy engine; any other kind is rejected without consulting it.
    pub fn on_evidence(&self, evidence: &Evidence) -> (r: CallbackStep)
        ensures
            *evidence matches Evidence::SgxEcdsa(q) ==> (r matches CallbackStep::Consult(req)
                && req.policy_id@ == self.policy_id@ && req.facts@ == quote_facts(q)),
            *evidence matches Evidence::Unsupported(k) ==> (r matches CallbackStep::Done(v)
                && !v.accept && v.diagnostic@ == unsupported_text(k)),
    {
        match evidence {
            Evidence::SgxEcdsa(q) => {
                let doc = to_fact_document(q);
                let facts = fact_json(&doc);
                CallbackStep::Consult(PolicyRequest { policy_id: self.policy_id.clone(), facts })
            },
            Evidence::Unsupported(k) => {
                let mut diagnostic = String::new();
                diagnostic.append("unsupported evidence type ");
                diagnostic.append(decimal_text(*k).as_str());
                CallbackStep::Done(Verdict { accept: false, diagnostic })
            },
        }
    }

    /// Last step: reduces the policy decision to accept or reject. Only an
    /// explicit `allow: true` accepts; every failure rejects.
    pub fn conclude(&self, decision: &Result<Decision, ClientError>) -> (v: Verdict)
        ensures
            v.accept == accepts(*decision),
            v.diagnostic@ == verdict_text(*decision),
            !v.accept ==> v.diagnostic@.len() > 0,
    {
        let mut diagnostic = String::new();
        let accept = match decision {
            Ok(d) => {
                if d.allow {
                    diagnostic.append("decision is true");
                } else {
                    diagnostic.append("decision is false; parseInfo: ");
                    diagnostic.append(d.diagnostic.as_str());
                }
                d.allow
            },
            Err(ClientError::MalformedResponse) => {
                diagnostic.append("malformed decision document");
                false
            },
            Err(ClientError::EngineFailure(m)) => {
                diagnostic.append("make_decision error: ");
                diagnostic.append(m.as_str());
                false
            },
        };
        proof {
            reveal_strlit("decision is false; parseInfo: ");
            reveal_strlit("malformed decision document");
            reveal_strlit("make_decision error: ");
        }
        Verdict { accept, diagnostic }
    }
}

} // verus!
