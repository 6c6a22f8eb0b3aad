//! Attestation evidence and its encoding into a fact document for the policy engine.
use vstd::prelude::*;
use vstd::string::StringExecFns;

verus! {

/// Length in bytes of a platform measurement.
pub const MEASUREMENT_LEN: usize = 32;

/// The fields of a hardware quote that the policy reads.
#[derive(Clone, Copy, Debug)]
pub struct SgxQuote {
    pub mr_enclave: [u8; 32],
    pub mr_signer: [u8; 32],
    pub product_id: u32,
    pub security_version: u32,
}

/// Evidence handed over by the negotiation layer, one case per kind; the
/// kinds this library does not handle keep their type code.
#[derive(Clone, Copy, Debug)]
pub enum Evidence {
    SgxEcdsa(SgxQuote),
    Unsupported(u32),
}

/// The evidence fields in the form the policy engine reads, measurements as text.
#[derive(Clone, Debug)]
pub struct FactDocument {
    pub mr_enclave: String,
    pub mr_signer: String,
    pub product_id: u32,
    pub svn: u32,
}

/// Standard padded base64 text of a byte sequence.
pub uninterp spec fn base64_of(b: Seq<u8>) -> Seq<char>;

/// The JSON string literal (quoted and escaped) of a text.
pub uninterp spec fn json_string_of(s: Seq<char>) -> Seq<char>;

/// The character of a decimal digit.
pub open spec fn digit_char(d: nat) -> char {
    if d == 0 { '0' }
    else if d == 1 { '1' }
    else if d == 2 { '2' }
    else if d == 3 { '3' }
    else if d == 4 { '4' }
    else if d == 5 { '5' }
    else if d == 6 { '6' }
    else if d == 7 { '7' }
    else if d == 8 { '8' }
    else { '9' }
}

/// Decimal digits of a number, without sign or leading zeros.
pub open spec fn decimal(n: nat) -> Seq<char>
    decreases n,
{
    if n < 10 {
        seq![digit_char(n)]
    } else {
        decimal(n / 10) + seq![digit_char(n % 10)]
    }
}

/// Relies on base64::encode with the standard padded alphabet: the text
/// depends on the bytes alone, and base64::decode gives those bytes back
/// from it, so no other byte sequence has the same text.
#[verifier::external_body]
fn base64_encode(b: &[u8; 32]) -> (r: String)
    ensures
        r@ == base64_of(b@),
        forall|c: Seq<u8>| #[trigger] base64_of(c) == r@ ==> c == b@,
{
    base64::encode(b)
}

/// Relies on serde_json's rendering of a `Value::String`: the quoted,
/// escaped literal, which depends on the text alone.
#[verifier::external_body]
fn json_string(s: &str) -> (r: String)
    ensures
        r@ == json_string_of(s@),
{
    serde_json::Value::String(s.to_string()).to_string()
}

/// The text of one decimal digit.
fn digit_text(d: u32) -> (r: &'static str)
    requires
        d < 10,
    ensures
        r@ == seq![digit_char(d as nat)],
{
    proof {
        reveal_strlit("0");
        reveal_strlit("1");
        reveal_strlit("2");
        reveal_strlit("3");
        reveal_strlit("4");
        reveal_strlit("5");
        reveal_strlit("6");
        reveal_strlit("7");
        reveal_strlit("8");
        reveal_strlit("9");
    }
    if d == 0 { "0" }
    else if d == 1 { "1" }
    else if d == 2 { "2" }
    else if d == 3 { "3" }
    else if d == 4 { "4" }
    else if d == 5 { "5" }
    else if d == 6 { "6" }
    else if d == 7 { "7" }
    else if d == 8 { "8" }
    else { "9" }
}

/// Decimal text of a number, as JSON writes an integer.
pub fn decimal_text(n: u32) -> (r: String)
    ensures
        r@ == decimal(n as nat),
    decreases n,
{
    if n < 10 {
        let mut s = String::new();
        s.append(digit_text(n));
        s
    } else {
        let mut s = decimal_text(n / 10);
        s.append(digit_text(n % 10));
        s
    }
}

/// Encodes a measurement as base64 text. The text is a function of the
/// bytes, and distinct measurements never share a text.
pub fn encode_measurement(m: &[u8; 32]) -> (r: String)
    ensures
        r@ == base64_of(m@),
        forall|c: Seq<u8>| #[trigger] base64_of(c) == r@ ==> c == m@,
{
    base64_encode(m)
}

impl FactDocument {
    /// The JSON object text sent to the policy engine.
    pub open spec fn spec_text(&self) -> Seq<char> {
        fact_text(self.mr_enclave@, self.mr_signer@, self.product_id as nat, self.svn as nat)
    }
}

/// The fact document's JSON object, keys in order.
pub open spec fn fact_text(mr_enclave: Seq<char>, mr_signer: Seq<char>, product_id: nat, svn: nat) -> Seq<char> {
    "{\"mrEnclave\":"@ + json_string_of(mr_enclave) + ",\"mrSigner\":"@ + json_string_of(mr_signer)
        + ",\"productId\":"@ + decimal(product_id) + ",\"svn\":"@ + decimal(svn) + "}"@
}

/// The fact document of a quote: both measurements encoded, the product id
/// and security version copied.
pub fn to_fact_document(q: &SgxQuote) -> (d: FactDocument)
    ensures
        d.mr_enclave@ == base64_of(q.mr_enclave@),
        d.mr_signer@ == base64_of(q.mr_signer@),
        d.product_id == q.product_id,
        d.svn == q.security_version,
{
    FactDocument {
        mr_enclave: encode_measurement(&q.mr_enclave),
        mr_signer: encode_measurement(&q.mr_signer),
        product_id: q.product_id,
        svn: q.security_version,
    }
}

/// Serialises a fact document to the JSON text the policy engine reads.
pub fn fact_json(d: &FactDocument) -> (r: String)
    ensures
        r@ == d.spec_text(),
{
    let mut out = String::new();
    out.append("{\"mrEnclave\":");
    out.append(json_string(d.mr_enclave.as_str()).as_str());
    out.append(",\"mrSigner\":");
    out.append(json_string(d.mr_signer.as_str()).as_str());
    out.append(",\"productId\":");
    out.append(decimal_text(d.product_id).as_str());
    out.append(",\"svn\":");
    out.append(decimal_text(d.svn).as_str());
    out.append("}");
    out
}

} // verus!
