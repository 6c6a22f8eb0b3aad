//! Building the negotiation configuration with capacity-checked selector names.
use vstd::prelude::*;

verus! {

/// Capacity, in bytes, of each selector name field of the native configuration.
pub const NAME_CAPACITY: usize = 32;

/// Baseline API version handed to the negotiation layer.
pub const API_VERSION_DEFAULT: u32 = 1;

/// Baseline logging verbosity (debug) handed to the negotiation layer.
pub const LOG_LEVEL_DEBUG: u32 = 0;

/// Default certificate algorithm.
pub const CERT_ALGO_DEFAULT: u32 = 0;

/// Configuration flag bit: both peers attest.
pub const FLAG_MUTUAL: u64 = 1;

/// Configuration flag bit: this endpoint is the server.
pub const FLAG_SERVER: u64 = 2;

/// Which side of the handshake this endpoint plays.
#[derive(Clone, Copy, Debug, PartialEq, Eq, Structural)]
pub enum Role {
    Server,
    Client,
}

/// The selector fields of a configuration, used to name an offending one.
#[derive(Clone, Copy, Debug, PartialEq, Eq, Structural)]
pub enum SelectorField {
    Tls,
    Crypto,
    Attester,
    Verifier,
}

/// An invalid configuration, caught before any native call.
#[derive(Clone, Copy, Debug, PartialEq, Eq, Structural)]
pub enum ConfigError {
    NameTooLong(SelectorField),
}

/// Number of bytes of the UTF-8 encoding of a name.
pub open spec fn byte_len(s: Seq<char>) -> nat {
    vstd::utf8::encode_utf8(s).len()
}

/// A selector name fits its field when absent or at most `NAME_CAPACITY` bytes long.
pub open spec fn name_fits(name: Option<String>) -> bool {
    match name {
        Some(s) => byte_len(s@) <= NAME_CAPACITY,
        None => true,
    }
}

/// The selector names as plain values.
pub open spec fn name_view(name: Option<String>) -> Option<Seq<char>> {
    match name {
        Some(s) => Some(s@),
        None => None,
    }
}

/// The first selector, in the order tls, crypto, attester, verifier, that does not fit.
pub open spec fn first_overlong(
    tls: Option<String>,
    crypto: Option<String>,
    attester: Option<String>,
    verifier: Option<String>,
) -> Option<SelectorField> {
    if !name_fits(tls) {
        Some(SelectorField::Tls)
    } else if !name_fits(crypto) {
        Some(SelectorField::Crypto)
    } else if !name_fits(attester) {
        Some(SelectorField::Attester)
    } else if !name_fits(verifier) {
        Some(SelectorField::Verifier)
    } else {
        None
    }
}

/// The parameters the negotiation layer is initialised with.
pub struct ChannelConfig {
    pub role: Role,
    pub tls_type: Option<String>,
    pub crypto_type: Option<String>,
    pub attester_type: Option<String>,
    pub verifier_type: Option<String>,
    pub api_version: u32,
    pub log_level: u32,
    pub cert_algo: u32,
    pub enclave_id: u64,
    pub mutual: bool,
}

impl ChannelConfig {
    /// Every selector fits its field.
    pub open spec fn wf(&self) -> bool {
        &&& name_fits(self.tls_type)
        &&& name_fits(self.crypto_type)
        &&& name_fits(self.attester_type)
        &&& name_fits(self.verifier_type)
    }

    /// The flag word of the native configuration.
    pub open spec fn spec_flags(&self) -> u64 {
        (if self.mutual { FLAG_MUTUAL } else { 0u64 }) | (if self.role == Role::Server {
            FLAG_SERVER
        } else {
            0u64
        })
    }

    /// Assembles a configuration; fails, naming the field, when a selector
    /// name is longer than its field.
    pub fn build(
        role: Role,
        tls_type: &Option<String>,
        crypto_type: &Option<String>,
        attester_type: &Option<String>,
        verifier_type: &Option<String>,
        enclave_id: u64,
        mutual: bool,
    ) -> (r: Result<ChannelConfig, ConfigError>)
        ensures
            first_overlong(*tls_type, *crypto_type, *attester_type, *verifier_type) is Some
                <==> r is Err,
            r matches Err(ConfigError::NameTooLong(f)) ==> Some(f) == first_overlong(
                *tls_type,
                *crypto_type,
                *attester_type,
                *verifier_type,
            ),
            r matches Ok(c) ==> {
                &&& c.wf()
                &&& c.role == role
                &&& name_view(c.tls_type) == name_view(*tls_type)
                &&& name_view(c.crypto_type) == name_view(*crypto_type)
                &&& name_view(c.attester_type) == name_view(*attester_type)
                &&& name_view(c.verifier_type) == name_view(*verifier_type)
                &&& c.api_version == API_VERSION_DEFAULT
                &&& c.log_level == LOG_LEVEL_DEBUG
                &&& c.cert_algo == CERT_ALGO_DEFAULT
                &&& c.enclave_id == enclave_id
                &&& c.mutual == mutual
            },
    {
        if !fits(tls_type) {
            return Err(ConfigError::NameTooLong(SelectorField::Tls));
        }
        if !fits(crypto_type) {
            return Err(ConfigError::NameTooLong(SelectorField::Crypto));
        }
        if !fits(attester_type) {
            return Err(ConfigError::NameTooLong(SelectorField::Attester));
        }
        if !fits(verifier_type) {
            return Err(ConfigError::NameTooLong(SelectorField::Verifier));
        }
        Ok(ChannelConfig {
            role,
            tls_type: copy_name(tls_type),
            crypto_type: copy_name(crypto_type),
            attester_type: copy_name(attester_type),
            verifier_type: copy_name(verifier_type),
            api_version: API_VERSION_DEFAULT,
            log_level: LOG_LEVEL_DEBUG,
            cert_algo: CERT_ALGO_DEFAULT,
            enclave_id,
            mutual,
        })
    }

    /// The flag word: the mutual bit when both peers attest, the server bit
    /// when this endpoint is the server.
    pub fn flags(&self) -> (r: u64)
        ensures
            r == self.spec_flags(),
    {
        let m: u64 = if self.mutual { FLAG_MUTUAL } else { 0 };
        let s: u64 = if self.role == Role::Server { FLAG_SERVER } else { 0 };
        m | s
    }
}

/// Whether a selector name fits its field.
fn fits(name: &Option<String>) -> (r: bool)
    ensures
        r == name_fits(*name),
{
    match name {
        Some(s) => s.as_str().as_bytes().len() <= NAME_CAPACITY,
        None => true,
    }
}

fn copy_name(name: &Option<String>) -> (r: Option<String>)
    ensures
        name_view(r) == name_view(*name),
        name_fits(r) == name_fits(*name),
{
    match name {
        Some(s) => Some(s.clone()),
        None => None,
    }
}

/// The fixed-size field holding a selector: the name's bytes, then zeros up
/// to `NAME_CAPACITY`.
pub open spec fn field_of(name: Option<Seq<char>>) -> Seq<u8> {
    match name {
        Some(s) => vstd::utf8::encode_utf8(s) + Seq::new(
            (NAME_CAPACITY - byte_len(s)) as nat,
            |i: int| 0u8,
        ),
        None => Seq::new(NAME_CAPACITY as nat, |i: int| 0u8),
    }
}

/// Lays a selector name out in its fixed-size native field; never truncates.
pub fn name_field(name: &Option<String>) -> (r: Vec<u8>)
    requires
        name_fits(*name),
    ensures
        r@ == field_of(name_view(*name)),
        r@.len() == NAME_CAPACITY,
{
    let mut out: Vec<u8> = Vec::new();
    match name {
        Some(s) => {
            let b = s.as_str().as_bytes();
            let mut i: usize = 0;
            while i < b.len()
                invariant
                    i <= b@.len(),
                    b@ == vstd::utf8::encode_utf8(s@),
                    out@ == b@.subrange(0, i as int),
                decreases b@.len() - i,
            {
                out.push(b[i]);
                i = i + 1;
            }
        },
        None => {},
    }
    let ghost pre = out@;
    let ghost used = out@.len();
    proof {
        match name {
            Some(s) => assert(pre =~= vstd::utf8::encode_utf8(s@)),
            None => assert(pre =~= Seq::<u8>::empty()),
        }
    }
    while out.len() < NAME_CAPACITY
        invariant
            used == pre.len(),
            used <= out@.len() <= NAME_CAPACITY,
            out@.subrange(0, used as int) == pre,
            forall|k: int| used <= k < out@.len() ==> out@[k] == 0u8,
        decreases NAME_CAPACITY - out@.len(),
    {
        out.push(0u8);
    }
    proof {
        match name {
            Some(s) => {
                assert(out@ =~= pre + out@.subrange(used as int, NAME_CAPACITY as int));
                assert(out@.subrange(used as int, NAME_CAPACITY as int) =~= Seq::new(
                    (NAME_CAPACITY - byte_len(s@)) as nat,
                    |i: int| 0u8,
                ));
            },
            None => {},
        }
        assert(out@ =~= field_of(name_view(*name)));
    }
    out
}

} // verus!
