//! The channel session: the lifecycle of one negotiation context, driven by
//! the statuses the negotiation layer reports.
use vstd::prelude::*;
use crate::config::{
    API_VERSION_DEFAULT, CERT_ALGO_DEFAULT, LOG_LEVEL_DEBUG, ChannelConfig, ConfigError, Role,
    first_overlong, name_view,
};
use crate::callback::Verdict;

verus! {

/// Status the negotiation layer reports on success.
pub const STATUS_OK: i32 = 0;

/// Where a session stands.
#[derive(Clone, Copy, Debug, PartialEq, Eq, Structural)]
pub enum SessionState {
    /// Context allocated, verification callback registered.
    Created,
    /// Handshake in progress.
    Negotiating,
    /// Handshake succeeded after an accept decision.
    Established,
    /// Handshake aborted or failed.
    Rejected,
    /// Context released; absorbing.
    Closed,
}

/// Why a session operation failed.
#[derive(Clone, Copy, Debug, PartialEq, Eq, Structural)]
pub enum SessionError {
    /// A non-success status of the negotiation layer, passed on as it came.
    Native(i32),
    /// The session was closed before this operation.
    UseAfterClose,
    /// Data transfer was asked for before the channel was established.
    NotEstablished,
    /// The handshake reported success, but the peer's evidence was never accepted.
    Unattested,
}

/// One attestation-gated channel: its configuration and lifecycle state.
pub struct EnclaveTls {
    pub config: ChannelConfig,
    pub state: SessionState,
    /// Whether the callback accepted evidence during the current handshake.
    pub accepted: bool,
    /// Whether the callback rejected evidence during the current handshake.
    pub refused: bool,
}

/// Whether the peer must present evidence: a client always checks the
/// server, a server checks the client only under mutual attestation.
pub open spec fn evidence_required(config: ChannelConfig) -> bool {
    config.role == Role::Client || config.mutual
}

/// The state a handshake ends in, from the verdicts seen and the final status.
pub open spec fn negotiation_outcome(required: bool, accepted: bool, refused: bool, status: i32) -> SessionState {
    if status == STATUS_OK && (accepted || !required) && !refused {
        SessionState::Established
    } else {
        SessionState::Rejected
    }
}

/// The result reported for a handshake.
pub open spec fn negotiation_result(required: bool, accepted: bool, refused: bool, status: i32) -> Result<(), SessionError> {
    if status != STATUS_OK {
        Err(SessionError::Native(status))
    } else if (accepted || !required) && !refused {
        Ok(())
    } else {
        Err(SessionError::Unattested)
    }
}

/// Whether data may cross a session in a state, and the error otherwise.
pub open spec fn io_check(state: SessionState) -> Result<(), SessionError> {
    match state {
        SessionState::Established => Ok(()),
        SessionState::Closed => Err(SessionError::UseAfterClose),
        _ => Err(SessionError::NotEstablished),
    }
}

/// The result of a transfer: the count on success, within the buffer.
pub open spec fn transfer_result(state: SessionState, status: i32, count: usize, capacity: usize) -> Result<usize, SessionError> {
    match io_check(state) {
        Err(e) => Err(e),
        Ok(_) => if status != STATUS_OK {
            Err(SessionError::Native(status))
        } else if count <= capacity {
            Ok(count)
        } else {
            Ok(capacity)
        },
    }
}

impl EnclaveTls {
    /// A well-formed session has a valid configuration.
    pub open spec fn wf(&self) -> bool {
        self.config.wf()
    }

    /// Opens a session on a configuration built from the parameters.
    pub fn new(
        server: bool,
        enclave_id: u64,
        tls_type: &Option<String>,
        crypto: &Option<String>,
        attester: &Option<String>,
        verifier: &Option<String>,
        mutual: bool,
    ) -> (r: Result<EnclaveTls, ConfigError>)
        ensures
            first_overlong(*tls_type, *crypto, *attester, *verifier) is Some <==> r is Err,
            r matches Err(ConfigError::NameTooLong(f)) ==> Some(f) == first_overlong(
                *tls_type,
                *crypto,
                *attester,
                *verifier,
            ),
            r matches Ok(s) ==> {
                &&& s.wf()
                &&& s.state == SessionState::Created
                &&& !s.accepted && !s.refused
                &&& s.config.role == (if server { Role::Server } else { Role::Client })
                &&& s.config.api_version == API_VERSION_DEFAULT
                &&& s.config.log_level == LOG_LEVEL_DEBUG
                &&& s.config.cert_algo == CERT_ALGO_DEFAULT
                &&& s.config.enclave_id == enclave_id
                &&& s.config.mutual == mutual
                &&& name_view(s.config.tls_type) == name_view(*tls_type)
                &&& name_view(s.config.crypto_type) == name_view(*crypto)
                &&& name_view(s.config.attester_type) == name_view(*attester)
                &&& name_view(s.config.verifier_type) == name_view(*verifier)
            },
    {
        let role = if server { Role::Server } else { Role::Client };
        match ChannelConfig::build(role, tls_type, crypto, attester, verifier, enclave_id, mutual) {
            Err(e) => Err(e),
            Ok(config) => Ok(EnclaveTls { config, state: SessionState::Created, accepted: false, refused: false }),
        }
    }

    /// Starts a handshake: the session negotiates, with no verdict seen yet.
    /// A closed session refuses.
    pub fn negotiate(&mut self) -> (r: Result<(), SessionError>)
        ensures
            old(self).state == SessionState::Closed ==> r == Err::<(), SessionError>(SessionError::UseAfterClose)
                && *final(self) == *old(self),
            old(self).state != SessionState::Closed ==> r is Ok && final(self).state == SessionState::Negotiating
                && !final(self).accepted && !final(self).refused
                && final(self).config == old(self).config,
    {
        if self.state == SessionState::Closed {
            return Err(SessionError::UseAfterClose);
        }
        self.state = SessionState::Negotiating;
        self.accepted = false;
        self.refused = false;
        Ok(())
    }

    /// Records the callback's verdict during a handshake and hands back the
    /// signal for the negotiation layer: nonzero exactly when it accepts.
    pub fn record_verdict(&mut self, v: &Verdict) -> (signal: i32)
        ensures
            signal == (if v.accept { 1i32 } else { 0i32 }),
            final(self).state == old(self).state,
            final(self).config == old(self).config,
            final(self).accepted == (old(self).accepted || v.accept),
            final(self).refused == (old(self).refused || !v.accept),
    {
        if v.accept {
            self.accepted = true;
            1
        } else {
            self.refused = true;
            0
        }
    }

    /// Ends a handshake with the negotiation layer's status. The session is
    /// established only on success with no reject, and after an accept where
    /// the peer must present evidence.
    pub fn finish_negotiation(&mut self, status: i32) -> (r: Result<(), SessionError>)
        requires
            old(self).state == SessionState::Negotiating,
        ensures
            final(self).state == negotiation_outcome(
                evidence_required(old(self).config),
                old(self).accepted,
                old(self).refused,
                status,
            ),
            r == negotiation_result(
                evidence_required(old(self).config),
                old(self).accepted,
                old(self).refused,
                status,
            ),
            final(self).config == old(self).config,
            final(self).accepted == old(self).accepted,
            final(self).refused == old(self).refused,
    {
        if status != STATUS_OK {
            self.state = SessionState::Rejected;
            Err(SessionError::Native(status))
        } else if (self.accepted || !self.evidence_required()) && !self.refused {
            self.state = SessionState::Established;
            Ok(())
        } else {
            self.state = SessionState::Rejected;
            Err(SessionError::Unattested)
        }
    }

    /// Whether data may cross the session now; checked before the negotiation
    /// layer is called.
    pub fn ready(&self) -> (r: Result<(), SessionError>)
        ensures
            r == io_check(self.state),
    {
        match self.state {
            SessionState::Established => Ok(()),
            SessionState::Closed => Err(SessionError::UseAfterClose),
            _ => Err(SessionError::NotEstablished),
        }
    }

    /// The result of a receive into a buffer of `capacity` bytes, from the
    /// status and count the negotiation layer reported.
    pub fn receive(&self, status: i32, count: usize, capacity: usize) -> (r: Result<usize, SessionError>)
        ensures
            r == transfer_result(self.state, status, count, capacity),
            r matches Ok(n) ==> n <= capacity,
    {
        self.transfer(status, count, capacity)
    }

    /// The result of a transmit from a buffer of `capacity` bytes, from the
    /// status and count the negotiation layer reported.
    pub fn transmit(&self, status: i32, count: usize, capacity: usize) -> (r: Result<usize, SessionError>)
        ensures
            r == transfer_result(self.state, status, count, capacity),
            r matches Ok(n) ==> n <= capacity,
    {
        self.transfer(status, count, capacity)
    }

    fn transfer(&self, status: i32, count: usize, capacity: usize) -> (r: Result<usize, SessionError>)
        ensures
            r == transfer_result(self.state, status, count, capacity),
    {
        match self.ready() {
            Err(e) => Err(e),
            Ok(_) => if status != STATUS_OK {
                Err(SessionError::Native(status))
            } else if count <= capacity {
                Ok(count)
            } else {
                Ok(capacity)
            },
        }
    }

    /// Whether the peer must present evidence in a handshake of this session.
    pub fn evidence_required(&self) -> (r: bool)
        ensures
            r == evidence_required(self.config),
    {
        self.config.role == Role::Client || self.config.mutual
    }

    /// Closes the session. Returns whether the native context is to be
    /// released now: true on the first close only.
    pub fn close(&mut self) -> (release: bool)
        ensures
            release == (old(self).state != SessionState::Closed),
            final(self).state == SessionState::Closed,
            final(self).config == old(self).config,
    {
        if self.state == SessionState::Closed {
            false
        } else {
            self.state = SessionState::Closed;
            true
        }
    }

    /// The lifecycle state.
    pub fn state(&self) -> (r: SessionState)
        ensures
            r == self.state,
    {
        self.state
    }

    /// Whether the handshake has completed with an accepted attestation.
    pub fn is_established(&self) -> (r: bool)
        ensures
            r == (self.state == SessionState::Established),
    {
        self.state == SessionState::Established
    }
}

} // verus!
