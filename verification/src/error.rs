//! The closed set of failures a client run can report, and how each one is
//! classified: the phase it belongs to, whether a retry may help, and whether
//! it condemns the whole connection or only one stream.

use vstd::prelude::*;

verus! {

/// Why a QUIC/TLS handshake did not produce an established connection.
#[derive(Clone, Copy, Debug, PartialEq, Eq, Structural)]
pub enum HandshakeFailure {
    /// The peer did not answer within the allowed time.
    Timeout,
    /// The TLS exchange failed, for instance because the certificate was rejected.
    Tls,
    /// The peer speaks no QUIC version this client offers.
    VersionMismatch,
    /// The connection was closed, by either side, before it was established.
    Closed,
}

/// What interrupted a stream.
#[derive(Clone, Copy, Debug, PartialEq, Eq, Structural)]
pub enum StreamFault {
    /// The peer reset this one stream.
    Reset,
    /// The connection under the stream went away.
    ConnectionClosed,
}

/// The part of a run in which a failure arose.
#[derive(Clone, Copy, Debug, PartialEq, Eq, Structural)]
pub enum Phase {
    /// Loading trust anchors and building the TLS settings.
    Setup,
    /// Checking the target URI.
    Target,
    /// Resolving the host name.
    Resolution,
    /// The QUIC and TLS handshake.
    Handshake,
    /// The HTTP/3 session setup.
    Session,
    /// One request/response exchange.
    Exchange,
    /// The caller used the library out of order.
    Usage,
}

/// Every failure the client reports.
#[derive(Clone, Copy, Debug, PartialEq, Eq, Structural)]
pub enum ClientError {
    /// The certificate bundle could not be read.
    CertificateReadError,
    /// Entry `entry` of the bundle is not well-formed PEM.
    CertificateParseError { entry: usize },
    /// Entry `entry` of the bundle decoded, but is no usable trust anchor.
    CertificateTrustError { entry: usize },
    /// A TLS configuration could not be built.
    TlsConfigError,
    /// The target is not an `https` URI that names a host.
    SchemeError,
    /// The host resolved to no address.
    ResolutionError,
    /// The handshake failed; the payload tells transient from fatal.
    HandshakeError(HandshakeFailure),
    /// The peer did not complete the HTTP/3 setup in time.
    SessionSetupError,
    /// The stream or connection failed before response headers arrived.
    ResponseError(StreamFault),
    /// The stream or connection failed while the response body was read.
    StreamIOError(StreamFault),
    /// The connection driver failed on its own.
    ConnectionLost,
    /// A stream was asked of a connection that is not established.
    ConnectionNotReady,
    /// An operation came before one that must precede it.
    OrderingViolation,
    /// The caller cancelled the run.
    Cancelled,
}

impl ClientError {
    /// The phase a failure belongs to.
    pub open spec fn spec_phase(self) -> Phase {
        match self {
            ClientError::CertificateReadError
            | ClientError::CertificateParseError { .. }
            | ClientError::CertificateTrustError { .. }
            | ClientError::TlsConfigError => Phase::Setup,
            ClientError::SchemeError => Phase::Target,
            ClientError::ResolutionError => Phase::Resolution,
            ClientError::HandshakeError(_) => Phase::Handshake,
            ClientError::SessionSetupError => Phase::Session,
            ClientError::ResponseError(_)
            | ClientError::StreamIOError(_)
            | ClientError::ConnectionLost => Phase::Exchange,
            ClientError::ConnectionNotReady
            | ClientError::OrderingViolation
            | ClientError::Cancelled => Phase::Usage,
        }
    }

    /// A failure is retryable when it is transient, so that trying again may
    /// succeed: a failed resolution, a handshake that timed out, or a fault
    /// while a response body was read.
    pub open spec fn spec_is_retryable(self) -> bool {
        self == ClientError::ResolutionError || self == ClientError::HandshakeError(
            HandshakeFailure::Timeout,
        ) || self is StreamIOError
    }

    /// A failure is connection-level when it invalidates every stream of the
    /// connection, not just the one that observed it.
    pub open spec fn spec_is_connection_level(self) -> bool {
        match self {
            ClientError::HandshakeError(_)
            | ClientError::SessionSetupError
            | ClientError::ConnectionLost => true,
            ClientError::ResponseError(fault) | ClientError::StreamIOError(fault) => fault
                == StreamFault::ConnectionClosed,
            _ => false,
        }
    }

    /// A failure aborts the run when it arises before any exchange can start.
    pub open spec fn spec_aborts_run(self) -> bool {
        match self.spec_phase() {
            Phase::Setup | Phase::Target | Phase::Resolution | Phase::Handshake | Phase::Session => true,
            _ => false,
        }
    }

    #[verifier::when_used_as_spec(spec_phase)]
    pub fn phase(self) -> (p: Phase)
        ensures
            p == self.spec_phase(),
    {
        match self {
            ClientError::CertificateReadError => Phase::Setup,
            ClientError::CertificateParseError { .. } => Phase::Setup,
            ClientError::CertificateTrustError { .. } => Phase::Setup,
            ClientError::TlsConfigError => Phase::Setup,
            ClientError::SchemeError => Phase::Target,
            ClientError::ResolutionError => Phase::Resolution,
            ClientError::HandshakeError(_) => Phase::Handshake,
            ClientError::SessionSetupError => Phase::Session,
            ClientError::ResponseError(_) => Phase::Exchange,
            ClientError::StreamIOError(_) => Phase::Exchange,
            ClientError::ConnectionLost => Phase::Exchange,
            ClientError::ConnectionNotReady => Phase::Usage,
            ClientError::OrderingViolation => Phase::Usage,
            ClientError::Cancelled => Phase::Usage,
        }
    }

    #[verifier::when_used_as_spec(spec_is_retryable)]
    pub fn is_retryable(self) -> (b: bool)
        ensures
            b == self.spec_is_retryable(),
    {
        match self {
            ClientError::ResolutionError => true,
            ClientError::HandshakeError(HandshakeFailure::Timeout) => true,
            ClientError::StreamIOError(_) => true,
            _ => false,
        }
    }

    #[verifier::when_used_as_spec(spec_is_connection_level)]
    pub fn is_connection_level(self) -> (b: bool)
        ensures
            b == self.spec_is_connection_level(),
    {
        match self {
            ClientError::HandshakeError(_) => true,
            ClientError::SessionSetupError => true,
            ClientError::ConnectionLost => true,
            ClientError::ResponseError(StreamFault::ConnectionClosed) => true,
            ClientError::StreamIOError(StreamFault::ConnectionClosed) => true,
            _ => false,
        }
    }

    #[verifier::when_used_as_spec(spec_aborts_run)]
    pub fn aborts_run(self) -> (b: bool)
        ensures
            b == self.spec_aborts_run(),
    {
        match self.phase() {
            Phase::Setup => true,
            Phase::Target => true,
            Phase::Resolution => true,
            Phase::Handshake => true,
            Phase::Session => true,
            Phase::Exchange => false,
            Phase::Usage => false,
        }
    }
}

/// A failure of setup, of the target or of usage is never retryable: it needs
/// a change of input, not another attempt. Nor is a handshake that failed for
/// another reason than time.
pub proof fn law_fatal_failures(e: ClientError)
    requires
        e.phase() == Phase::Setup || e.phase() == Phase::Target || e.phase() == Phase::Usage || (e
            is HandshakeError && e != ClientError::HandshakeError(HandshakeFailure::Timeout)),
    ensures
        !e.is_retryable(),
{
}

/// Every failure before the first exchange aborts the run, and no later one
/// does.
pub proof fn law_aborting_phases(e: ClientError)
    ensures
        e.aborts_run() <==> e.phase() != Phase::Exchange && e.phase() != Phase::Usage,
{
}

/// A failure of an exchange never aborts the run, and it condemns the
/// connection only where the connection itself was lost or closed; a reset of
/// the one stream does not.
pub proof fn law_exchange_failures(e: ClientError)
    requires
        e.phase() == Phase::Exchange,
    ensures
        !e.aborts_run(),
        e.is_connection_level() <==> e == ClientError::ConnectionLost || e
            == ClientError::ResponseError(StreamFault::ConnectionClosed) || e
            == ClientError::StreamIOError(StreamFault::ConnectionClosed),
{
}

} // verus!
