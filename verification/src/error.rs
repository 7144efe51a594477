//! The error taxonomy of a session, and how platform status codes fall into it.

use vstd::prelude::*;

verus! {

/// Status the platform reports when the requested algorithms cannot be used.
pub const SEC_E_ALGORITHM_MISMATCH: i32 = -2146893007;

/// Status the platform reports when a requested protocol version is not available.
pub const SEC_E_UNSUPPORTED_FUNCTION: i32 = -2146893054;

/// Status the platform reports for a security context that has been shut down.
pub const SEC_E_CONTEXT_EXPIRED: i32 = -2146893033;

/// Status the platform reports when it cannot make sense of its own state.
pub const SEC_E_INTERNAL_ERROR: i32 = -2146893052;

/// Chain policy status: a certificate in the chain is outside its validity period.
pub const CERT_E_EXPIRED: i32 = -2146762495;

/// Chain policy status: the chain ends in a root that is not trusted.
pub const CERT_E_UNTRUSTEDROOT: i32 = -2146762487;

/// Chain policy status: the certificate's name does not match the expected host.
pub const CERT_E_CN_NO_MATCH: i32 = -2146762481;

/// What went wrong, by kind.
#[derive(Clone, Copy, Debug, PartialEq, Eq, Structural)]
pub enum ErrorKind {
    /// The requested algorithm set cannot be used.
    AlgorithmMismatch,
    /// A requested protocol version is disabled or unsupported.
    UnsupportedProtocolVersion,
    /// The operation needs more transport readiness; retry it later.
    Interrupted,
    /// The peer's certificate is outside its validity period.
    CertificateExpired,
    /// The peer's chain does not end in a trusted root.
    UntrustedRoot,
    /// The peer's certificate was issued for another name.
    HostnameMismatch,
    /// The underlying transport reported an error.
    TransportFailure,
    /// Any other failure status of the security engine, kept as reported.
    EngineFailure(i32),
}

impl ErrorKind {
    /// The kind a platform status code stands for.
    pub open spec fn spec_from_status(status: int) -> ErrorKind {
        if status == SEC_E_ALGORITHM_MISMATCH {
            ErrorKind::AlgorithmMismatch
        } else if status == SEC_E_UNSUPPORTED_FUNCTION {
            ErrorKind::UnsupportedProtocolVersion
        } else if status == CERT_E_EXPIRED {
            ErrorKind::CertificateExpired
        } else if status == CERT_E_UNTRUSTEDROOT {
            ErrorKind::UntrustedRoot
        } else if status == CERT_E_CN_NO_MATCH {
            ErrorKind::HostnameMismatch
        } else {
            ErrorKind::EngineFailure(status as i32)
        }
    }

    /// The platform status code of a kind, where it has one.
    pub open spec fn spec_raw_os_error(self) -> Option<i32> {
        match self {
            ErrorKind::AlgorithmMismatch => Some(SEC_E_ALGORITHM_MISMATCH),
            ErrorKind::UnsupportedProtocolVersion => Some(SEC_E_UNSUPPORTED_FUNCTION),
            ErrorKind::CertificateExpired => Some(CERT_E_EXPIRED),
            ErrorKind::UntrustedRoot => Some(CERT_E_UNTRUSTEDROOT),
            ErrorKind::HostnameMismatch => Some(CERT_E_CN_NO_MATCH),
            ErrorKind::EngineFailure(status) => Some(status),
            ErrorKind::Interrupted => None,
            ErrorKind::TransportFailure => None,
        }
    }

    /// Whether the condition is resumable: the caller retries the same
    /// operation once the transport is ready again.
    pub open spec fn spec_is_transient(self) -> bool {
        self == ErrorKind::Interrupted
    }

    /// Whether a session that failed this way is doomed whatever transport it
    /// is given: every failure but one of the transport itself.
    pub open spec fn spec_is_permanent(self) -> bool {
        self != ErrorKind::Interrupted && self != ErrorKind::TransportFailure
    }

    /// Whether this is one of the trust failures found after the
    /// cryptographic handshake succeeded.
    pub open spec fn spec_is_verification_failure(self) -> bool {
        self == ErrorKind::CertificateExpired || self == ErrorKind::UntrustedRoot || self
            == ErrorKind::HostnameMismatch
    }

    /// Classifies a status code reported by the platform.
    pub fn from_status(status: i32) -> (kind: ErrorKind)
        ensures
            kind == Self::spec_from_status(status as int),
    {
        if status == SEC_E_ALGORITHM_MISMATCH {
            ErrorKind::AlgorithmMismatch
        } else if status == SEC_E_UNSUPPORTED_FUNCTION {
            ErrorKind::UnsupportedProtocolVersion
        } else if status == CERT_E_EXPIRED {
            ErrorKind::CertificateExpired
        } else if status == CERT_E_UNTRUSTEDROOT {
            ErrorKind::UntrustedRoot
        } else if status == CERT_E_CN_NO_MATCH {
            ErrorKind::HostnameMismatch
        } else {
            ErrorKind::EngineFailure(status)
        }
    }

    /// The platform status code behind this kind; `None` for the two kinds
    /// that the transport produces.
    pub fn raw_os_error(&self) -> (code: Option<i32>)
        ensures
            code == self.spec_raw_os_error(),
    {
        match self {
            ErrorKind::AlgorithmMismatch => Some(SEC_E_ALGORITHM_MISMATCH),
            ErrorKind::UnsupportedProtocolVersion => Some(SEC_E_UNSUPPORTED_FUNCTION),
            ErrorKind::CertificateExpired => Some(CERT_E_EXPIRED),
            ErrorKind::UntrustedRoot => Some(CERT_E_UNTRUSTEDROOT),
            ErrorKind::HostnameMismatch => Some(CERT_E_CN_NO_MATCH),
            ErrorKind::EngineFailure(status) => Some(*status),
            ErrorKind::Interrupted => None,
            ErrorKind::TransportFailure => None,
        }
    }

    /// See [`ErrorKind::spec_is_transient`].
    pub fn is_transient(&self) -> (b: bool)
        ensures
            b == self.spec_is_transient(),
    {
        matches!(self, ErrorKind::Interrupted)
    }

    /// See [`ErrorKind::spec_is_permanent`].
    pub fn is_permanent(&self) -> (b: bool)
        ensures
            b == self.spec_is_permanent(),
    {
        match self {
            ErrorKind::Interrupted => false,
            ErrorKind::TransportFailure => false,
            _ => true,
        }
    }

    /// See [`ErrorKind::spec_is_verification_failure`].
    pub fn is_verification_failure(&self) -> (b: bool)
        ensures
            b == self.spec_is_verification_failure(),
    {
        match self {
            ErrorKind::CertificateExpired => true,
            ErrorKind::UntrustedRoot => true,
            ErrorKind::HostnameMismatch => true,
            _ => false,
        }
    }
}

/// A status code keeps its identity through classification: the kind gives
/// the same code back.
pub proof fn lemma_status_round_trip(status: i32)
    ensures
        ErrorKind::spec_from_status(status as int).spec_raw_os_error() == Some(status),
{
}

/// Two different status codes never fall into one kind, so the trust
/// failures stay distinguishable from each other and from everything else.
pub proof fn lemma_from_status_injective(a: i32, b: i32)
    requires
        ErrorKind::spec_from_status(a as int) == ErrorKind::spec_from_status(b as int),
    ensures
        a == b,
{
    lemma_status_round_trip(a);
    lemma_status_round_trip(b);
}

/// No status code of the platform is ever reported as a transport failure or
/// as an interruption.
pub proof fn lemma_status_is_permanent(status: i32)
    ensures
        ErrorKind::spec_from_status(status as int).spec_is_permanent(),
        !ErrorKind::spec_from_status(status as int).spec_is_transient(),
{
}

} // verus!
