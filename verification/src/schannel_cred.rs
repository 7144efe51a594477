//! Credentials: a configured identity and trust policy that a handshake is
//! started with.
//!
//! A credential fixes the direction of the sessions it is used for, the
//! algorithms they may use and the protocol versions they may speak. Whether
//! a policy can be had is decided against what the platform offers, before
//! any session exists.

use crate::error::ErrorKind;
use vstd::prelude::*;

verus! {

/// The direction of the sessions that a credential is used for.
#[derive(Clone, Copy, Debug, PartialEq, Eq, Structural)]
pub enum Direction {
    /// Server-side, inbound connections.
    Inbound,
    /// Client-side, outbound connections.
    Outbound,
}

/// Algorithms that a credential may allow.
#[derive(Clone, Copy, Debug, PartialEq, Eq, Structural)]
pub enum Algorithm {
    /// Advanced Encryption Standard (AES).
    Aes,
    /// 128 bit AES.
    Aes128,
    /// 192 bit AES.
    Aes192,
    /// 256 bit AES.
    Aes256,
    /// DES encryption.
    Des,
    /// Triple DES encryption.
    TripleDes,
    /// RC2 block encryption.
    Rc2,
    /// RC4 stream encryption.
    Rc4,
    /// Diffie-Hellman ephemeral key exchange.
    DhEphem,
    /// Elliptic curve Diffie-Hellman key exchange.
    Ecdh,
    /// Elliptic curve digital signature algorithm.
    Ecdsa,
    /// DSA public key signature.
    DssSign,
    /// RSA public key exchange.
    RsaKeyx,
    /// RSA public key signature.
    RsaSign,
    /// MD5 hashing.
    Md5,
    /// SHA hashing.
    Sha1,
    /// 256 bit SHA hashing.
    Sha256,
    /// 384 bit SHA hashing.
    Sha384,
    /// 512 bit SHA hashing.
    Sha512,
}

/// Protocol versions that a credential may enable.
#[derive(Clone, Copy, Debug, PartialEq, Eq, Structural)]
pub enum Protocol {
    /// Secure Sockets Layer 3.0
    Ssl3,
    /// Transport Layer Security 1.0
    Tls10,
    /// Transport Layer Security 1.1
    Tls11,
    /// Transport Layer Security 1.2
    Tls12,
    /// Transport Layer Security 1.3
    Tls13,
}

/// Whether two lists have an element in common.
pub open spec fn overlaps<T>(a: Seq<T>, b: Seq<T>) -> bool {
    exists|i: int| 0 <= i < a.len() && b.contains(#[trigger] a[i])
}

/// Whether every element of `a` occurs in `b`.
pub open spec fn all_within<T>(a: Seq<T>, b: Seq<T>) -> bool {
    forall|i: int| 0 <= i < a.len() ==> b.contains(#[trigger] a[i])
}

/// Whether a restriction leaves something of an offer: an empty restriction
/// restricts nothing, any other must share an element with the offer.
pub open spec fn viable<T>(wanted: Seq<T>, offered: Seq<T>) -> bool {
    wanted.len() == 0 || overlaps(wanted, offered)
}

fn has_algorithm(list: &Vec<Algorithm>, wanted: Algorithm) -> (found: bool)
    ensures
        found == list@.contains(wanted),
{
    let mut i: usize = 0;
    while i < list.len()
        invariant
            i <= list.len(),
            forall|j: int| 0 <= j < i ==> list@[j] != wanted,
        decreases list.len() - i,
    {
        if list[i] == wanted {
            return true;
        }
        i = i + 1;
    }
    false
}

fn has_protocol(list: &Vec<Protocol>, wanted: Protocol) -> (found: bool)
    ensures
        found == list@.contains(wanted),
{
    let mut i: usize = 0;
    while i < list.len()
        invariant
            i <= list.len(),
            forall|j: int| 0 <= j < i ==> list@[j] != wanted,
        decreases list.len() - i,
    {
        if list[i] == wanted {
            return true;
        }
        i = i + 1;
    }
    false
}

/// Decides whether two algorithm lists have an algorithm in common.
pub fn algorithms_overlap(a: &Vec<Algorithm>, b: &Vec<Algorithm>) -> (found: bool)
    ensures
        found == overlaps(a@, b@),
{
    let mut i: usize = 0;
    while i < a.len()
        invariant
            i <= a.len(),
            forall|j: int| 0 <= j < i ==> !b@.contains(#[trigger] a@[j]),
        decreases a.len() - i,
    {
        if has_algorithm(b, a[i]) {
            return true;
        }
        i = i + 1;
    }
    false
}

/// Decides whether two protocol lists have a version in common.
pub fn protocols_overlap(a: &Vec<Protocol>, b: &Vec<Protocol>) -> (found: bool)
    ensures
        found == overlaps(a@, b@),
{
    let mut i: usize = 0;
    while i < a.len()
        invariant
            i <= a.len(),
            forall|j: int| 0 <= j < i ==> !b@.contains(#[trigger] a@[j]),
        decreases a.len() - i,
    {
        if has_protocol(b, a[i]) {
            return true;
        }
        i = i + 1;
    }
    false
}

/// Decides whether every version of `a` occurs in `b`.
pub fn protocols_within(a: &Vec<Protocol>, b: &Vec<Protocol>) -> (all: bool)
    ensures
        all == all_within(a@, b@),
{
    let mut i: usize = 0;
    while i < a.len()
        invariant
            i <= a.len(),
            forall|j: int| 0 <= j < i ==> b@.contains(#[trigger] a@[j]),
        decreases a.len() - i,
    {
        if !has_protocol(b, a[i]) {
            return false;
        }
        i = i + 1;
    }
    true
}

/// Algorithms and protocol versions that one side has to offer: the
/// platform, when a credential is acquired; the target, when a handshake is
/// started.
#[derive(Debug)]
pub struct Capabilities {
    /// The algorithms on offer.
    pub algorithms: Vec<Algorithm>,
    /// The protocol versions on offer.
    pub protocols: Vec<Protocol>,
}

/// A builder type for `SchannelCred`s.
#[derive(Debug)]
pub struct Builder {
    supported_algorithms: Option<Vec<Algorithm>>,
    enabled_protocols: Option<Vec<Protocol>>,
}

impl Builder {
    /// The algorithms that the policy is restricted to; empty where the
    /// platform's defaults apply.
    pub closed spec fn algorithms(self) -> Seq<Algorithm> {
        match self.supported_algorithms {
            Some(list) => list@,
            None => Seq::empty(),
        }
    }

    /// The protocol versions that the policy enables; empty where the
    /// platform's defaults apply.
    pub closed spec fn protocols(self) -> Seq<Protocol> {
        match self.enabled_protocols {
            Some(list) => list@,
            None => Seq::empty(),
        }
    }

    /// What acquiring a credential with this policy against a platform
    /// comes to: the kind of the failure, if it fails.
    ///
    /// It fails with an algorithm mismatch if the policy names algorithms
    /// and the platform supports none of them; otherwise with an unsupported
    /// protocol version if the policy enables a version that the platform
    /// does not have.
    pub open spec fn spec_refusal(self, platform: Capabilities) -> Option<ErrorKind> {
        if !viable(self.algorithms(), platform.algorithms@) {
            Some(ErrorKind::AlgorithmMismatch)
        } else if !all_within(self.protocols(), platform.protocols@) {
            Some(ErrorKind::UnsupportedProtocolVersion)
        } else {
            None
        }
    }

    /// Returns a new `Builder`: the policy of the platform's defaults.
    pub fn new() -> (builder: Builder)
        ensures
            builder.algorithms() == Seq::<Algorithm>::empty(),
            builder.protocols() == Seq::<Protocol>::empty(),
    {
        Builder { supported_algorithms: None, enabled_protocols: None }
    }

    /// Sets the algorithms supported for credentials created from this
    /// builder.
    pub fn supported_algorithms(self, supported_algorithms: &[Algorithm]) -> (builder: Builder)
        ensures
            builder.algorithms() == supported_algorithms@,
            builder.protocols() == self.protocols(),
    {
        let mut list: Vec<Algorithm> = Vec::new();
        let mut i: usize = 0;
        while i < supported_algorithms.len()
            invariant
                i <= supported_algorithms.len(),
                list@ == supported_algorithms@.take(i as int),
            decreases supported_algorithms.len() - i,
        {
            list.push(supported_algorithms[i]);
            i = i + 1;
        }
        Builder { supported_algorithms: Some(list), enabled_protocols: self.enabled_protocols }
    }

    /// Sets the protocols enabled for credentials created from this builder.
    pub fn enabled_protocols(self, enabled_protocols: &[Protocol]) -> (builder: Builder)
        ensures
            builder.protocols() == enabled_protocols@,
            builder.algorithms() == self.algorithms(),
    {
        let mut list: Vec<Protocol> = Vec::new();
        let mut i: usize = 0;
        while i < enabled_protocols.len()
            invariant
                i <= enabled_protocols.len(),
                list@ == enabled_protocols@.take(i as int),
            decreases enabled_protocols.len() - i,
        {
            list.push(enabled_protocols[i]);
            i = i + 1;
        }
        Builder { supported_algorithms: self.supported_algorithms, enabled_protocols: Some(list) }
    }

    /// Creates a new `SchannelCred`, or says why the platform cannot serve
    /// the policy. Nothing but the policy and the platform's offer is
    /// consulted: no transport exists at this point.
    pub fn acquire(self, direction: Direction, platform: &Capabilities) -> (cred: Result<
        SchannelCred,
        ErrorKind,
    >)
        ensures
            match cred {
                Ok(c) => {
                    &&& self.spec_refusal(*platform).is_none()
                    &&& c.direction() == direction
                    &&& c.algorithms() == self.algorithms()
                    &&& c.protocols() == self.protocols()
                },
                Err(kind) => self.spec_refusal(*platform) == Some(kind),
            },
    {
        let algorithms = match self.supported_algorithms {
            Some(list) => list,
            None => Vec::new(),
        };
        let protocols = match self.enabled_protocols {
            Some(list) => list,
            None => Vec::new(),
        };
        if algorithms.len() != 0 && !algorithms_overlap(&algorithms, &platform.algorithms) {
            Err(ErrorKind::AlgorithmMismatch)
        } else if !protocols_within(&protocols, &platform.protocols) {
            Err(ErrorKind::UnsupportedProtocolVersion)
        } else {
            Ok(SchannelCred { direction, algorithms, protocols })
        }
    }
}

/// A credential: the policy that a handshake is started with.
#[derive(Debug)]
pub struct SchannelCred {
    direction: Direction,
    algorithms: Vec<Algorithm>,
    protocols: Vec<Protocol>,
}

impl SchannelCred {
    /// The direction this credential was acquired for.
    pub closed spec fn direction(self) -> Direction {
        self.direction
    }

    /// The algorithms this credential is restricted to; empty where the
    /// platform's defaults apply.
    pub closed spec fn algorithms(self) -> Seq<Algorithm> {
        self.algorithms@
    }

    /// The protocol versions this credential enables; empty where the
    /// platform's defaults apply.
    pub closed spec fn protocols(self) -> Seq<Protocol> {
        self.protocols@
    }

    /// Whether a target that offers `target` can be negotiated with under
    /// this credential: each restriction of the credential must leave
    /// something of what the target offers.
    pub open spec fn spec_supports(self, target: Capabilities) -> bool {
        viable(self.algorithms(), target.algorithms@) && viable(
            self.protocols(),
            target.protocols@,
        )
    }

    /// Returns a builder.
    pub fn builder() -> (builder: Builder)
        ensures
            builder.algorithms() == Seq::<Algorithm>::empty(),
            builder.protocols() == Seq::<Protocol>::empty(),
    {
        Builder::new()
    }

    /// See [`SchannelCred::direction`].
    pub fn get_direction(&self) -> (direction: Direction)
        ensures
            direction == self.direction(),
    {
        self.direction
    }

    /// See [`SchannelCred::algorithms`].
    pub fn get_algorithms(&self) -> (algorithms: &[Algorithm])
        ensures
            algorithms@ == self.algorithms(),
    {
        self.algorithms.as_slice()
    }

    /// See [`SchannelCred::protocols`].
    pub fn get_protocols(&self) -> (protocols: &[Protocol])
        ensures
            protocols@ == self.protocols(),
    {
        self.protocols.as_slice()
    }

    /// See [`SchannelCred::spec_supports`].
    pub fn supports(&self, target: &Capabilities) -> (ok: bool)
        ensures
            ok == self.spec_supports(*target),
    {
        (self.algorithms.len() == 0 || algorithms_overlap(&self.algorithms, &target.algorithms))
            && (self.protocols.len() == 0 || protocols_overlap(
            &self.protocols,
            &target.protocols,
        ))
    }
}

/// A policy whose algorithms the platform supports none of is refused with an
/// algorithm mismatch, whatever else it asks for.
pub proof fn lemma_disjoint_algorithms_refused(builder: Builder, platform: Capabilities)
    requires
        builder.algorithms().len() > 0,
        !overlaps(builder.algorithms(), platform.algorithms@),
    ensures
        builder.spec_refusal(platform) == Some(ErrorKind::AlgorithmMismatch),
{
}

/// The policy of the platform's defaults is never refused.
pub proof fn lemma_default_policy_accepted(builder: Builder, platform: Capabilities)
    requires
        builder.algorithms().len() == 0,
        builder.protocols().len() == 0,
    ensures
        builder.spec_refusal(platform).is_none(),
{
}

} // verus!
