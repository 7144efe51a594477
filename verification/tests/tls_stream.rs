use schannel::cert_chain::{CertChainContext, CertContext};
use schannel::error::{
    ErrorKind, CERT_E_CN_NO_MATCH, CERT_E_EXPIRED, CERT_E_UNTRUSTEDROOT,
    SEC_E_ALGORITHM_MISMATCH, SEC_E_CONTEXT_EXPIRED, SEC_E_INTERNAL_ERROR,
    SEC_E_UNSUPPORTED_FUNCTION,
};
use schannel::event::{Action, Event};
use schannel::model::Closing;
use schannel::schannel_cred::{Algorithm, Capabilities, Direction, Protocol, SchannelCred};
use schannel::tls_stream::{Builder, HandshakeError, HandshakeState, TlsStream};

const CLIENT_HELLO: &[u8] = b"CLIENT-HELLO";
const SERVER_HELLO: &[u8] = b"SERVER-HELLO";
const FINISHED: &[u8] = b"FINISHED";
const DATA: u8 = 0x17;
const ALERT: u8 = 0x15;

/// A platform that offers neither RC2 nor ECDSA, and every protocol version.
fn platform() -> Capabilities {
    Capabilities {
        algorithms: vec![
            Algorithm::Aes128,
            Algorithm::Aes256,
            Algorithm::Ecdh,
            Algorithm::RsaKeyx,
            Algorithm::RsaSign,
            Algorithm::Sha256,
            Algorithm::Sha384,
        ],
        protocols: vec![
            Protocol::Ssl3,
            Protocol::Tls10,
            Protocol::Tls11,
            Protocol::Tls12,
            Protocol::Tls13,
        ],
    }
}

fn record(kind: u8, payload: &[u8]) -> Vec<u8> {
    let mut out = vec![kind, payload.len() as u8];
    out.extend(payload.iter().map(|b| b ^ 0x5a));
    out
}

fn records(payload: &[u8], max: usize) -> Vec<u8> {
    let mut out = Vec::new();
    for part in payload.chunks(max) {
        out.extend(record(DATA, part));
    }
    out
}

/// The transport: what the peer has sent, what it has been sent, and how
/// the next calls behave.
struct Pipe {
    inbound: Vec<u8>,
    outbound: Vec<u8>,
    chunk: usize,
    blocked: usize,
    broken: bool,
    reads: usize,
    writes: usize,
}

impl Pipe {
    fn new(inbound: Vec<u8>) -> Pipe {
        Pipe { inbound, outbound: Vec::new(), chunk: usize::MAX, blocked: 0, broken: false, reads: 0, writes: 0 }
    }

    fn write(&mut self, bytes: &[u8]) -> Event {
        self.writes += 1;
        if self.broken {
            return Event::TransportError;
        }
        if self.blocked > 0 {
            self.blocked -= 1;
            return Event::WouldBlock;
        }
        let n = bytes.len().min(self.chunk);
        self.outbound.extend_from_slice(&bytes[..n]);
        Event::Wrote(n)
    }

    fn read(&mut self) -> Event {
        self.reads += 1;
        if self.broken {
            return Event::TransportError;
        }
        if self.blocked > 0 {
            self.blocked -= 1;
            return Event::WouldBlock;
        }
        let n = self.inbound.len().min(self.chunk);
        Event::Received(self.inbound.drain(..n).collect())
    }
}

/// The security engine of the peer's making: a hello in each direction, then
/// records of a kind, a length and a masked payload.
struct Engine {
    max_message: usize,
    hello_sent: bool,
    reject: Option<i32>,
    verdict: Option<i32>,
    peer_requires: Option<Protocol>,
    calls: usize,
}

impl Engine {
    fn new() -> Engine {
        Engine { max_message: 16384, hello_sent: false, reject: None, verdict: None, peer_requires: None, calls: 0 }
    }

    fn for_domain(domain: &str) -> Engine {
        let mut engine = Engine::new();
        engine.verdict = match domain {
            "expired.badssl.com" => Some(CERT_E_EXPIRED),
            "self-signed.badssl.com" => Some(CERT_E_UNTRUSTEDROOT),
            "wrong.host.badssl.com" => Some(CERT_E_CN_NO_MATCH),
            _ => None,
        };
        engine
    }

    fn negotiate(&mut self, cred: &SchannelCred, input: &[u8]) -> Event {
        self.calls += 1;
        if let Some(status) = self.reject {
            return Event::Rejected(status);
        }
        if !self.hello_sent {
            self.hello_sent = true;
            return Event::Token { consumed: 0, output: CLIENT_HELLO.to_vec() };
        }
        if input.len() < SERVER_HELLO.len() {
            return Event::Incomplete;
        }
        if let Some(version) = self.peer_requires {
            let enabled = cred.get_protocols();
            if !enabled.is_empty() && !enabled.contains(&version) {
                return Event::Rejected(SEC_E_UNSUPPORTED_FUNCTION);
            }
        }
        Event::Negotiated {
            consumed: SERVER_HELLO.len(),
            output: FINISHED.to_vec(),
            max_message: self.max_message,
        }
    }

    fn verify(&mut self) -> Event {
        self.calls += 1;
        match self.verdict {
            Some(status) => Event::VerificationFailed(status),
            None => Event::Verified(peer_chain()),
        }
    }

    fn encrypt(&mut self, payload: &[u8]) -> Event {
        self.calls += 1;
        Event::Encrypted(record(DATA, payload))
    }

    fn close_notify(&mut self) -> Event {
        self.calls += 1;
        Event::Encrypted(record(ALERT, &[]))
    }

    fn decrypt(&mut self, input: &[u8]) -> Event {
        self.calls += 1;
        if input.len() < 2 || input.len() < 2 + input[1] as usize {
            return Event::Incomplete;
        }
        if input[0] == ALERT {
            return Event::PeerClosed;
        }
        let n = input[1] as usize;
        Event::Decrypted { consumed: 2 + n, plaintext: input[2..2 + n].iter().map(|b| b ^ 0x5a).collect() }
    }
}

fn peer_chain() -> CertChainContext {
    CertChainContext::new(vec![
        vec![CertContext::new(vec![1]), CertContext::new(vec![9])],
        vec![CertContext::new(vec![1]), CertContext::new(vec![2]), CertContext::new(vec![3])],
    ])
}

struct Peer {
    pipe: Pipe,
    engine: Engine,
}

impl Peer {
    /// The peer at an address: it answers the hello and then sends
    /// `response`, followed by its notification of an orderly close.
    fn connect(addr: &str, response: &[u8]) -> Peer {
        let domain = addr.split(':').next().unwrap();
        let mut inbound = SERVER_HELLO.to_vec();
        inbound.extend(records(response, 200));
        inbound.extend(record(ALERT, &[]));
        Peer { pipe: Pipe::new(inbound), engine: Engine::for_domain(domain) }
    }

    fn perform(&mut self, stream: &TlsStream, action: Action, payload: &[u8]) -> Event {
        match action {
            Action::Transmit => self.pipe.write(stream.pending_output().unwrap()),
            Action::Receive => self.pipe.read(),
            Action::Negotiate => self.engine.negotiate(stream.cred(), stream.pending_input().unwrap()),
            Action::Verify => self.engine.verify(),
            Action::Decrypt => self.engine.decrypt(stream.pending_input().unwrap()),
            Action::Encrypt(n) => self.engine.encrypt(&payload[..n]),
            Action::CloseNotify => self.engine.close_notify(),
            other => panic!("{:?} is no request", other),
        }
    }

    fn handshake(&mut self, stream: &mut TlsStream) -> Action {
        let mut event = Event::Resume;
        loop {
            let action = stream.handshake(event);
            if action.is_final() {
                return action;
            }
            event = self.perform(stream, action, &[]);
        }
    }

    fn ready(&mut self, stream: &mut TlsStream) -> Result<(), ErrorKind> {
        if stream.is_established() {
            return Ok(());
        }
        match self.handshake(stream) {
            Action::Established => Ok(()),
            Action::Failed(kind) => Err(kind),
            other => panic!("{:?} does not end a handshake", other),
        }
    }

    fn write(&mut self, stream: &mut TlsStream, buf: &[u8]) -> Result<usize, ErrorKind> {
        self.ready(stream)?;
        let mut event = Event::Resume;
        loop {
            match stream.write(buf.len(), event) {
                Action::Written(n) => return Ok(n),
                Action::Failed(kind) => return Err(kind),
                action => event = self.perform(stream, action, buf),
            }
        }
    }

    fn write_all(&mut self, stream: &mut TlsStream, mut buf: &[u8]) -> Result<(), ErrorKind> {
        while !buf.is_empty() {
            let n = self.write(stream, buf)?;
            assert!(n > 0);
            buf = &buf[n..];
        }
        Ok(())
    }

    fn read(&mut self, stream: &mut TlsStream, out: &mut Vec<u8>, limit: usize) -> Result<usize, ErrorKind> {
        self.ready(stream)?;
        let mut event = Event::Resume;
        loop {
            match stream.read(out, limit, event) {
                Action::Read(n) => return Ok(n),
                Action::Failed(kind) => return Err(kind),
                action => event = self.perform(stream, action, &[]),
            }
        }
    }

    fn read_to_end(&mut self, stream: &mut TlsStream, out: &mut Vec<u8>) -> Result<usize, ErrorKind> {
        let mut total = 0;
        loop {
            let n = self.read(stream, out, 32)?;
            if n == 0 {
                return Ok(total);
            }
            total += n;
        }
    }

    fn shutdown(&mut self, stream: &mut TlsStream) -> Result<(), ErrorKind> {
        self.ready(stream)?;
        let mut event = Event::Resume;
        loop {
            match stream.shutdown(event) {
                Action::Closed => return Ok(()),
                Action::Failed(kind) => return Err(kind),
                action => event = self.perform(stream, action, &[]),
            }
        }
    }

    /// Creates the session and drives its handshake as far as it goes.
    fn initialize(&mut self, builder: Builder, cred: SchannelCred) -> Result<TlsStream, HandshakeError> {
        let mut stream = builder.initialize(cred);
        self.handshake(&mut stream);
        stream.into_result()
    }
}

fn unwrap_handshake(e: HandshakeError) -> ErrorKind {
    match e {
        HandshakeError::Failure(e) => e,
        HandshakeError::Interrupted(_) => panic!("not an I/O error"),
    }
}

const RESPONSE: &[u8] = b"HTTP/1.0 200 OK\r\nContent-Type: text/html\r\n\r\n<html><body>hello</body></html>";

#[test]
fn basic() {
    let creds = SchannelCred::builder().acquire(Direction::Outbound, &platform()).unwrap();
    let mut peer = Peer::connect("google.com:443", RESPONSE);
    let mut stream = peer.initialize(Builder::new().domain("google.com"), creds).unwrap();
    assert_eq!(peer.write(&mut stream, b"GET / HTTP/1.0\r\n\r\n"), Ok(18));
    let mut out = vec![];
    peer.read_to_end(&mut stream, &mut out).unwrap();
    assert!(out.starts_with(b"HTTP/1.0 200 OK"));
    assert!(out.ends_with(b"</html>"));
    let mut sent = CLIENT_HELLO.to_vec();
    sent.extend(FINISHED);
    sent.extend(record(DATA, b"GET / HTTP/1.0\r\n\r\n"));
    assert_eq!(peer.pipe.outbound, sent);
}

#[test]
fn invalid_algorithms() {
    let creds = SchannelCred::builder()
        .supported_algorithms(&[Algorithm::Rc2, Algorithm::Ecdsa])
        .acquire(Direction::Outbound, &platform());
    assert_eq!(creds.err().unwrap().raw_os_error().unwrap(), SEC_E_ALGORITHM_MISMATCH);
}

#[test]
fn valid_algorithms() {
    let creds = SchannelCred::builder()
        .supported_algorithms(&[Algorithm::Aes128, Algorithm::Ecdsa])
        .acquire(Direction::Outbound, &platform())
        .unwrap();
    let mut peer = Peer::connect("google.com:443", RESPONSE);
    let mut stream = peer.initialize(Builder::new().domain("google.com"), creds).unwrap();
    peer.write_all(&mut stream, b"GET / HTTP/1.0\r\n\r\n").unwrap();
    let mut out = vec![];
    peer.read_to_end(&mut stream, &mut out).unwrap();
    assert!(out.starts_with(b"HTTP/1.0 200 OK"));
    assert!(out.ends_with(b"</html>"));
}

#[test]
fn invalid_protocol() {
    let creds = SchannelCred::builder()
        .enabled_protocols(&[Protocol::Ssl3])
        .acquire(Direction::Outbound, &platform())
        .unwrap();
    let mut peer = Peer::connect("google.com:443", RESPONSE);
    peer.engine.peer_requires = Some(Protocol::Tls12);
    let err = peer.initialize(Builder::new().domain("google.com"), creds).err().unwrap();
    let err = unwrap_handshake(err);
    assert_eq!(err.raw_os_error().unwrap(), SEC_E_UNSUPPORTED_FUNCTION);
    assert_eq!(err, ErrorKind::UnsupportedProtocolVersion);
    assert_ne!(err, ErrorKind::TransportFailure);
}

#[test]
fn valid_protocol() {
    let creds = SchannelCred::builder()
        .enabled_protocols(&[Protocol::Tls12])
        .acquire(Direction::Outbound, &platform())
        .unwrap();
    let mut peer = Peer::connect("google.com:443", RESPONSE);
    peer.engine.peer_requires = Some(Protocol::Tls12);
    let mut stream = peer.initialize(Builder::new().domain("google.com"), creds).unwrap();
    peer.write_all(&mut stream, b"GET / HTTP/1.0\r\n\r\n").unwrap();
    let mut out = vec![];
    peer.read_to_end(&mut stream, &mut out).unwrap();
    assert!(out.starts_with(b"HTTP/1.0 200 OK"));
    assert!(out.ends_with(b"</html>"));
}

#[test]
fn expired_cert() {
    let creds = SchannelCred::builder().acquire(Direction::Outbound, &platform()).unwrap();
    let mut peer = Peer::connect("expired.badssl.com:443", RESPONSE);
    let err = peer.initialize(Builder::new().domain("expired.badssl.com"), creds).err().unwrap();
    let err = unwrap_handshake(err);
    assert_eq!(err.raw_os_error().unwrap(), CERT_E_EXPIRED);
    assert_eq!(err, ErrorKind::CertificateExpired);
}

#[test]
fn self_signed_cert() {
    let creds = SchannelCred::builder().acquire(Direction::Outbound, &platform()).unwrap();
    let mut peer = Peer::connect("self-signed.badssl.com:443", RESPONSE);
    let err = peer.initialize(Builder::new().domain("self-signed.badssl.com"), creds).err().unwrap();
    let err = unwrap_handshake(err);
    assert_eq!(err.raw_os_error().unwrap(), CERT_E_UNTRUSTEDROOT);
    assert_eq!(err, ErrorKind::UntrustedRoot);
}

#[test]
fn wrong_host_cert() {
    let creds = SchannelCred::builder().acquire(Direction::Outbound, &platform()).unwrap();
    let mut peer = Peer::connect("wrong.host.badssl.com:443", RESPONSE);
    let err = peer.initialize(Builder::new().domain("wrong.host.badssl.com"), creds).err().unwrap();
    let err = unwrap_handshake(err);
    assert_eq!(err.raw_os_error().unwrap(), CERT_E_CN_NO_MATCH);
    assert_eq!(err, ErrorKind::HostnameMismatch);
}

#[test]
fn shutdown() {
    let creds = SchannelCred::builder().acquire(Direction::Outbound, &platform()).unwrap();
    let mut peer = Peer::connect("google.com:443", RESPONSE);
    let mut stream = peer.initialize(Builder::new().domain("google.com"), creds).unwrap();
    peer.shutdown(&mut stream).unwrap();
    assert!(peer.pipe.outbound.ends_with(&record(ALERT, &[])));
}

#[test]
fn validation_failure_is_permanent() {
    let creds = SchannelCred::builder().acquire(Direction::Outbound, &platform()).unwrap();
    let mut peer = Peer::connect("self-signed.badssl.com:443", RESPONSE);
    // the transport is not ready at first, so that the stream comes back
    // before the peer is verified
    peer.pipe.blocked = 1;
    let mut stream = match peer.initialize(Builder::new().domain("self-signed.badssl.com"), creds) {
        Err(HandshakeError::Interrupted(mid)) => mid.into_stream(),
        _ => panic!("the handshake was to be interrupted"),
    };
    assert_eq!(peer.write(&mut stream, b"hi").err().unwrap().raw_os_error().unwrap(), CERT_E_UNTRUSTEDROOT);
    let sent = peer.pipe.outbound.clone();
    let (reads, writes, calls) = (peer.pipe.reads, peer.pipe.writes, peer.engine.calls);
    assert_eq!(peer.write(&mut stream, b"hi").err().unwrap().raw_os_error().unwrap(), CERT_E_UNTRUSTEDROOT);
    assert_eq!(peer.write(&mut stream, b"another payload").err().unwrap(), ErrorKind::UntrustedRoot);
    assert_eq!(peer.pipe.outbound, sent);
    assert_eq!((peer.pipe.reads, peer.pipe.writes, peer.engine.calls), (reads, writes, calls));
    assert!(!sent.windows(2).any(|w| w == b"hi"));
}

fn default_creds() -> SchannelCred {
    SchannelCred::builder().acquire(Direction::Outbound, &platform()).unwrap()
}

fn established(peer: &mut Peer) -> TlsStream {
    peer.initialize(Builder::new().domain("example.org"), default_creds()).ok().unwrap()
}

#[test]
fn all_three_trust_failures_in_one_run() {
    let mut kinds = Vec::new();
    for domain in ["expired.badssl.com", "self-signed.badssl.com", "wrong.host.badssl.com"] {
        let mut peer = Peer::connect(domain, RESPONSE);
        let err = peer.initialize(Builder::new().domain(domain), default_creds()).err().unwrap();
        kinds.push(unwrap_handshake(err));
    }
    assert_eq!(
        kinds,
        vec![ErrorKind::CertificateExpired, ErrorKind::UntrustedRoot, ErrorKind::HostnameMismatch]
    );
}

#[test]
fn established_stream_owns_the_peer_chain() {
    let mut peer = Peer::connect("example.org:443", RESPONSE);
    let stream = established(&mut peer);
    let chain = stream.peer_chain().unwrap().final_chain().unwrap();
    drop(stream);
    assert_eq!(chain.len(), 3);
    assert_eq!(chain.get(0).unwrap().to_der(), &[1]);
    assert_eq!(chain.get(2).unwrap().to_der(), &[3]);
}

#[test]
fn unverified_stream_has_no_peer_chain() {
    let mut peer = Peer::connect("self-signed.badssl.com:443", RESPONSE);
    let builder = Builder::new().domain("self-signed.badssl.com").verify_peer(false);
    let stream = peer.initialize(builder, default_creds()).ok().unwrap();
    assert!(stream.is_established());
    assert!(stream.peer_chain().is_none());
    assert_eq!(stream.domain(), Some("self-signed.badssl.com"));
}

#[test]
fn unsupported_target_fails_before_any_io() {
    let creds = SchannelCred::builder()
        .supported_algorithms(&[Algorithm::Aes128])
        .acquire(Direction::Outbound, &platform())
        .unwrap();
    let target = Capabilities { algorithms: vec![Algorithm::Rc4, Algorithm::Md5], protocols: vec![] };
    let mut peer = Peer::connect("example.org:443", RESPONSE);
    let err = peer.initialize(Builder::new().target(target), creds).err().unwrap();
    assert_eq!(unwrap_handshake(err), ErrorKind::AlgorithmMismatch);
    assert_eq!((peer.pipe.reads, peer.pipe.writes, peer.engine.calls), (0, 0, 0));
    assert!(peer.pipe.outbound.is_empty());
}

#[test]
fn supported_target_starts_the_negotiation() {
    let creds = SchannelCred::builder()
        .supported_algorithms(&[Algorithm::Aes128, Algorithm::Ecdsa])
        .enabled_protocols(&[Protocol::Tls12])
        .acquire(Direction::Outbound, &platform())
        .unwrap();
    let target = Capabilities {
        algorithms: vec![Algorithm::Ecdsa],
        protocols: vec![Protocol::Tls12, Protocol::Tls13],
    };
    let mut stream = Builder::new().target(target).initialize(creds);
    assert_eq!(stream.handshake(Event::Resume), Action::Negotiate);
    assert_eq!(stream.pending_output(), Some(&[][..]));
}

#[test]
fn target_without_a_common_protocol_is_a_mismatch() {
    let creds = SchannelCred::builder()
        .enabled_protocols(&[Protocol::Tls10])
        .acquire(Direction::Outbound, &platform())
        .unwrap();
    let target = Capabilities { algorithms: vec![Algorithm::Aes128], protocols: vec![Protocol::Tls12] };
    let stream = Builder::new().target(target).initialize(creds);
    assert_eq!(stream.failure(), Some(ErrorKind::AlgorithmMismatch));
}

#[test]
fn disabled_protocol_is_refused_at_acquisition() {
    let mut platform = platform();
    platform.protocols = vec![Protocol::Tls12, Protocol::Tls13];
    let creds = SchannelCred::builder()
        .enabled_protocols(&[Protocol::Tls12, Protocol::Ssl3])
        .acquire(Direction::Outbound, &platform);
    assert_eq!(creds.err().unwrap(), ErrorKind::UnsupportedProtocolVersion);
    let creds = SchannelCred::builder()
        .supported_algorithms(&[Algorithm::Rc2])
        .enabled_protocols(&[Protocol::Ssl3])
        .acquire(Direction::Outbound, &platform);
    assert_eq!(creds.err().unwrap(), ErrorKind::AlgorithmMismatch);
}

#[test]
fn credential_keeps_its_policy() {
    let creds = SchannelCred::builder()
        .supported_algorithms(&[Algorithm::Aes256, Algorithm::Sha384])
        .enabled_protocols(&[Protocol::Tls13])
        .acquire(Direction::Inbound, &platform())
        .unwrap();
    assert_eq!(creds.get_direction(), Direction::Inbound);
    assert_eq!(creds.get_algorithms(), &[Algorithm::Aes256, Algorithm::Sha384]);
    assert_eq!(creds.get_protocols(), &[Protocol::Tls13]);
    let defaults = default_creds();
    assert!(defaults.get_algorithms().is_empty());
    assert!(defaults.supports(&Capabilities { algorithms: vec![], protocols: vec![] }));
    assert!(!creds.supports(&Capabilities { algorithms: vec![Algorithm::Aes256], protocols: vec![] }));
}

#[test]
fn handshake_steps_in_order() {
    let mut stream = Builder::new().initialize(default_creds());
    assert_eq!(stream.handshake(Event::Resume), Action::Negotiate);
    assert_eq!(stream.handshake(Event::Token { consumed: 0, output: vec![1, 2, 3] }), Action::Transmit);
    assert_eq!(stream.pending_output(), Some(&[1, 2, 3][..]));
    assert_eq!(stream.handshake(Event::Wrote(3)), Action::Receive);
    assert_eq!(stream.handshake(Event::Received(vec![7, 8])), Action::Negotiate);
    assert_eq!(stream.pending_input(), Some(&[7, 8][..]));
    assert_eq!(stream.handshake(Event::Incomplete), Action::Receive);
    assert_eq!(stream.handshake(Event::Received(vec![9])), Action::Negotiate);
    assert_eq!(stream.pending_input(), Some(&[7, 8, 9][..]));
    assert_eq!(
        stream.handshake(Event::Negotiated { consumed: 2, output: vec![4], max_message: 10 }),
        Action::Transmit
    );
    assert_eq!(stream.handshake(Event::Wrote(1)), Action::Verify);
    assert!(!stream.is_established());
    assert_eq!(stream.handshake(Event::Verified(peer_chain())), Action::Established);
    assert!(stream.is_established());
    assert_eq!(stream.pending_input(), Some(&[9][..]));
    assert_eq!(stream.handshake(Event::Resume), Action::Established);
}

#[test]
fn partial_writes_resume_at_the_first_unwritten_byte() {
    let mut stream = Builder::new().initialize(default_creds());
    stream.handshake(Event::Resume);
    assert_eq!(
        stream.handshake(Event::Token { consumed: 0, output: vec![1, 2, 3, 4, 5] }),
        Action::Transmit
    );
    assert_eq!(stream.handshake(Event::Wrote(2)), Action::Transmit);
    assert_eq!(stream.pending_output(), Some(&[3, 4, 5][..]));
    assert_eq!(stream.handshake(Event::WouldBlock), Action::Failed(ErrorKind::Interrupted));
    assert_eq!(stream.pending_output(), Some(&[3, 4, 5][..]));
    assert_eq!(stream.handshake(Event::Resume), Action::Transmit);
    assert_eq!(stream.handshake(Event::Wrote(1)), Action::Transmit);
    assert_eq!(stream.pending_output(), Some(&[4, 5][..]));
    assert_eq!(stream.handshake(Event::Wrote(2)), Action::Receive);
}

#[test]
fn one_byte_transport() {
    let mut peer = Peer::connect("example.org:443", RESPONSE);
    peer.pipe.chunk = 1;
    let mut stream = established(&mut peer);
    assert_eq!(peer.write(&mut stream, b"ping"), Ok(4));
    let mut out = vec![];
    peer.read_to_end(&mut stream, &mut out).unwrap();
    assert_eq!(out, RESPONSE);
    let mut sent = CLIENT_HELLO.to_vec();
    sent.extend(FINISHED);
    sent.extend(record(DATA, b"ping"));
    assert_eq!(peer.pipe.outbound, sent);
}

#[test]
fn interrupted_handshake_resumes() {
    let mut peer = Peer::connect("example.org:443", RESPONSE);
    peer.pipe.blocked = 1;
    let mid = match peer.initialize(Builder::new(), default_creds()) {
        Err(HandshakeError::Interrupted(mid)) => mid,
        _ => panic!("the handshake was to be interrupted"),
    };
    assert!(!mid.get_ref().is_established());
    assert_eq!(mid.get_ref().failure(), None);
    let mut stream = mid.into_stream();
    assert_eq!(peer.handshake(&mut stream), Action::Established);
    assert!(stream.into_result().is_ok());
}

#[test]
fn interruption_is_not_stored() {
    let mut peer = Peer::connect("example.org:443", RESPONSE);
    let mut stream = Builder::new().initialize(default_creds());
    for _ in 0..3 {
        peer.pipe.blocked = 1;
        assert_eq!(peer.handshake(&mut stream), Action::Failed(ErrorKind::Interrupted));
        assert_eq!(stream.failure(), None);
    }
    assert_eq!(peer.handshake(&mut stream), Action::Established);
}

#[test]
fn end_of_stream_during_handshake_is_a_transport_failure() {
    let mut peer = Peer::connect("example.org:443", RESPONSE);
    peer.pipe.inbound.clear();
    let err = peer.initialize(Builder::new(), default_creds()).err().unwrap();
    assert_eq!(unwrap_handshake(err), ErrorKind::TransportFailure);
}

#[test]
fn transport_error_fails_the_session() {
    let mut peer = Peer::connect("example.org:443", RESPONSE);
    peer.pipe.broken = true;
    let mut stream = Builder::new().initialize(default_creds());
    assert_eq!(peer.handshake(&mut stream), Action::Failed(ErrorKind::TransportFailure));
    match stream.state() {
        HandshakeState::Failed(kind, permanent) => {
            assert_eq!(*kind, ErrorKind::TransportFailure);
            assert!(!*permanent);
        }
        _ => panic!("the session was to fail"),
    }
    peer.pipe.broken = false;
    let writes = peer.pipe.writes;
    assert_eq!(peer.handshake(&mut stream), Action::Failed(ErrorKind::TransportFailure));
    assert_eq!(peer.pipe.writes, writes);
}

#[test]
fn engine_rejection_is_permanent() {
    let mut peer = Peer::connect("example.org:443", RESPONSE);
    peer.engine.reject = Some(-2146893018);
    let mut stream = Builder::new().initialize(default_creds());
    assert_eq!(peer.handshake(&mut stream), Action::Failed(ErrorKind::EngineFailure(-2146893018)));
    match stream.state() {
        HandshakeState::Failed(kind, permanent) => {
            assert_eq!(kind.raw_os_error(), Some(-2146893018));
            assert!(*permanent);
        }
        _ => panic!("the session was to fail"),
    }
}

#[test]
fn impossible_reports_fail_the_session() {
    let mut stream = Builder::new().initialize(default_creds());
    stream.handshake(Event::Resume);
    assert_eq!(
        stream.handshake(Event::Token { consumed: 1, output: vec![1] }),
        Action::Failed(ErrorKind::EngineFailure(SEC_E_INTERNAL_ERROR))
    );
    let mut stream = Builder::new().initialize(default_creds());
    stream.handshake(Event::Resume);
    stream.handshake(Event::Token { consumed: 0, output: vec![1, 2] });
    assert_eq!(stream.handshake(Event::Wrote(3)), Action::Failed(ErrorKind::TransportFailure));
    let mut stream = Builder::new().initialize(default_creds());
    stream.handshake(Event::Resume);
    stream.handshake(Event::Token { consumed: 0, output: vec![1, 2] });
    assert_eq!(stream.handshake(Event::Wrote(0)), Action::Failed(ErrorKind::TransportFailure));
}

#[test]
fn reports_out_of_turn_change_nothing() {
    let mut stream = Builder::new().initialize(default_creds());
    assert_eq!(stream.handshake(Event::Verified(peer_chain())), Action::Negotiate);
    assert_eq!(stream.handshake(Event::Wrote(5)), Action::Negotiate);
    assert_eq!(stream.handshake(Event::Received(vec![1])), Action::Negotiate);
    assert_eq!(stream.handshake(Event::TransportError), Action::Negotiate);
    assert_eq!(stream.handshake(Event::WouldBlock), Action::Negotiate);
    assert_eq!(stream.handshake(Event::Encrypted(vec![1])), Action::Negotiate);
    assert!(!stream.is_established());
    assert_eq!(stream.pending_input(), Some(&[][..]));
    assert_eq!(stream.pending_output(), Some(&[][..]));
}

#[test]
fn stream_before_the_handshake_is_interrupted() {
    let mut stream = Builder::new().initialize(default_creds());
    let mut out = vec![];
    assert_eq!(stream.write(4, Event::Resume), Action::Failed(ErrorKind::Interrupted));
    assert_eq!(stream.read(&mut out, 4, Event::Resume), Action::Failed(ErrorKind::Interrupted));
    assert_eq!(stream.shutdown(Event::Resume), Action::Failed(ErrorKind::Interrupted));
    assert_eq!(stream.handshake(Event::Resume), Action::Negotiate);
    assert!(out.is_empty());
}

#[test]
fn session_without_credential_asks_for_one() {
    let mut out = vec![];
    let (state, action) = HandshakeState::NotStarted.handshake(Event::Resume);
    assert_eq!(action, Action::Initiate);
    let (state, action) = state.write(1, Event::Wrote(1));
    assert_eq!(action, Action::Initiate);
    let (state, action) = state.read(&mut out, 1, Event::Received(vec![1]));
    assert_eq!(action, Action::Initiate);
    let (state, action) = state.shutdown(Event::Resume);
    assert_eq!(action, Action::Initiate);
    assert!(matches!(state, HandshakeState::NotStarted));
    let (state, action) = state.initiate(&default_creds(), None, true);
    assert_eq!(action, Action::Negotiate);
    let (state, action) = state.initiate(&default_creds(), None, true);
    assert_eq!(action, Action::Negotiate);
    assert!(matches!(state, HandshakeState::InProgress(_)));
}

#[test]
fn failed_session_answers_every_operation_alike() {
    for kind in [ErrorKind::UntrustedRoot, ErrorKind::TransportFailure, ErrorKind::EngineFailure(-5)] {
        let mut out = vec![];
        let state = HandshakeState::Failed(kind, kind.is_permanent());
        let (state, action) = state.write(10, Event::Wrote(3));
        assert_eq!(action, Action::Failed(kind));
        let (state, action) = state.write(99, Event::Encrypted(vec![1, 2]));
        assert_eq!(action, Action::Failed(kind));
        let (state, action) = state.read(&mut out, 10, Event::Received(vec![1]));
        assert_eq!(action, Action::Failed(kind));
        let (state, action) = state.shutdown(Event::Encrypted(vec![1]));
        assert_eq!(action, Action::Failed(kind));
        let (state, action) = state.handshake(Event::Verified(peer_chain()));
        assert_eq!(action, Action::Failed(kind));
        let (state, action) = state.initiate(&default_creds(), None, false);
        assert_eq!(action, Action::Failed(kind));
        assert!(out.is_empty());
        match state {
            HandshakeState::Failed(k, p) => assert_eq!((k, p), (kind, kind.is_permanent())),
            _ => panic!("the session was to stay failed"),
        }
    }
}

#[test]
fn write_is_cut_to_one_record() {
    let mut peer = Peer::connect("example.org:443", RESPONSE);
    peer.engine.max_message = 16;
    let mut stream = established(&mut peer);
    let before = peer.pipe.outbound.len();
    assert_eq!(peer.write(&mut stream, b"GET / HTTP/1.0\r\n\r\n"), Ok(16));
    assert_eq!(&peer.pipe.outbound[before..], &record(DATA, b"GET / HTTP/1.0\r\n")[..]);
    assert_eq!(peer.write(&mut stream, b"\r\n"), Ok(2));
    peer.write_all(&mut stream, &[7u8; 40]).unwrap();
    let mut sent = record(DATA, b"GET / HTTP/1.0\r\n");
    sent.extend(record(DATA, b"\r\n"));
    sent.extend(records(&[7u8; 40], 16));
    assert_eq!(&peer.pipe.outbound[before..], &sent[..]);
}

#[test]
fn interrupted_write_resumes_mid_record() {
    let mut peer = Peer::connect("example.org:443", RESPONSE);
    let mut stream = established(&mut peer);
    let before = peer.pipe.outbound.len();
    assert_eq!(stream.write(5, Event::Resume), Action::Encrypt(5));
    assert_eq!(stream.write(5, Event::Encrypted(vec![10, 11, 12, 13, 14, 15, 16])), Action::Transmit);
    assert_eq!(stream.write(5, Event::Wrote(3)), Action::Transmit);
    assert_eq!(stream.pending_output(), Some(&[13, 14, 15, 16][..]));
    assert_eq!(stream.write(5, Event::WouldBlock), Action::Failed(ErrorKind::Interrupted));
    assert_eq!(stream.pending_output(), Some(&[13, 14, 15, 16][..]));
    assert_eq!(stream.write(5, Event::Resume), Action::Transmit);
    assert_eq!(stream.write(5, Event::Wrote(4)), Action::Written(5));
    assert_eq!(stream.pending_output(), Some(&[][..]));
    assert_eq!(stream.write(2, Event::Resume), Action::Encrypt(2));
    assert_eq!(peer.pipe.outbound.len(), before);
}

#[test]
fn empty_records_from_the_engine_fail_the_session() {
    let mut peer = Peer::connect("example.org:443", RESPONSE);
    let mut stream = established(&mut peer);
    assert_eq!(stream.write(5, Event::Resume), Action::Encrypt(5));
    assert_eq!(
        stream.write(5, Event::Encrypted(vec![])),
        Action::Failed(ErrorKind::EngineFailure(SEC_E_INTERNAL_ERROR))
    );
    assert_eq!(stream.failure(), Some(ErrorKind::EngineFailure(SEC_E_INTERNAL_ERROR)));
}

#[test]
fn read_keeps_what_the_caller_does_not_take() {
    let mut peer = Peer::connect("example.org:443", b"0123456789");
    let mut stream = established(&mut peer);
    let mut out = vec![];
    assert_eq!(peer.read(&mut stream, &mut out, 4), Ok(4));
    assert_eq!(out, b"0123");
    let calls = peer.engine.calls;
    let reads = peer.pipe.reads;
    assert_eq!(peer.read(&mut stream, &mut out, 4), Ok(4));
    assert_eq!(out, b"01234567");
    assert_eq!((peer.engine.calls, peer.pipe.reads), (calls, reads));
    assert_eq!(peer.read(&mut stream, &mut out, 4), Ok(2));
    assert_eq!(out, b"0123456789");
    assert_eq!(peer.read(&mut stream, &mut out, 4), Ok(0));
    assert_eq!(peer.read(&mut stream, &mut out, 4), Ok(0));
    assert_eq!(out, b"0123456789");
}

#[test]
fn read_steps_in_order() {
    let mut peer = Peer::connect("example.org:443", b"");
    peer.pipe.inbound = SERVER_HELLO.to_vec();
    let mut stream = established(&mut peer);
    let mut out = vec![9];
    assert_eq!(stream.read(&mut out, 8, Event::Resume), Action::Receive);
    assert_eq!(stream.read(&mut out, 8, Event::WouldBlock), Action::Failed(ErrorKind::Interrupted));
    assert_eq!(stream.read(&mut out, 8, Event::Received(vec![1, 2, 3])), Action::Decrypt);
    assert_eq!(stream.read(&mut out, 8, Event::Incomplete), Action::Receive);
    assert_eq!(stream.read(&mut out, 8, Event::Received(vec![4, 5])), Action::Decrypt);
    assert_eq!(stream.pending_input(), Some(&[1, 2, 3, 4, 5][..]));
    assert_eq!(
        stream.read(&mut out, 2, Event::Decrypted { consumed: 4, plaintext: vec![b'a', b'b', b'c'] }),
        Action::Read(2)
    );
    assert_eq!(out, vec![9, b'a', b'b']);
    assert_eq!(stream.pending_input(), Some(&[5][..]));
    assert_eq!(stream.read(&mut out, 0, Event::Resume), Action::Read(0));
    assert_eq!(stream.read(&mut out, 8, Event::Resume), Action::Read(1));
    assert_eq!(out, vec![9, b'a', b'b', b'c']);
    assert_eq!(stream.read(&mut out, 8, Event::Resume), Action::Decrypt);
    assert_eq!(stream.read(&mut out, 8, Event::PeerClosed), Action::Read(0));
    assert_eq!(stream.read(&mut out, 8, Event::Resume), Action::Read(0));
    assert_eq!(out, vec![9, b'a', b'b', b'c']);
}

#[test]
fn leftover_of_the_handshake_is_the_first_input_of_the_stream() {
    let mut stream = Builder::new().verify_peer(false).initialize(default_creds());
    stream.handshake(Event::Resume);
    stream.handshake(Event::Token { consumed: 0, output: vec![1] });
    stream.handshake(Event::Wrote(1));
    stream.handshake(Event::Received(vec![50, 51, 52, 53]));
    assert_eq!(
        stream.handshake(Event::Negotiated { consumed: 1, output: vec![], max_message: 100 }),
        Action::Established
    );
    assert_eq!(stream.pending_input(), Some(&[51, 52, 53][..]));
    let mut out = vec![];
    assert_eq!(stream.read(&mut out, 8, Event::Resume), Action::Decrypt);
}

#[test]
fn end_of_stream_without_notification_is_a_transport_failure() {
    let mut peer = Peer::connect("example.org:443", b"data");
    let cut = peer.pipe.inbound.len() - 2;
    peer.pipe.inbound.truncate(cut);
    let mut stream = established(&mut peer);
    let mut out = vec![];
    assert_eq!(peer.read(&mut stream, &mut out, 16), Ok(4));
    assert_eq!(peer.read(&mut stream, &mut out, 16), Err(ErrorKind::TransportFailure));
    assert_eq!(peer.read(&mut stream, &mut out, 16), Err(ErrorKind::TransportFailure));
    assert_eq!(out, b"data");
}

#[test]
fn shutdown_succeeds_exactly_once() {
    let mut peer = Peer::connect("example.org:443", RESPONSE);
    let mut stream = established(&mut peer);
    peer.write_all(&mut stream, b"bye").unwrap();
    assert_eq!(peer.shutdown(&mut stream), Ok(()));
    let sent = peer.pipe.outbound.clone();
    let mut expected = CLIENT_HELLO.to_vec();
    expected.extend(FINISHED);
    expected.extend(record(DATA, b"bye"));
    expected.extend(record(ALERT, &[]));
    assert_eq!(sent, expected);
    let expired = ErrorKind::EngineFailure(SEC_E_CONTEXT_EXPIRED);
    assert_eq!(peer.shutdown(&mut stream), Err(expired));
    assert_eq!(peer.write(&mut stream, b"more"), Err(expired));
    let mut out = vec![];
    assert_eq!(peer.read(&mut stream, &mut out, 8), Err(expired));
    assert_eq!(peer.pipe.outbound, sent);
    assert!(stream.is_established());
    assert_eq!(stream.failure(), None);
}

#[test]
fn shutdown_steps_in_order() {
    let mut peer = Peer::connect("example.org:443", RESPONSE);
    let mut stream = established(&mut peer);
    assert_eq!(stream.shutdown(Event::Resume), Action::CloseNotify);
    assert_eq!(stream.shutdown(Event::Wrote(1)), Action::CloseNotify);
    assert_eq!(stream.shutdown(Event::Encrypted(vec![21, 0, 3])), Action::Transmit);
    assert_eq!(stream.write(3, Event::Resume), Action::Failed(ErrorKind::EngineFailure(SEC_E_CONTEXT_EXPIRED)));
    assert_eq!(stream.shutdown(Event::Encrypted(vec![21, 0, 3])), Action::Transmit);
    assert_eq!(stream.pending_output(), Some(&[21, 0, 3][..]));
    assert_eq!(stream.shutdown(Event::Wrote(2)), Action::Transmit);
    assert_eq!(stream.shutdown(Event::WouldBlock), Action::Failed(ErrorKind::Interrupted));
    assert_eq!(stream.pending_output(), Some(&[3][..]));
    assert_eq!(stream.shutdown(Event::Wrote(1)), Action::Closed);
    assert_eq!(stream.shutdown(Event::Resume), Action::Failed(ErrorKind::EngineFailure(SEC_E_CONTEXT_EXPIRED)));
    match stream.state() {
        HandshakeState::Established(session, _) => {
            assert_eq!(session.closing(), Closing::Closed);
            assert!(session.pending_output().is_empty());
        }
        _ => panic!("the session was to stay established"),
    }
}

#[test]
fn shutdown_sends_pending_records_first() {
    let mut peer = Peer::connect("example.org:443", RESPONSE);
    let mut stream = established(&mut peer);
    let before = peer.pipe.outbound.len();
    peer.pipe.blocked = 1;
    assert_eq!(peer.write(&mut stream, b"last"), Err(ErrorKind::Interrupted));
    assert_eq!(peer.shutdown(&mut stream), Ok(()));
    let mut expected = record(DATA, b"last");
    expected.extend(record(ALERT, &[]));
    assert_eq!(&peer.pipe.outbound[before..], &expected[..]);
}

#[test]
fn shutdown_propagates_transport_errors() {
    let mut peer = Peer::connect("example.org:443", RESPONSE);
    let mut stream = established(&mut peer);
    peer.pipe.broken = true;
    assert_eq!(peer.shutdown(&mut stream), Err(ErrorKind::TransportFailure));
    peer.pipe.broken = false;
    assert_eq!(peer.shutdown(&mut stream), Err(ErrorKind::TransportFailure));
    assert_eq!(stream.failure(), Some(ErrorKind::TransportFailure));
}

#[test]
fn session_accessors() {
    let mut peer = Peer::connect("example.org:443", b"xyz");
    peer.engine.max_message = 321;
    let mut stream = established(&mut peer);
    let mut out = vec![];
    assert_eq!(peer.read(&mut stream, &mut out, 1), Ok(1));
    match stream.state() {
        HandshakeState::Established(session, chain) => {
            assert_eq!(session.max_message(), 321);
            assert_eq!(session.get_buf(), b"yz");
            assert_eq!(session.closing(), Closing::Open);
            assert!(!session.peer_closed());
            assert_eq!(session.pending_input(), &record(ALERT, &[])[..]);
            assert!(chain.is_some());
        }
        _ => panic!("the session was to be established"),
    }
}

#[test]
fn actions_by_kind() {
    for action in [Action::Transmit, Action::Receive] {
        assert!(action.is_transport());
        assert!(!action.is_final());
    }
    for action in [
        Action::Initiate,
        Action::Negotiate,
        Action::Verify,
        Action::Decrypt,
        Action::Encrypt(3),
        Action::CloseNotify,
    ] {
        assert!(!action.is_transport());
        assert!(!action.is_final());
    }
    for action in [
        Action::Established,
        Action::Written(1),
        Action::Read(0),
        Action::Closed,
        Action::Failed(ErrorKind::Interrupted),
    ] {
        assert!(!action.is_transport());
        assert!(action.is_final());
    }
}
