//! One interception attempt as a state machine.
//!
//! The caller owns the connections, the timers and the TLS stacks. It feeds
//! each outcome of the work it was asked to do back as an [`Event`], and
//! [`Intercept::on_event`] answers with the next [`Action`]. The attempt ends
//! with exactly one terminal action: [`Action::Dispatch`] or [`Action::Fail`].
use vstd::prelude::*;

use crate::alpn::Protocol;
use crate::dispatch::{
    dispatch, dispatch_spec, dissector_hint, dissector_hint_spec, negotiated_protocol,
    protocol_of_selected, DissectorHint, InspectionKind,
};

verus! {

/// Why an interception attempt failed.
#[derive(PartialEq, Eq, Structural, Clone, Copy, Debug)]
pub enum InterceptionError {
    ClientHandshakeTimeout,
    ClientHandshakeFailed,
    UpstreamPrepareFailed,
    UpstreamHandshakeTimeout,
    UpstreamHandshakeFailed,
    NoFakeCertGenerated,
}

/// Result of reading the client's ClientHello under the handshake deadline.
pub enum HelloOutcome {
    Timeout,
    Failed,
    Parsed { sni: Option<String>, alpn_offer: Vec<Vec<u8>> },
}

/// Result of connecting to the upstream server under the handshake deadline.
pub enum UpstreamOutcome {
    /// The TLS stream to the upstream could not be set up.
    PrepareFailed,
    Timeout,
    Failed,
    /// Handshake done; the ALPN value the upstream server selected, if any.
    Established { selected_alpn: Option<Vec<u8>> },
}

/// Result of the background fetch of the impersonating certificate.
#[derive(PartialEq, Eq, Structural, Clone, Copy, Debug)]
pub enum CertOutcome {
    /// The fetch task could not be joined.
    JoinFailed,
    /// The certificate agent produced no certificate.
    Missing,
    Ready,
}

/// Result of completing the client handshake under the handshake deadline.
#[derive(PartialEq, Eq, Structural, Clone, Copy, Debug)]
pub enum ClientOutcome {
    /// The server configuration presenting the certificate could not be built.
    ConfigFailed,
    Timeout,
    Failed,
    Established,
}

/// An outcome of the work the caller was asked to do.
pub enum Event {
    /// Take the connections and start the attempt.
    Begin,
    ClientHello(HelloOutcome),
    /// Whether the upstream TLS configuration could be built.
    UpstreamConfigured(bool),
    Upstream(UpstreamOutcome),
    Cert(CertOutcome),
    Client(ClientOutcome),
}

/// What the caller has to do next.
pub enum Action {
    /// Read the ClientHello from the client, bounded by the deadline.
    ReadClientHello { timeout_ms: u64 },
    /// Build the upstream TLS configuration from the client's offer.
    PrepareUpstream { sni: Option<String>, alpn_offer: Vec<Vec<u8>> },
    /// Launch the certificate fetch for `cert_domain` in the background, then
    /// perform the upstream handshake bounded by the deadline.
    StartUpstream { cert_domain: String, timeout_ms: u64 },
    /// Wait for the background certificate fetch.
    AwaitCert,
    /// Finish the client handshake presenting the fetched certificate and
    /// advertising exactly `alpn` (nothing when `None`), bounded by the deadline.
    CompleteClientHandshake { alpn: Option<Vec<u8>>, timeout_ms: u64 },
    /// Hand both plaintext streams to the chosen inspection object, built with
    /// an inspection context at `inspection_depth`; mirrored traffic, if any,
    /// is tagged with `hint`.
    Dispatch {
        kind: InspectionKind,
        protocol: Protocol,
        hint: DissectorHint,
        inspection_depth: u64,
    },
    /// The attempt failed.
    Fail(InterceptionError),
    /// The event does not belong to the current phase, for example a second
    /// start on connections that were already taken. Nothing changed.
    Misuse,
}

/// Where an attempt stands.
pub enum Phase {
    /// The connections are not taken yet.
    Idle,
    ReadingHello,
    PreparingUpstream { cert_domain: String },
    UpstreamHandshake,
    AwaitingCert { selected_alpn: Option<Vec<u8>> },
    ClientHandshake { protocol: Protocol, has_alpn: bool },
    /// A terminal action was issued.
    Finished,
}

/// One interception attempt.
pub struct Intercept {
    pub phase: Phase,
    /// Host of the destination; replaced by the client's SNI once known.
    pub upstream_host: String,
    pub upstream_port: u16,
    /// Deadline applied to each handshake, in milliseconds.
    pub handshake_timeout_ms: u64,
    /// Inspection depth of the context the connection arrived in.
    pub inspection_depth: u32,
}

/// Whether `phase` expects `ev` at all.
pub open spec fn accepts(phase: Phase, ev: Event) -> bool {
    match phase {
        Phase::Idle => ev is Begin,
        Phase::ReadingHello => ev is ClientHello,
        Phase::PreparingUpstream { .. } => ev is UpstreamConfigured,
        Phase::UpstreamHandshake => ev is Upstream,
        Phase::AwaitingCert { .. } => ev is Cert,
        Phase::ClientHandshake { .. } => ev is Client,
        Phase::Finished => false,
    }
}

/// The SNI host name when the client sent a usable one.
pub open spec fn usable_sni(sni: Option<String>) -> Option<Seq<char>> {
    match sni {
        Some(s) => if s@.len() > 0 {
            Some(s@)
        } else {
            None
        },
        None => None,
    }
}

/// The name the impersonating certificate is fetched for: the SNI host when
/// present, else the configured destination host.
pub open spec fn cert_domain_spec(sni: Option<String>, host: Seq<char>) -> Seq<char> {
    match usable_sni(sni) {
        Some(s) => s,
        None => host,
    }
}

/// The bytes of a selected ALPN value, if any.
pub open spec fn selected_view(selected: Option<Vec<u8>>) -> Option<Seq<u8>> {
    match selected {
        Some(v) => Some(v@),
        None => None,
    }
}

/// The certificate domain: the SNI host when present, else `host`.
pub fn cert_domain(sni: &Option<String>, host: &String) -> (r: String)
    ensures
        r@ == cert_domain_spec(*sni, host@),
{
    match sni {
        Some(s) => {
            if !s.as_str().is_empty() {
                s.clone()
            } else {
                host.clone()
            }
        },
        None => host.clone(),
    }
}

impl Intercept {
    /// A fresh attempt on connections that are not taken yet.
    pub fn new(
        upstream_host: String,
        upstream_port: u16,
        handshake_timeout_ms: u64,
        inspection_depth: u32,
    ) -> (r: Intercept)
        ensures
            r.phase is Idle,
            r.upstream_host == upstream_host,
            r.upstream_port == upstream_port,
            r.handshake_timeout_ms == handshake_timeout_ms,
            r.inspection_depth == inspection_depth,
    {
        Intercept {
            phase: Phase::Idle,
            upstream_host,
            upstream_port,
            handshake_timeout_ms,
            inspection_depth,
        }
    }

    /// Whether the attempt has issued its terminal action.
    pub fn is_finished(&self) -> (r: bool)
        ensures
            r == (self.phase is Finished),
    {
        matches!(self.phase, Phase::Finished)
    }

    /// Advances the attempt by one outcome and says what to do next.
    pub fn on_event(&mut self, ev: Event) -> (r: Action)
        ensures
            final(self).upstream_port == old(self).upstream_port,
            final(self).handshake_timeout_ms == old(self).handshake_timeout_ms,
            final(self).inspection_depth == old(self).inspection_depth,
            !accepts(old(self).phase, ev) ==> (r is Misuse) && *final(self) == *old(self),
            // start: take the connections and read the ClientHello
            old(self).phase is Idle && ev is Begin ==> r == (Action::ReadClientHello {
                timeout_ms: old(self).handshake_timeout_ms,
            }) && final(self).phase is ReadingHello && final(self).upstream_host
                == old(self).upstream_host,
            // reading the ClientHello
            old(self).phase is ReadingHello && ev is ClientHello ==> match ev->ClientHello_0 {
                HelloOutcome::Timeout => r == Action::Fail(
                    InterceptionError::ClientHandshakeTimeout,
                ) && final(self).phase is Finished && final(self).upstream_host == old(self).upstream_host,
                HelloOutcome::Failed => r == Action::Fail(InterceptionError::ClientHandshakeFailed)
                    && final(self).phase is Finished && final(self).upstream_host == old(self).upstream_host,
                HelloOutcome::Parsed { sni, alpn_offer } => r == (Action::PrepareUpstream {
                    sni,
                    alpn_offer,
                }) && final(self).upstream_host@ == cert_domain_spec(
                    sni,
                    old(self).upstream_host@,
                ) && (final(self).phase is PreparingUpstream)
                    && final(self).phase->PreparingUpstream_cert_domain@ == cert_domain_spec(sni, old(self).upstream_host@),
            },
            // building the upstream configuration
            old(self).phase is PreparingUpstream && ev is UpstreamConfigured
                ==> final(self).upstream_host == old(self).upstream_host && if ev->UpstreamConfigured_0 {
                (r is StartUpstream)
                    && r->StartUpstream_cert_domain@ == old(self).phase->PreparingUpstream_cert_domain@
                    && r->StartUpstream_timeout_ms == old(self).handshake_timeout_ms
                    && final(self).phase is UpstreamHandshake
            } else {
                r == Action::Fail(InterceptionError::UpstreamPrepareFailed)
                    && final(self).phase is Finished
            },
            // the upstream handshake
            old(self).phase is UpstreamHandshake && ev is Upstream ==> final(self).upstream_host
                == old(self).upstream_host && match ev->Upstream_0 {
                UpstreamOutcome::PrepareFailed => r == Action::Fail(
                    InterceptionError::UpstreamPrepareFailed,
                ) && final(self).phase is Finished,
                UpstreamOutcome::Timeout => r == Action::Fail(
                    InterceptionError::UpstreamHandshakeTimeout,
                ) && final(self).phase is Finished,
                UpstreamOutcome::Failed => r == Action::Fail(
                    InterceptionError::UpstreamHandshakeFailed,
                ) && final(self).phase is Finished,
                UpstreamOutcome::Established { selected_alpn } => (r is AwaitCert) && (final(self).phase == (Phase::AwaitingCert { selected_alpn })),
            },
            // the certificate fetch
            old(self).phase is AwaitingCert && ev is Cert ==> final(self).upstream_host == old(self).upstream_host && if ev->Cert_0 is Ready {
                (r is CompleteClientHandshake)
                    && selected_view(r->CompleteClientHandshake_alpn) == selected_view(
                    old(self).phase->AwaitingCert_selected_alpn,
                ) && r->CompleteClientHandshake_timeout_ms == old(self).handshake_timeout_ms
                    && final(self).phase == (Phase::ClientHandshake {
                    protocol: negotiated_protocol(
                        selected_view(old(self).phase->AwaitingCert_selected_alpn),
                    ),
                    has_alpn: old(self).phase->AwaitingCert_selected_alpn is Some,
                })
            } else {
                r == Action::Fail(InterceptionError::NoFakeCertGenerated)
                    && final(self).phase is Finished
            },
            // the client handshake
            old(self).phase is ClientHandshake && ev is Client ==> final(self).upstream_host == old(self).upstream_host && final(self).phase is Finished && match ev->Client_0 {
                ClientOutcome::ConfigFailed => r == Action::Fail(
                    InterceptionError::ClientHandshakeFailed,
                ),
                ClientOutcome::Timeout => r == Action::Fail(
                    InterceptionError::ClientHandshakeTimeout,
                ),
                ClientOutcome::Failed => r == Action::Fail(InterceptionError::ClientHandshakeFailed),
                ClientOutcome::Established => r == (Action::Dispatch {
                    kind: dispatch_spec(
                        old(self).phase->ClientHandshake_protocol,
                        old(self).phase->ClientHandshake_has_alpn,
                    ),
                    protocol: old(self).phase->ClientHandshake_protocol,
                    hint: dissector_hint_spec(
                        old(self).phase->ClientHandshake_protocol,
                        old(self).upstream_port,
                    ),
                    inspection_depth: (old(self).inspection_depth + 1) as u64,
                }),
            },
    {
        match ev {
            Event::Begin => {
                if matches!(self.phase, Phase::Idle) {
                    self.phase = Phase::ReadingHello;
                    Action::ReadClientHello { timeout_ms: self.handshake_timeout_ms }
                } else {
                    Action::Misuse
                }
            },
            Event::ClientHello(outcome) => {
                if !matches!(self.phase, Phase::ReadingHello) {
                    return Action::Misuse;
                }
                match outcome {
                    HelloOutcome::Timeout => {
                        self.phase = Phase::Finished;
                        Action::Fail(InterceptionError::ClientHandshakeTimeout)
                    },
                    HelloOutcome::Failed => {
                        self.phase = Phase::Finished;
                        Action::Fail(InterceptionError::ClientHandshakeFailed)
                    },
                    HelloOutcome::Parsed { sni, alpn_offer } => {
                        let domain = cert_domain(&sni, &self.upstream_host);
                        self.upstream_host = domain.clone();
                        self.phase = Phase::PreparingUpstream { cert_domain: domain };
                        Action::PrepareUpstream { sni, alpn_offer }
                    },
                }
            },
            Event::UpstreamConfigured(ok) => {
                match &self.phase {
                    Phase::PreparingUpstream { cert_domain } => {
                        if ok {
                            let domain = cert_domain.clone();
                            self.phase = Phase::UpstreamHandshake;
                            Action::StartUpstream {
                                cert_domain: domain,
                                timeout_ms: self.handshake_timeout_ms,
                            }
                        } else {
                            self.phase = Phase::Finished;
                            Action::Fail(InterceptionError::UpstreamPrepareFailed)
                        }
                    },
                    _ => Action::Misuse,
                }
            },
            Event::Upstream(outcome) => {
                if !matches!(self.phase, Phase::UpstreamHandshake) {
                    return Action::Misuse;
                }
                match outcome {
                    UpstreamOutcome::PrepareFailed => {
                        self.phase = Phase::Finished;
                        Action::Fail(InterceptionError::UpstreamPrepareFailed)
                    },
                    UpstreamOutcome::Timeout => {
                        self.phase = Phase::Finished;
                        Action::Fail(InterceptionError::UpstreamHandshakeTimeout)
                    },
                    UpstreamOutcome::Failed => {
                        self.phase = Phase::Finished;
                        Action::Fail(InterceptionError::UpstreamHandshakeFailed)
                    },
                    UpstreamOutcome::Established { selected_alpn } => {
                        self.phase = Phase::AwaitingCert { selected_alpn };
                        Action::AwaitCert
                    },
                }
            },
            Event::Cert(outcome) => {
                match &self.phase {
                    Phase::AwaitingCert { selected_alpn } => {
                        match outcome {
                            CertOutcome::Ready => {
                                let (protocol, alpn) = match selected_alpn {
                                    Some(v) => {
                                        let p = protocol_of_selected(Some(v.as_slice()));
                                        (p, Some(copy_bytes(v)))
                                    },
                                    None => (protocol_of_selected(None), None),
                                };
                                let has_alpn = alpn.is_some();
                                self.phase = Phase::ClientHandshake { protocol, has_alpn };
                                Action::CompleteClientHandshake {
                                    alpn,
                                    timeout_ms: self.handshake_timeout_ms,
                                }
                            },
                            _ => {
                                self.phase = Phase::Finished;
                                Action::Fail(InterceptionError::NoFakeCertGenerated)
                            },
                        }
                    },
                    _ => Action::Misuse,
                }
            },
            Event::Client(outcome) => {
                match self.phase {
                    Phase::ClientHandshake { protocol, has_alpn } => {
                        self.phase = Phase::Finished;
                        match outcome {
                            ClientOutcome::ConfigFailed => Action::Fail(
                                InterceptionError::ClientHandshakeFailed,
                            ),
                            ClientOutcome::Timeout => Action::Fail(
                                InterceptionError::ClientHandshakeTimeout,
                            ),
                            ClientOutcome::Failed => Action::Fail(
                                InterceptionError::ClientHandshakeFailed,
                            ),
                            ClientOutcome::Established => Action::Dispatch {
                                kind: dispatch(protocol, has_alpn),
                                protocol,
                                hint: dissector_hint(protocol, self.upstream_port),
                                inspection_depth: self.inspection_depth as u64 + 1,
                            },
                        }
                    },
                    _ => Action::Misuse,
                }
            },
        }
    }
}

/// A copy of a byte string.
pub fn copy_bytes(v: &Vec<u8>) -> (r: Vec<u8>)
    ensures
        r@ == v@,
{
    let mut r: Vec<u8> = Vec::new();
    let mut i: usize = 0;
    while i < v.len()
        invariant
            0 <= i <= v@.len(),
            r@ == v@.subrange(0, i as int),
        decreases v@.len() - i,
    {
        r.push(v[i]);
        i = i + 1;
        proof {
            assert(r@ =~= v@.subrange(0, i as int));
        }
    }
    proof {
        assert(r@ =~= v@);
    }
    r
}

/// When the client sends no usable SNI, the certificate is fetched for the
/// configured destination host, and a non-blank host never yields a blank name.
pub proof fn lemma_cert_domain_falls_back_to_host(sni: Option<String>, host: Seq<char>)
    requires
        host.len() > 0,
    ensures
        cert_domain_spec(sni, host).len() > 0,
        usable_sni(sni) is None ==> cert_domain_spec(sni, host) == host,
{
}

/// Once the connections have been taken, starting again is always refused.
pub proof fn lemma_begin_only_once(phase: Phase)
    requires
        !(phase is Idle),
    ensures
        !accepts(phase, Event::Begin),
{
}

/// A finished attempt accepts no further event, so it issues no second
/// terminal action and no further handshake work.
pub proof fn lemma_finished_is_terminal(ev: Event)
    ensures
        !accepts(Phase::Finished, ev),
{
}

} // verus!
