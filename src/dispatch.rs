//! Choice of the inspection object after a successful interception.
use vstd::prelude::*;

use crate::alpn::{alpn_of, AlpnProtocol, Protocol};

verus! {

/// Which inspection object takes over the two plaintext streams.
#[derive(PartialEq, Eq, Structural, Clone, Copy, Debug)]
pub enum InspectionKind {
    /// HTTP/1 interception.
    H1,
    /// HTTP/2 interception.
    H2,
    /// No ALPN was negotiated: the stream is inspected by content.
    StreamInspect,
    /// An ALPN value the proxy does not handle was agreed: the stream is
    /// treated as opaque and is not reinterpreted.
    StreamUnknown,
}

/// How mirrored traffic is tagged for a capture sink.
#[derive(PartialEq, Eq, Structural, Clone, Copy, Debug)]
pub enum DissectorHint {
    /// Tagged with the recognised protocol.
    Protocol(Protocol),
    /// Tagged with the upstream TLS port.
    TlsPort(u16),
}

/// The inspection protocol selected by the upstream's negotiated ALPN value.
pub open spec fn negotiated_protocol(selected: Option<Seq<u8>>) -> Protocol {
    match selected {
        Some(v) => match alpn_of(v) {
            Some(p) => p.protocol_spec(),
            None => Protocol::Unknown,
        },
        None => Protocol::Unknown,
    }
}

/// The dispatch table: HTTP/1 and HTTP/2 go to their own objects; anything
/// else is opaque when an ALPN value was agreed, content-inspected otherwise.
pub open spec fn dispatch_spec(protocol: Protocol, has_alpn: bool) -> InspectionKind {
    match protocol {
        Protocol::Http1 => InspectionKind::H1,
        Protocol::Http2 => InspectionKind::H2,
        _ => if has_alpn {
            InspectionKind::StreamUnknown
        } else {
            InspectionKind::StreamInspect
        },
    }
}

/// The capture tag: the protocol when it has a dissector, else the port.
pub open spec fn dissector_hint_spec(protocol: Protocol, port: u16) -> DissectorHint {
    if protocol.has_dissector_spec() {
        DissectorHint::Protocol(protocol)
    } else {
        DissectorHint::TlsPort(port)
    }
}

/// The inspection protocol selected by the ALPN value that the upstream
/// server agreed to, `Unknown` when there is none or it is not recognised.
pub fn protocol_of_selected(selected: Option<&[u8]>) -> (r: Protocol)
    ensures
        r == negotiated_protocol(
            match selected {
                Some(v) => Some(v@),
                None => None,
            },
        ),
{
    match selected {
        Some(v) => match AlpnProtocol::from_buf(v) {
            Some(p) => p.protocol(),
            None => Protocol::Unknown,
        },
        None => Protocol::Unknown,
    }
}

/// Picks the inspection object from the negotiated protocol and from whether
/// any ALPN value was agreed at all.
pub fn dispatch(protocol: Protocol, has_alpn: bool) -> (r: InspectionKind)
    ensures
        r == dispatch_spec(protocol, has_alpn),
{
    match protocol {
        Protocol::Http1 => InspectionKind::H1,
        Protocol::Http2 => InspectionKind::H2,
        _ => {
            if has_alpn {
                InspectionKind::StreamUnknown
            } else {
                InspectionKind::StreamInspect
            }
        },
    }
}

/// The tag for mirrored traffic: the protocol where a dissector exists for
/// it, else the upstream port.
pub fn dissector_hint(protocol: Protocol, port: u16) -> (r: DissectorHint)
    ensures
        r == dissector_hint_spec(protocol, port),
{
    if protocol.has_dissector() {
        DissectorHint::Protocol(protocol)
    } else {
        DissectorHint::TlsPort(port)
    }
}

/// Without any negotiated ALPN value the stream is always inspected by
/// content, never treated as an unknown protocol.
pub proof fn lemma_no_alpn_inspects_content()
    ensures
        dispatch_spec(negotiated_protocol(None), false) == InspectionKind::StreamInspect,
{
}

/// An agreed ALPN value outside the known table always yields the opaque
/// stream object, whatever the traffic looks like.
pub proof fn lemma_unknown_alpn_is_opaque(v: Seq<u8>)
    requires
        alpn_of(v) is None,
    ensures
        dispatch_spec(negotiated_protocol(Some(v)), true) == InspectionKind::StreamUnknown,
{
}

/// An agreed ALPN value from the known table selects its own protocol, and the
/// dispatch follows that protocol alone.
pub proof fn lemma_known_alpn_dispatch(p: AlpnProtocol)
    ensures
        negotiated_protocol(Some(p.wire_spec())) == p.protocol_spec(),
        dispatch_spec(negotiated_protocol(Some(p.wire_spec())), true) == (match p.protocol_spec() {
            Protocol::Http1 => InspectionKind::H1,
            Protocol::Http2 => InspectionKind::H2,
            _ => InspectionKind::StreamUnknown,
        }),
{
    crate::alpn::lemma_alpn_round_trip(p);
}

} // verus!
