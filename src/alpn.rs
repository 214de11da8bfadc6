//! ALPN identifiers known to the proxy and the inspection protocols they map to.
use vstd::prelude::*;

verus! {

/// Application protocols whose ALPN identifier the proxy recognises.
#[derive(PartialEq, Eq, Structural, Clone, Copy, Debug)]
pub enum AlpnProtocol {
    Http10,
    Http11,
    Http2,
    Http3,
    Ftp,
    Imap,
    Pop3,
    Nntp,
    Nnsp,
    Mqtt,
    DnsOverTls,
    DnsOverQuic,
    Smb,
}

/// Protocols that the inspection layer knows how to handle.
#[derive(PartialEq, Eq, Structural, Clone, Copy, Debug)]
pub enum Protocol {
    Unknown,
    Http1,
    Http2,
    Http3,
    Ftp,
    Imap,
    Pop3,
    Nntp,
    Nnsp,
    Mqtt,
    DnsOverTls,
    DnsOverQuic,
    Smb,
}

impl AlpnProtocol {
    /// The identifier carried on the wire for this protocol (ASCII bytes).
    pub open spec fn wire_spec(self) -> Seq<u8> {
        match self {
            // "http/1.0"
            AlpnProtocol::Http10 => seq![0x68u8, 0x74, 0x74, 0x70, 0x2f, 0x31, 0x2e, 0x30],
            // "http/1.1"
            AlpnProtocol::Http11 => seq![0x68u8, 0x74, 0x74, 0x70, 0x2f, 0x31, 0x2e, 0x31],
            // "h2"
            AlpnProtocol::Http2 => seq![0x68u8, 0x32],
            // "h3"
            AlpnProtocol::Http3 => seq![0x68u8, 0x33],
            // "ftp"
            AlpnProtocol::Ftp => seq![0x66u8, 0x74, 0x70],
            // "imap"
            AlpnProtocol::Imap => seq![0x69u8, 0x6d, 0x61, 0x70],
            // "pop3"
            AlpnProtocol::Pop3 => seq![0x70u8, 0x6f, 0x70, 0x33],
            // "nntp"
            AlpnProtocol::Nntp => seq![0x6eu8, 0x6e, 0x74, 0x70],
            // "nnsp"
            AlpnProtocol::Nnsp => seq![0x6eu8, 0x6e, 0x73, 0x70],
            // "mqtt"
            AlpnProtocol::Mqtt => seq![0x6du8, 0x71, 0x74, 0x74],
            // "dot"
            AlpnProtocol::DnsOverTls => seq![0x64u8, 0x6f, 0x74],
            // "doq"
            AlpnProtocol::DnsOverQuic => seq![0x64u8, 0x6f, 0x71],
            // "smb"
            AlpnProtocol::Smb => seq![0x73u8, 0x6d, 0x62],
        }
    }

    /// The inspection protocol that a negotiated ALPN value selects.
    pub open spec fn protocol_spec(self) -> Protocol {
        match self {
            AlpnProtocol::Http10 | AlpnProtocol::Http11 => Protocol::Http1,
            AlpnProtocol::Http2 => Protocol::Http2,
            AlpnProtocol::Http3 => Protocol::Http3,
            AlpnProtocol::Ftp => Protocol::Ftp,
            AlpnProtocol::Imap => Protocol::Imap,
            AlpnProtocol::Pop3 => Protocol::Pop3,
            AlpnProtocol::Nntp => Protocol::Nntp,
            AlpnProtocol::Nnsp => Protocol::Nnsp,
            AlpnProtocol::Mqtt => Protocol::Mqtt,
            AlpnProtocol::DnsOverTls => Protocol::DnsOverTls,
            AlpnProtocol::DnsOverQuic => Protocol::DnsOverQuic,
            AlpnProtocol::Smb => Protocol::Smb,
        }
    }

    /// The wire identifier of this protocol.
    pub fn to_buf(&self) -> (r: Vec<u8>)
        ensures
            r@ == self.wire_spec(),
    {
        let r: Vec<u8> = match self {
            AlpnProtocol::Http10 => vec![0x68u8, 0x74, 0x74, 0x70, 0x2f, 0x31, 0x2e, 0x30],
            AlpnProtocol::Http11 => vec![0x68u8, 0x74, 0x74, 0x70, 0x2f, 0x31, 0x2e, 0x31],
            AlpnProtocol::Http2 => vec![0x68u8, 0x32],
            AlpnProtocol::Http3 => vec![0x68u8, 0x33],
            AlpnProtocol::Ftp => vec![0x66u8, 0x74, 0x70],
            AlpnProtocol::Imap => vec![0x69u8, 0x6d, 0x61, 0x70],
            AlpnProtocol::Pop3 => vec![0x70u8, 0x6f, 0x70, 0x33],
            AlpnProtocol::Nntp => vec![0x6eu8, 0x6e, 0x74, 0x70],
            AlpnProtocol::Nnsp => vec![0x6eu8, 0x6e, 0x73, 0x70],
            AlpnProtocol::Mqtt => vec![0x6du8, 0x71, 0x74, 0x74],
            AlpnProtocol::DnsOverTls => vec![0x64u8, 0x6f, 0x74],
            AlpnProtocol::DnsOverQuic => vec![0x64u8, 0x6f, 0x71],
            AlpnProtocol::Smb => vec![0x73u8, 0x6d, 0x62],
        };
        proof {
            assert(r@ =~= self.wire_spec());
        }
        r
    }

    /// Recognises a negotiated ALPN value; `None` for a value outside the table.
    pub fn from_buf(buf: &[u8]) -> (r: Option<AlpnProtocol>)
        ensures
            r == alpn_of(buf@),
    {
        let all: [AlpnProtocol; 13] = [
            AlpnProtocol::Http10,
            AlpnProtocol::Http11,
            AlpnProtocol::Http2,
            AlpnProtocol::Http3,
            AlpnProtocol::Ftp,
            AlpnProtocol::Imap,
            AlpnProtocol::Pop3,
            AlpnProtocol::Nntp,
            AlpnProtocol::Nnsp,
            AlpnProtocol::Mqtt,
            AlpnProtocol::DnsOverTls,
            AlpnProtocol::DnsOverQuic,
            AlpnProtocol::Smb,
        ];
        let mut i: usize = 0;
        while i < 13
            invariant
                0 <= i <= 13,
                all@.len() == 13,
                forall|j: int| 0 <= j < i ==> all@[j].wire_spec() != buf@,
            decreases 13 - i,
        {
            let candidate = all[i];
            let id = candidate.to_buf();
            if bytes_equal(buf, id.as_slice()) {
                proof {
                    lemma_wire_injective();
                }
                return Some(candidate);
            }
            i = i + 1;
        }
        proof {
            assert forall|p: AlpnProtocol| p.wire_spec() != buf@ by {
                match p {
                    AlpnProtocol::Http10 => assert(all@[0].wire_spec() != buf@),
                    AlpnProtocol::Http11 => assert(all@[1].wire_spec() != buf@),
                    AlpnProtocol::Http2 => assert(all@[2].wire_spec() != buf@),
                    AlpnProtocol::Http3 => assert(all@[3].wire_spec() != buf@),
                    AlpnProtocol::Ftp => assert(all@[4].wire_spec() != buf@),
                    AlpnProtocol::Imap => assert(all@[5].wire_spec() != buf@),
                    AlpnProtocol::Pop3 => assert(all@[6].wire_spec() != buf@),
                    AlpnProtocol::Nntp => assert(all@[7].wire_spec() != buf@),
                    AlpnProtocol::Nnsp => assert(all@[8].wire_spec() != buf@),
                    AlpnProtocol::Mqtt => assert(all@[9].wire_spec() != buf@),
                    AlpnProtocol::DnsOverTls => assert(all@[10].wire_spec() != buf@),
                    AlpnProtocol::DnsOverQuic => assert(all@[11].wire_spec() != buf@),
                    AlpnProtocol::Smb => assert(all@[12].wire_spec() != buf@),
                }
            }
        }
        None
    }

    /// The inspection protocol that this negotiated ALPN value selects.
    pub fn protocol(&self) -> (r: Protocol)
        ensures
            r == self.protocol_spec(),
    {
        match self {
            AlpnProtocol::Http10 | AlpnProtocol::Http11 => Protocol::Http1,
            AlpnProtocol::Http2 => Protocol::Http2,
            AlpnProtocol::Http3 => Protocol::Http3,
            AlpnProtocol::Ftp => Protocol::Ftp,
            AlpnProtocol::Imap => Protocol::Imap,
            AlpnProtocol::Pop3 => Protocol::Pop3,
            AlpnProtocol::Nntp => Protocol::Nntp,
            AlpnProtocol::Nnsp => Protocol::Nnsp,
            AlpnProtocol::Mqtt => Protocol::Mqtt,
            AlpnProtocol::DnsOverTls => Protocol::DnsOverTls,
            AlpnProtocol::DnsOverQuic => Protocol::DnsOverQuic,
            AlpnProtocol::Smb => Protocol::Smb,
        }
    }
}

/// The known ALPN protocol whose identifier is `buf`, if there is one.
pub open spec fn alpn_of(buf: Seq<u8>) -> Option<AlpnProtocol> {
    if exists|p: AlpnProtocol| p.wire_spec() == buf {
        Some(choose|p: AlpnProtocol| p.wire_spec() == buf)
    } else {
        None
    }
}

/// Distinct known protocols have distinct wire identifiers.
pub proof fn lemma_wire_injective()
    ensures
        forall|p: AlpnProtocol, q: AlpnProtocol| p.wire_spec() == q.wire_spec() ==> p == q,
{
    assert forall|p: AlpnProtocol, q: AlpnProtocol| p.wire_spec() == q.wire_spec() implies p
        == q by {
        let a = p.wire_spec();
        let b = q.wire_spec();
        if p != q {
            assert(a.len() != b.len() || a[0] != b[0] || a[1] != b[1] || a[2] != b[2]
                || a[a.len() - 1] != b[b.len() - 1]);
        }
    }
}

/// Identifying a protocol's own wire identifier gives that protocol back.
pub proof fn lemma_alpn_round_trip(p: AlpnProtocol)
    ensures
        alpn_of(p.wire_spec()) == Some(p),
{
    lemma_wire_injective();
}

impl Protocol {
    /// Whether packet-capture tools have a dissector for this protocol.
    pub open spec fn has_dissector_spec(self) -> bool {
        !(self is Unknown)
    }

    /// Whether packet-capture tools have a dissector for this protocol.
    pub fn has_dissector(&self) -> (r: bool)
        ensures
            r == self.has_dissector_spec(),
    {
        !matches!(self, Protocol::Unknown)
    }
}

/// Byte-wise equality of two slices.
pub fn bytes_equal(a: &[u8], b: &[u8]) -> (r: bool)
    ensures
        r == (a@ == b@),
{
    if a.len() != b.len() {
        return false;
    }
    let mut i: usize = 0;
    while i < a.len()
        invariant
            a@.len() == b@.len(),
            0 <= i <= a@.len(),
            forall|j: int| 0 <= j < i ==> a@[j] == b@[j],
        decreases a@.len() - i,
    {
        if a[i] != b[i] {
            return false;
        }
        i = i + 1;
    }
    proof {
        assert(a@ =~= b@);
    }
    true
}

} // verus!
