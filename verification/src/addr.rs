//! SOCKS5 address codec.
//!
//! A `SocksAddr` is an IPv4, IPv6 or domain-name destination plus a
//! port.  On the wire it is a one-byte type tag, the address bytes
//! (length-prefixed for a domain) and a big-endian two-byte port.
use vstd::prelude::*;

use crate::error::{Error, ProtocolKind};

verus! {

/// Wire tag for an IPv4 address (four bytes follow).
pub const ATYP_V4: u8 = 1;
/// Wire tag for a domain name (one length byte, then the name).
pub const ATYP_DOMAIN: u8 = 3;
/// Wire tag for an IPv6 address (sixteen bytes follow).
pub const ATYP_V6: u8 = 4;

/// Mathematical model of a destination address.
#[verifier::ext_equal]
pub enum AddrModel {
    /// IPv4 octets plus port.
    V4 { ip: Seq<u8>, port: u16 },
    /// Domain-name bytes plus port.
    Domain { name: Seq<u8>, port: u16 },
    /// IPv6 octets plus port.
    V6 { ip: Seq<u8>, port: u16 },
}

/// A model is well formed when its address part has the length the
/// wire format can carry.
pub open spec fn addr_model_wf(m: AddrModel) -> bool {
    match m {
        AddrModel::V4 { ip, .. } => ip.len() == 4,
        AddrModel::Domain { name, .. } => name.len() <= 255,
        AddrModel::V6 { ip, .. } => ip.len() == 16,
    }
}

/// High byte of a big-endian port.
pub open spec fn port_hi(port: u16) -> u8 {
    (port / 256) as u8
}

/// Low byte of a big-endian port.
pub open spec fn port_lo(port: u16) -> u8 {
    (port % 256) as u8
}

/// Port value read back from its two big-endian bytes.
pub open spec fn port_val(hi: u8, lo: u8) -> u16 {
    (hi * 256 + lo) as u16
}

/// The two port bytes round-trip through `port_val`.
pub proof fn lemma_port_round_trip(port: u16)
    ensures
        port_val(port_hi(port), port_lo(port)) == port,
{
    assert(port / 256 * 256 + port % 256 == port) by {
        vstd::arithmetic::div_mod::lemma_fundamental_div_mod(port as int, 256);
    }
}

/// The exact byte sequence an address occupies on the wire.
pub open spec fn wire_of(m: AddrModel) -> Seq<u8> {
    match m {
        AddrModel::V4 { ip, port } => seq![ATYP_V4] + ip + seq![port_hi(port), port_lo(port)],
        AddrModel::Domain { name, port } => seq![ATYP_DOMAIN, name.len() as u8] + name + seq![
            port_hi(port),
            port_lo(port),
        ],
        AddrModel::V6 { ip, port } => seq![ATYP_V6] + ip + seq![port_hi(port), port_lo(port)],
    }
}

/// Deterministic parse of an address from the front of a byte
/// sequence: the parsed model and how many bytes it occupied, or
/// nothing when no well-formed address starts the sequence.
pub open spec fn parse_wire(s: Seq<u8>) -> Option<(AddrModel, int)> {
    if s.len() >= 1 && s[0] == ATYP_V4 {
        if s.len() >= 7 {
            Some((AddrModel::V4 { ip: s.subrange(1, 5), port: port_val(s[5], s[6]) }, 7))
        } else {
            None
        }
    } else if s.len() >= 1 && s[0] == ATYP_DOMAIN {
        if s.len() >= 2 && s.len() >= 4 + s[1] {
            Some(
                (
                    AddrModel::Domain {
                        name: s.subrange(2, 2 + s[1]),
                        port: port_val(s[2 + s[1]], s[3 + s[1]]),
                    },
                    4 + s[1],
                ),
            )
        } else {
            None
        }
    } else if s.len() >= 1 && s[0] == ATYP_V6 {
        if s.len() >= 19 {
            Some((AddrModel::V6 { ip: s.subrange(1, 17), port: port_val(s[17], s[18]) }, 19))
        } else {
            None
        }
    } else {
        None
    }
}

/// Parsing is the inverse of serialization: a well-formed address
/// followed by anything parses back to itself, consuming exactly its
/// own wire bytes.
pub proof fn lemma_addr_round_trip(m: AddrModel, rest: Seq<u8>)
    requires
        addr_model_wf(m),
    ensures
        parse_wire(wire_of(m) + rest) == Some((m, wire_of(m).len() as int)),
{
    let s = wire_of(m) + rest;
    lemma_port_round_trip(
        match m {
            AddrModel::V4 { port, .. } => port,
            AddrModel::Domain { port, .. } => port,
            AddrModel::V6 { port, .. } => port,
        },
    );
    match m {
        AddrModel::V4 { ip, port } => {
            assert(s.subrange(1, 5) =~= ip);
            assert(parse_wire(s) == Some((m, 7int)));
        }
        AddrModel::Domain { name, port } => {
            assert(s[1] == name.len() as u8);
            assert(s.subrange(2, 2 + name.len() as u8) =~= name);
            assert(parse_wire(s) == Some((m, 4 + name.len() as u8 as int)));
        }
        AddrModel::V6 { ip, port } => {
            assert(s.subrange(1, 17) =~= ip);
            assert(parse_wire(s) == Some((m, 19int)));
        }
    }
}

/// A destination address as carried in a SOCKS5 request or reply.
#[derive(Clone, Debug)]
pub enum SocksAddr {
    /// IPv4 address and port.
    V4 { ip: [u8; 4], port: u16 },
    /// Domain name (raw bytes, at most 255 of them) and port.
    Domain { name: Vec<u8>, port: u16 },
    /// IPv6 address and port.
    V6 { ip: [u8; 16], port: u16 },
}

impl View for SocksAddr {
    type V = AddrModel;

    open spec fn view(&self) -> AddrModel {
        match self {
            SocksAddr::V4 { ip, port } => AddrModel::V4 { ip: ip@, port: *port },
            SocksAddr::Domain { name, port } => AddrModel::Domain { name: name@, port: *port },
            SocksAddr::V6 { ip, port } => AddrModel::V6 { ip: ip@, port: *port },
        }
    }
}

impl SocksAddr {
    /// Well-formedness: the address part fits the wire format.
    pub open spec fn wf(&self) -> bool {
        addr_model_wf(self@)
    }

    /// The all-zero IPv4 address with port zero, used in failure
    /// replies that carry no meaningful bound address.
    pub fn any_ipv4() -> (r: Self)
        ensures
            r@ matches AddrModel::V4 { ip, port } && ip =~= seq![0u8, 0u8, 0u8, 0u8] && port == 0,
            r.wf(),
    {
        let ip: [u8; 4] = [0, 0, 0, 0];
        SocksAddr::V4 { ip, port: 0 }
    }

    /// The destination port.
    pub fn port(&self) -> (r: u16)
        ensures
            r == match self@ {
                AddrModel::V4 { port, .. } => port,
                AddrModel::Domain { port, .. } => port,
                AddrModel::V6 { port, .. } => port,
            },
    {
        match self {
            SocksAddr::V4 { port, .. } => *port,
            SocksAddr::Domain { port, .. } => *port,
            SocksAddr::V6 { port, .. } => *port,
        }
    }

    /// Appends this address's exact wire bytes to `out`.
    pub fn write_to(&self, out: &mut Vec<u8>)
        requires
            self.wf(),
        ensures
            final(out)@ == old(out)@ + wire_of(self@),
    {
        match self {
            SocksAddr::V4 { ip, port } => {
                out.push(ATYP_V4);
                for i in 0..4
                    invariant
                        out@ == old(out)@ + seq![ATYP_V4] + ip@.subrange(0, i as int),
                {
                    out.push(ip[i]);
                    assert(ip@.subrange(0, i + 1) =~= ip@.subrange(0, i as int).push(ip@[i as int]));
                }
                out.push((*port / 256) as u8);
                out.push((*port % 256) as u8);
                assert(ip@.subrange(0, 4) =~= ip@);
                assert(final(out)@ =~= old(out)@ + wire_of(self@));
            }
            SocksAddr::Domain { name, port } => {
                out.push(ATYP_DOMAIN);
                out.push(name.len() as u8);
                for i in 0..name.len()
                    invariant
                        name@.len() <= 255,
                        out@ == old(out)@ + seq![ATYP_DOMAIN, name@.len() as u8] + name@.subrange(
                            0,
                            i as int,
                        ),
                {
                    out.push(name[i]);
                    assert(name@.subrange(0, i + 1) =~= name@.subrange(0, i as int).push(
                        name@[i as int],
                    ));
                }
                out.push((*port / 256) as u8);
                out.push((*port % 256) as u8);
                assert(name@.subrange(0, name@.len() as int) =~= name@);
                assert(final(out)@ =~= old(out)@ + wire_of(self@));
            }
            SocksAddr::V6 { ip, port } => {
                out.push(ATYP_V6);
                for i in 0..16
                    invariant
                        out@ == old(out)@ + seq![ATYP_V6] + ip@.subrange(0, i as int),
                {
                    out.push(ip[i]);
                    assert(ip@.subrange(0, i + 1) =~= ip@.subrange(0, i as int).push(ip@[i as int]));
                }
                out.push((*port / 256) as u8);
                out.push((*port % 256) as u8);
                assert(ip@.subrange(0, 16) =~= ip@);
                assert(final(out)@ =~= old(out)@ + wire_of(self@));
            }
        }
    }

    /// This address's exact wire bytes.
    pub fn wire_bytes(&self) -> (r: Vec<u8>)
        requires
            self.wf(),
        ensures
            r@ == wire_of(self@),
    {
        let mut out: Vec<u8> = Vec::new();
        self.write_to(&mut out);
        out
    }
}

/// Parses an address from the front of `buf`, as the request reader
/// does after the fixed request header.  Returns the address and the
/// number of bytes it occupied; a sequence that no well-formed address
/// starts is malformed.
pub fn parse_addr(buf: &[u8]) -> (r: Result<(SocksAddr, usize), Error>)
    ensures
        match r {
            Ok((a, n)) => parse_wire(buf@) == Some((a@, n as int)) && a.wf(),
            Err(e) => parse_wire(buf@) is None && e == Error::Protocol(ProtocolKind::Malformed),
        },
{
    if buf.len() >= 1 && buf[0] == ATYP_V4 {
        if buf.len() >= 7 {
            let mut ip: [u8; 4] = [0, 0, 0, 0];
            for i in 0..4
                invariant
                    buf@.len() >= 7,
                    buf@[0] == ATYP_V4,
                    forall|j: int| 0 <= j < i ==> ip@[j] == buf@[1 + j],
            {
                ip[i] = buf[1 + i];
            }
            let port = (buf[5] as u16) * 256 + (buf[6] as u16);
            assert(ip@ =~= buf@.subrange(1, 5));
            Ok((SocksAddr::V4 { ip, port }, 7))
        } else {
            Err(Error::Protocol(ProtocolKind::Malformed))
        }
    } else if buf.len() >= 1 && buf[0] == ATYP_DOMAIN {
        if buf.len() >= 2 && buf.len() >= 4 + buf[1] as usize {
            let l = buf[1] as usize;
            let name = vstd::slice::slice_to_vec(&buf[2..2 + l]);
            let port = (buf[2 + l] as u16) * 256 + (buf[3 + l] as u16);
            assert(name@ =~= buf@.subrange(2, 2 + buf@[1]));
            Ok((SocksAddr::Domain { name, port }, 4 + l))
        } else {
            Err(Error::Protocol(ProtocolKind::Malformed))
        }
    } else if buf.len() >= 1 && buf[0] == ATYP_V6 {
        if buf.len() >= 19 {
            let mut ip: [u8; 16] = [0; 16];
            for i in 0..16
                invariant
                    buf@.len() >= 19,
                    buf@[0] == ATYP_V6,
                    forall|j: int| 0 <= j < i ==> ip@[j] == buf@[1 + j],
            {
                ip[i] = buf[1 + i];
            }
            let port = (buf[17] as u16) * 256 + (buf[18] as u16);
            assert(ip@ =~= buf@.subrange(1, 17));
            Ok((SocksAddr::V6 { ip, port }, 19))
        } else {
            Err(Error::Protocol(ProtocolKind::Malformed))
        }
    } else {
        Err(Error::Protocol(ProtocolKind::Malformed))
    }
}

} // verus!
