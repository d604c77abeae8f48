//! Per-connection context carried from acceptance through dispatch.
use vstd::prelude::*;

use crate::addr::SocksAddr;

verus! {

/// Whether a session carries a byte stream or datagrams.
#[derive(Clone, Copy, PartialEq, Eq, Structural, Debug)]
pub enum Network {
    /// A reliable byte stream (CONNECT).
    Tcp,
    /// Datagrams (UDP_ASSOCIATE).
    Udp,
}

/// Per-connection context: destination, network kind and optional
/// routing metadata.  Mutable during the handshake, immutable once
/// handed to the dispatcher.
#[derive(Clone, Debug)]
pub struct Session {
    /// Where the client asked to go.
    pub destination: SocksAddr,
    /// Stream or datagram.
    pub network: Network,
    /// Outbound interface to bind, when pinned by configuration.
    pub iface: Option<String>,
    /// Packet mark for policy routing, when pinned by configuration.
    pub packet_mark: Option<u32>,
}

impl Session {
    /// A fresh stream session toward the all-zero address; the
    /// handshake fills in the real destination.
    pub fn new() -> (r: Self)
        ensures
            r.network == Network::Tcp,
            r.iface is None,
            r.packet_mark is None,
            r.destination.wf(),
            (r.destination@ matches crate::addr::AddrModel::V4 { ip, port } && ip =~= seq![
                0u8,
                0u8,
                0u8,
                0u8,
            ] && port == 0),
    {
        Session {
            destination: SocksAddr::any_ipv4(),
            network: Network::Tcp,
            iface: None,
            packet_mark: None,
        }
    }

    /// A fresh datagram session, as built for a UDP association.
    pub fn new_udp() -> (r: Self)
        ensures
            r.network == Network::Udp,
            r.iface is None,
            r.packet_mark is None,
            r.destination.wf(),
            (r.destination@ matches crate::addr::AddrModel::V4 { ip, port } && ip =~= seq![
                0u8,
                0u8,
                0u8,
                0u8,
            ] && port == 0),
    {
        Session {
            destination: SocksAddr::any_ipv4(),
            network: Network::Udp,
            iface: None,
            packet_mark: None,
        }
    }
}

} // verus!
