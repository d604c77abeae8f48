//! Inbound listener port sets, as patched over the management
//! surface.
use vstd::prelude::*;

verus! {

/// The optional listener ports of the inbound side.
#[derive(Clone, Copy, PartialEq, Eq, Structural, Debug)]
pub struct Ports {
    /// Plain HTTP proxy port.
    pub port: Option<u16>,
    /// SOCKS5 proxy port.
    pub socks_port: Option<u16>,
    /// Redirect port.
    pub redir_port: Option<u16>,
    /// Transparent proxy port.
    pub tproxy_port: Option<u16>,
    /// Mixed-protocol port.
    pub mixed_port: Option<u16>,
}

/// One field of a patch: the patched value where given, else the
/// current one.
pub open spec fn patched(patch: Option<u16>, current: Option<u16>) -> Option<u16> {
    match patch {
        Some(p) => Some(p),
        None => current,
    }
}

impl Ports {
    /// Applies a partial update: every port named in the patch
    /// replaces the current one, every other port is kept.
    pub fn merge(patch: &Ports, current: &Ports) -> (r: Ports)
        ensures
            r.port == patched(patch.port, current.port),
            r.socks_port == patched(patch.socks_port, current.socks_port),
            r.redir_port == patched(patch.redir_port, current.redir_port),
            r.tproxy_port == patched(patch.tproxy_port, current.tproxy_port),
            r.mixed_port == patched(patch.mixed_port, current.mixed_port),
    {
        Ports {
            port: match patch.port {
                Some(p) => Some(p),
                None => current.port,
            },
            socks_port: match patch.socks_port {
                Some(p) => Some(p),
                None => current.socks_port,
            },
            redir_port: match patch.redir_port {
                Some(p) => Some(p),
                None => current.redir_port,
            },
            tproxy_port: match patch.tproxy_port {
                Some(p) => Some(p),
                None => current.tproxy_port,
            },
            mixed_port: match patch.mixed_port {
                Some(p) => Some(p),
                None => current.mixed_port,
            },
        }
    }
}

} // verus!
