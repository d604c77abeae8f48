//! Inbound SOCKS5 protocol state machine.
//!
//! The machine is pure: each step takes the bytes one protocol
//! message carries and returns the reply bytes to send and what to do
//! next.  The I/O driver around it reads messages, feeds them in, and
//! performs the returned actions; once a step reaches a terminal
//! phase no further step is accepted, so a connection is handed to
//! the dispatcher at most once.
use vstd::prelude::*;

use crate::addr::{wire_of, AddrModel, SocksAddr};
use crate::buf::{bm_bytes, bm_extend_from_slice, bm_new, bm_put_u8};
use crate::error::{Error, ProtocolKind};
use crate::session::{Network, Session};
use crate::SOCKS_VERSION;

verus! {

/// Auth method: no authentication required.
pub const AUTH_NO_AUTH: u8 = 0;
/// Auth method: username/password.
pub const AUTH_USER_PASS: u8 = 2;
/// Pseudo-method: none of the offered methods is acceptable.
pub const AUTH_NO_METHODS: u8 = 255;
/// Sub-negotiation version byte of the username/password exchange.
pub const AUTH_SUB_VERSION: u8 = 1;

/// Reply code: request granted.
pub const REP_SUCCEEDED: u8 = 0;
/// Reply code: command not supported.
pub const REP_COMMAND_NOT_SUPPORTED: u8 = 7;

/// Command byte: CONNECT.
pub const CMD_CONNECT: u8 = 1;
/// Command byte: UDP_ASSOCIATE.
pub const CMD_UDP_ASSOCIATE: u8 = 3;

/// The auth method this server picks from an offer: user/password is
/// preferred over no-auth; with neither, no method is acceptable.
pub open spec fn chosen_method(methods: Seq<u8>) -> u8 {
    if methods.contains(AUTH_USER_PASS) {
        AUTH_USER_PASS
    } else if methods.contains(AUTH_NO_AUTH) {
        AUTH_NO_AUTH
    } else {
        AUTH_NO_METHODS
    }
}

/// Whether a user/password pair is configured.  Credentials are
/// compared as raw byte sequences; no text encoding is assumed.
pub open spec fn creds_ok(db: Seq<(Vec<u8>, Vec<u8>)>, user: Seq<u8>, pass: Seq<u8>) -> bool {
    exists|i: int| 0 <= i < db.len() && db[i].0@ == user && db[i].1@ == pass
}

/// True iff `v` occurs in `s`.
fn slice_contains(s: &[u8], v: u8) -> (r: bool)
    ensures
        r == s@.contains(v),
{
    let mut i: usize = 0;
    while i < s.len()
        invariant
            i <= s@.len(),
            forall|j: int| 0 <= j < i ==> s@[j] != v,
        decreases s@.len() - i,
    {
        if s[i] == v {
            return true;
        }
        i += 1;
    }
    false
}

/// True iff the two byte strings are equal.
fn bytes_eq(a: &[u8], b: &[u8]) -> (r: bool)
    ensures
        r == (a@ == b@),
{
    if a.len() != b.len() {
        return false;
    }
    let mut i: usize = 0;
    while i < a.len()
        invariant
            a@.len() == b@.len(),
            i <= a@.len(),
            forall|j: int| 0 <= j < i ==> a@[j] == b@[j],
        decreases a@.len() - i,
    {
        if a[i] != b[i] {
            return false;
        }
        i += 1;
    }
    proof {
        assert(a@ =~= b@);
    }
    true
}

/// Picks the auth method to answer an offer with.
pub fn select_auth_method(methods: &[u8]) -> (r: u8)
    ensures
        r == chosen_method(methods@),
{
    if slice_contains(methods, AUTH_USER_PASS) {
        AUTH_USER_PASS
    } else if slice_contains(methods, AUTH_NO_AUTH) {
        AUTH_NO_AUTH
    } else {
        AUTH_NO_METHODS
    }
}

/// Looks a user/password pair up in the configured credential list,
/// comparing raw bytes.
pub fn verify_credentials(users: &Vec<(Vec<u8>, Vec<u8>)>, user: &[u8], pass: &[u8]) -> (r: bool)
    ensures
        r == creds_ok(users@, user@, pass@),
{
    let mut i: usize = 0;
    while i < users.len()
        invariant
            i <= users@.len(),
            forall|j: int| 0 <= j < i ==> !(users@[j].0@ == user@ && users@[j].1@ == pass@),
        decreases users@.len() - i,
    {
        if bytes_eq(users[i].0.as_slice(), user) && bytes_eq(users[i].1.as_slice(), pass) {
            return true;
        }
        i += 1;
    }
    false
}

/// The exact bytes of a `[version, rep, reserved, bound address]`
/// reply.
pub open spec fn reply_wire(rep: u8, bnd: AddrModel) -> Seq<u8> {
    seq![SOCKS_VERSION, rep, 0u8] + wire_of(bnd)
}

/// Encodes a request reply carrying the given bound address.
pub fn encode_reply(rep: u8, bnd: &SocksAddr) -> (r: bytes::BytesMut)
    requires
        bnd.wf(),
    ensures
        bm_bytes(r) == reply_wire(rep, bnd@),
{
    let mut b = bm_new();
    bm_put_u8(&mut b, SOCKS_VERSION);
    bm_put_u8(&mut b, rep);
    bm_put_u8(&mut b, 0);
    let addr = bnd.wire_bytes();
    bm_extend_from_slice(&mut b, addr.as_slice());
    proof {
        assert(bm_bytes(b) =~= reply_wire(rep, bnd@));
    }
    b
}

/// Where the handshake stands.
#[derive(Clone, Copy, PartialEq, Eq, Structural, Debug)]
pub enum Phase {
    /// Expecting the two greeting bytes: version and method count.
    Greeting,
    /// Expecting that many method bytes.
    Methods {
        /// How many method bytes the greeting announced.
        n: u8,
    },
    /// Expecting one username/password record.
    Auth,
    /// Expecting the request header and address.
    Request,
    /// Terminal: the connection was handed over for this network kind.
    Done {
        /// Which network kind was dispatched.
        network: Network,
    },
    /// Terminal: the connection is to be closed.
    Failed,
}

/// What the driver must do after a successful request step.
#[derive(Clone, Copy, PartialEq, Eq, Structural, Debug)]
pub enum RequestAction {
    /// Reply success with the local bound address, then hand the
    /// stream and session to the dispatcher.
    Connect,
    /// Bind a datagram socket, reply success with its address, and
    /// relay datagrams until the control stream closes.
    UdpAssociate,
}

/// The inbound handshake state machine.  Steps must be fed in
/// protocol order; each requires the phase its message belongs to,
/// and the two terminal phases accept no step at all.
pub struct Handshake {
    /// Current protocol phase.
    pub phase: Phase,
    /// The session under construction.
    pub session: Session,
}

impl Handshake {
    /// A handshake at its start, building the given session.
    pub fn start(session: Session) -> (r: Self)
        ensures
            r.phase == Phase::Greeting,
            r.session == session,
    {
        Handshake { phase: Phase::Greeting, session }
    }

    /// True iff no further protocol bytes are accepted.
    pub open spec fn is_terminal(&self) -> bool {
        self.phase is Done || self.phase is Failed
    }

    /// Consumes the greeting: version byte and method count.
    pub fn on_greeting(&mut self, version: u8, n_methods: u8) -> (r: Result<(), Error>)
        requires
            old(self).phase == Phase::Greeting,
        ensures
            final(self).session == old(self).session,
            version != SOCKS_VERSION ==> (r matches Err(e) && e == Error::Protocol(
                ProtocolKind::UnsupportedVersion,
            ) && final(self).phase == Phase::Failed),
            version == SOCKS_VERSION && n_methods == 0 ==> (r matches Err(e) && e
                == Error::Protocol(ProtocolKind::Malformed) && final(self).phase == Phase::Failed),
            version == SOCKS_VERSION && n_methods > 0 ==> r is Ok && final(self).phase
                == (Phase::Methods { n: n_methods }),
    {
        if version != SOCKS_VERSION {
            self.phase = Phase::Failed;
            Err(Error::Protocol(ProtocolKind::UnsupportedVersion))
        } else if n_methods == 0 {
            self.phase = Phase::Failed;
            Err(Error::Protocol(ProtocolKind::Malformed))
        } else {
            self.phase = Phase::Methods { n: n_methods };
            Ok(())
        }
    }

    /// Consumes the offered methods.  Returns the two-byte method
    /// reply; with no acceptable method the handshake fails after
    /// that reply is sent.
    pub fn on_methods(&mut self, methods: &[u8]) -> (out: ([u8; 2], Result<(), Error>))
        requires
            old(self).phase matches Phase::Methods { n } && methods@.len() == n as int,
        ensures
            final(self).session == old(self).session,
            out.0@ =~= seq![SOCKS_VERSION, chosen_method(methods@)],
            chosen_method(methods@) == AUTH_USER_PASS ==> out.1 is Ok && final(self).phase
                == Phase::Auth,
            chosen_method(methods@) == AUTH_NO_AUTH ==> out.1 is Ok && final(self).phase
                == Phase::Request,
            chosen_method(methods@) == AUTH_NO_METHODS ==> (out.1 matches Err(e) && e
                == Error::AuthFailure && final(self).phase == Phase::Failed),
    {
        let chosen = select_auth_method(methods);
        let reply: [u8; 2] = [SOCKS_VERSION, chosen];
        if chosen == AUTH_USER_PASS {
            self.phase = Phase::Auth;
            (reply, Ok(()))
        } else if chosen == AUTH_NO_AUTH {
            self.phase = Phase::Request;
            (reply, Ok(()))
        } else {
            self.phase = Phase::Failed;
            (reply, Err(Error::AuthFailure))
        }
    }

    /// Consumes one username/password record and checks it against
    /// the configured credentials.  Returns the two-byte status
    /// reply; a mismatch fails the handshake after that reply is
    /// sent.
    pub fn on_auth(
        &mut self,
        users: &Vec<(Vec<u8>, Vec<u8>)>,
        user: &[u8],
        pass: &[u8],
    ) -> (out: ([u8; 2], Result<(), Error>))
        requires
            old(self).phase == Phase::Auth,
        ensures
            final(self).session == old(self).session,
            out.0@ =~= seq![
                AUTH_SUB_VERSION,
                if creds_ok(users@, user@, pass@) {
                    0u8
                } else {
                    1u8
                },
            ],
            creds_ok(users@, user@, pass@) ==> out.1 is Ok && final(self).phase == Phase::Request,
            !creds_ok(users@, user@, pass@) ==> (out.1 matches Err(e) && e == Error::AuthFailure
                && final(self).phase == Phase::Failed),
    {
        if verify_credentials(users, user, pass) {
            self.phase = Phase::Request;
            ([AUTH_SUB_VERSION, 0], Ok(()))
        } else {
            self.phase = Phase::Failed;
            ([AUTH_SUB_VERSION, 1], Err(Error::AuthFailure))
        }
    }

    /// Consumes the request header (version and command bytes) and
    /// the parsed destination address.  On CONNECT the session's
    /// destination becomes that address; on UDP_ASSOCIATE the session
    /// is left alone and the driver opens the datagram relay.
    pub fn on_request(&mut self, version: u8, cmd: u8, dst: SocksAddr) -> (r: Result<
        RequestAction,
        Error,
    >)
        requires
            old(self).phase == Phase::Request,
            dst.wf(),
        ensures
            version != SOCKS_VERSION ==> (r matches Err(e) && e == Error::Protocol(
                ProtocolKind::UnsupportedVersion,
            ) && final(self).phase == Phase::Failed && final(self).session == old(self).session),
            version == SOCKS_VERSION && cmd == CMD_CONNECT ==> (r matches Ok(a) && a
                == RequestAction::Connect && final(self).phase == (Phase::Done {
                network: Network::Tcp,
            }) && final(self).session.destination == dst && final(self).session.network
                == Network::Tcp && final(self).session.iface == old(self).session.iface
                && final(self).session.packet_mark == old(self).session.packet_mark),
            version == SOCKS_VERSION && cmd == CMD_UDP_ASSOCIATE ==> (r matches Ok(a) && a
                == RequestAction::UdpAssociate && final(self).phase == (Phase::Done {
                network: Network::Udp,
            }) && final(self).session == old(self).session),
            version == SOCKS_VERSION && cmd != CMD_CONNECT && cmd != CMD_UDP_ASSOCIATE ==> (r
                matches Err(e) && e == Error::Protocol(ProtocolKind::UnsupportedCommand)
                && final(self).phase == Phase::Failed && final(self).session == old(self).session),
    {
        if version != SOCKS_VERSION {
            self.phase = Phase::Failed;
            Err(Error::Protocol(ProtocolKind::UnsupportedVersion))
        } else if cmd == CMD_CONNECT {
            self.session.destination = dst;
            self.session.network = Network::Tcp;
            self.phase = Phase::Done { network: Network::Tcp };
            Ok(RequestAction::Connect)
        } else if cmd == CMD_UDP_ASSOCIATE {
            self.phase = Phase::Done { network: Network::Udp };
            Ok(RequestAction::UdpAssociate)
        } else {
            self.phase = Phase::Failed;
            Err(Error::Protocol(ProtocolKind::UnsupportedCommand))
        }
    }
}

/// A handshake that offers only no-auth is answered with no-auth, so
/// no credential exchange follows.
pub proof fn lemma_no_auth_only(methods: Seq<u8>)
    requires
        methods.contains(AUTH_NO_AUTH),
        !methods.contains(AUTH_USER_PASS),
    ensures
        chosen_method(methods) == AUTH_NO_AUTH,
{
}

/// A handshake that offers user/password picks it, whatever else is
/// offered.
pub proof fn lemma_user_pass_preferred(methods: Seq<u8>)
    requires
        methods.contains(AUTH_USER_PASS),
    ensures
        chosen_method(methods) == AUTH_USER_PASS,
{
}

} // verus!
