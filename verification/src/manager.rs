//! Outbound handler registry.
//!
//! Built once per configuration load from an ordered leaf-outbound
//! list and an ordered group list.  Names live in one shared
//! namespace and are unique; a duplicate definition overwrites the
//! earlier one (last wins).  Any bad definition aborts the whole
//! build: nothing is partially applied.
use vstd::prelude::*;

use vstd::string::StringExecFns;

use crate::error::Error;

verus! {

/// The generic plugin options blob of a leaf definition, as the
/// configuration hands it over.
#[derive(Clone, Debug)]
pub struct PluginOpts {
    /// Obfuscation mode.
    pub mode: Option<String>,
    /// Host header / server name.
    pub host: Option<String>,
    /// HTTP path, for plugins that speak it.
    pub path: Option<String>,
    /// Wrap the transport in TLS?
    pub tls: Option<bool>,
}

/// Options of the simple-obfuscation plugin.
#[derive(Clone, Debug)]
pub struct SimpleOBFSOption {
    /// Obfuscation mode; only `http` and `tls` exist.
    pub mode: String,
    /// Host header to mimic.
    pub host: String,
}

/// Options of the v2ray obfuscation plugin.
#[derive(Clone, Debug)]
pub struct V2RayOBFSOption {
    /// Transport mode; only `websocket` is supported.
    pub mode: String,
    /// Host header.
    pub host: String,
    /// Websocket path.
    pub path: String,
    /// Wrap in TLS?
    pub tls: bool,
}

/// A resolved obfuscation plugin.
#[derive(Clone, Debug)]
pub enum OBFSOption {
    /// The simple-obfuscation plugin.
    Simple(SimpleOBFSOption),
    /// The v2ray plugin.
    V2Ray(V2RayOBFSOption),
}

/// One tunnel-protocol leaf definition.
#[derive(Clone, Debug)]
pub struct OutboundSs {
    /// Handler name.
    pub name: String,
    /// Server host.
    pub server: String,
    /// Server port.
    pub port: u16,
    /// Shared secret.
    pub password: String,
    /// Cipher name.
    pub cipher: String,
    /// Obfuscation plugin name, if any.
    pub plugin: Option<String>,
    /// The plugin's options; required when a plugin is named.
    pub plugin_opts: Option<PluginOpts>,
}

/// An ordered leaf-outbound definition.
#[derive(Clone, Debug)]
pub enum OutboundProxyProtocol {
    /// The well-known direct-connect singleton.
    Direct,
    /// The well-known black-hole singleton.
    Reject,
    /// A tunnel-protocol leaf.
    Ss(OutboundSs),
    /// A kind this build does not support yet: accepted and skipped
    /// with a diagnostic, never a build failure.
    Other {
        /// Declared name.
        name: String,
        /// Declared kind label.
        kind: String,
    },
}

/// What every group definition carries: a name, ordered member
/// names, and the health-check configuration.
#[derive(Clone, Debug)]
pub struct OutboundGroup {
    /// Group name.
    pub name: String,
    /// Member names, in declaration order.
    pub proxies: Vec<String>,
    /// Probe URL of the group's health check.
    pub url: String,
    /// Probe interval in seconds; zero means never auto-probe.
    pub interval: u64,
    /// Lazy probing flag.
    pub lazy: bool,
}

/// An ordered group definition, tagged with its selection policy.
#[derive(Clone, Debug)]
pub enum OutboundGroupProtocol {
    /// Chain the members outer-to-inner.
    Relay(OutboundGroup),
    /// Route through the alive member with lowest latency.
    UrlTest(OutboundGroup),
    /// Route through the first alive member.
    Fallback(OutboundGroup),
    /// Distribute by stable session-key hashing.
    LoadBalance(OutboundGroup),
    /// A manually pinned member.
    Select(OutboundGroup),
}

/// The definition a group protocol carries.
pub open spec fn group_def(g: OutboundGroupProtocol) -> OutboundGroup {
    match g {
        OutboundGroupProtocol::Relay(d) => d,
        OutboundGroupProtocol::UrlTest(d) => d,
        OutboundGroupProtocol::Fallback(d) => d,
        OutboundGroupProtocol::LoadBalance(d) => d,
        OutboundGroupProtocol::Select(d) => d,
    }
}

/// A registered egress mechanism.
#[derive(Clone, Debug)]
pub enum OutboundHandler {
    /// Connect directly.
    Direct,
    /// Swallow the connection.
    Reject,
    /// A tunnel-protocol leaf with its resolved plugin.
    Shadowsocks {
        /// Handler name.
        name: String,
        /// Server host.
        server: String,
        /// Server port.
        port: u16,
        /// Shared secret.
        password: String,
        /// Cipher name.
        cipher: String,
        /// Resolved obfuscation plugin, if any.
        plugin: Option<OBFSOption>,
    },
    /// Chain members outer-to-inner; any hop failure fails the chain.
    Relay {
        /// Member names.
        members: Vec<String>,
    },
    /// Route through the alive member with lowest measured latency.
    UrlTest {
        /// Member names.
        members: Vec<String>,
        /// Health-check probe URL.
        url: String,
        /// Health-check interval in seconds.
        interval: u64,
        /// Lazy probing flag.
        lazy: bool,
    },
    /// Route through the first alive member.
    Fallback {
        /// Member names.
        members: Vec<String>,
        /// Health-check probe URL.
        url: String,
        /// Health-check interval in seconds.
        interval: u64,
        /// Lazy probing flag.
        lazy: bool,
    },
    /// Distribute across alive members by stable hashing.
    LoadBalance {
        /// Member names.
        members: Vec<String>,
        /// Health-check probe URL.
        url: String,
        /// Health-check interval in seconds.
        interval: u64,
        /// Lazy probing flag.
        lazy: bool,
    },
    /// A manually pinned member, defaulting to the first declared.
    Select {
        /// Member names.
        members: Vec<String>,
        /// Index of the pinned member.
        current: usize,
    },
}

/// Is this plugin name one of the supported kinds?
pub open spec fn plugin_known(p: Seq<char>) -> bool {
    p == "obfs"@ || p == "v2ray-plugin"@
}

/// A leaf's plugin configuration is acceptable: either no plugin, or
/// a known plugin name with its options present.
pub open spec fn ss_config_ok(s: OutboundSs) -> bool {
    match s.plugin {
        None => true,
        Some(p) => plugin_known(p@) && s.plugin_opts is Some,
    }
}

/// A leaf definition that cannot abort the build is acceptable.
pub open spec fn outbound_ok(o: OutboundProxyProtocol) -> bool {
    match o {
        OutboundProxyProtocol::Ss(s) => ss_config_ok(s),
        _ => true,
    }
}

/// Present options convert to the simple-obfuscation plugin iff a
/// valid mode is named.
pub open spec fn simple_obfs_ok(o: PluginOpts) -> bool {
    match o.mode {
        Some(m) => m@ == "http"@ || m@ == "tls"@,
        None => false,
    }
}

/// Present options convert to the v2ray plugin iff the websocket
/// mode is named.
pub open spec fn v2ray_obfs_ok(o: PluginOpts) -> bool {
    match o.mode {
        Some(m) => m@ == "websocket"@,
        None => false,
    }
}

/// The view a missing optional string defaults to: empty.
pub open spec fn opt_str_view(o: Option<String>) -> Seq<char> {
    match o {
        Some(s) => s@,
        None => Seq::empty(),
    }
}

/// Field-for-field: `r` is the simple-obfuscation reading of `o`.
pub open spec fn simple_obfs_matches(o: PluginOpts, r: SimpleOBFSOption) -> bool {
    &&& r.mode@ == o.mode.unwrap()@
    &&& r.host@ == opt_str_view(o.host)
}

/// Field-for-field: `r` is the v2ray reading of `o`.
pub open spec fn v2ray_obfs_matches(o: PluginOpts, r: V2RayOBFSOption) -> bool {
    &&& r.mode@ == o.mode.unwrap()@
    &&& r.host@ == opt_str_view(o.host)
    &&& r.path@ == opt_str_view(o.path)
    &&& r.tls == (o.tls == Some(true))
}

/// Mathematical image of a resolved plugin, over views.
pub enum ObfsModel {
    /// The simple-obfuscation plugin.
    Simple {
        /// Obfuscation mode.
        mode: Seq<char>,
        /// Host header to mimic.
        host: Seq<char>,
    },
    /// The v2ray plugin.
    V2Ray {
        /// Transport mode.
        mode: Seq<char>,
        /// Host header.
        host: Seq<char>,
        /// Websocket path.
        path: Seq<char>,
        /// Wrap in TLS?
        tls: bool,
    },
}

/// The model of a resolved plugin value.
pub open spec fn obfs_model(o: OBFSOption) -> ObfsModel {
    match o {
        OBFSOption::Simple(s) => ObfsModel::Simple { mode: s.mode@, host: s.host@ },
        OBFSOption::V2Ray(v) => ObfsModel::V2Ray {
            mode: v.mode@,
            host: v.host@,
            path: v.path@,
            tls: v.tls,
        },
    }
}

/// The model of an optional resolved plugin.
pub open spec fn plugin_model(p: Option<OBFSOption>) -> Option<ObfsModel> {
    match p {
        Some(o) => Some(obfs_model(o)),
        None => None,
    }
}

/// What plugin an acceptable leaf resolves to: a conversion failure
/// of present options degrades to "no plugin options" rather than an
/// error.
pub open spec fn resolved_plugin_model(s: OutboundSs) -> Option<ObfsModel> {
    match s.plugin {
        None => None,
        Some(pl) => if pl@ == "obfs"@ {
            if simple_obfs_ok(s.plugin_opts.unwrap()) {
                Some(
                    ObfsModel::Simple {
                        mode: s.plugin_opts.unwrap().mode.unwrap()@,
                        host: opt_str_view(s.plugin_opts.unwrap().host),
                    },
                )
            } else {
                None
            }
        } else {
            if v2ray_obfs_ok(s.plugin_opts.unwrap()) {
                Some(
                    ObfsModel::V2Ray {
                        mode: s.plugin_opts.unwrap().mode.unwrap()@,
                        host: opt_str_view(s.plugin_opts.unwrap().host),
                        path: opt_str_view(s.plugin_opts.unwrap().path),
                        tls: s.plugin_opts.unwrap().tls == Some(true),
                    },
                )
            } else {
                None
            }
        },
    }
}

/// Converts present plugin options to the simple-obfuscation plugin.
pub fn try_simple_obfs(o: &PluginOpts) -> (r: Option<SimpleOBFSOption>)
    ensures
        r is Some <==> simple_obfs_ok(*o),
        r matches Some(so) ==> simple_obfs_matches(*o, so),
{
    match &o.mode {
        Some(m) => {
            if *m == String::from_str("http") || *m == String::from_str("tls") {
                let host = match &o.host {
                    Some(h) => h.clone(),
                    None => String::new(),
                };
                Some(SimpleOBFSOption { mode: m.clone(), host })
            } else {
                None
            }
        }
        None => None,
    }
}

/// Converts present plugin options to the v2ray plugin.
pub fn try_v2ray_obfs(o: &PluginOpts) -> (r: Option<V2RayOBFSOption>)
    ensures
        r is Some <==> v2ray_obfs_ok(*o),
        r matches Some(vo) ==> v2ray_obfs_matches(*o, vo),
{
    match &o.mode {
        Some(m) => {
            if *m == String::from_str("websocket") {
                let host = match &o.host {
                    Some(h) => h.clone(),
                    None => String::new(),
                };
                let path = match &o.path {
                    Some(p) => p.clone(),
                    None => String::new(),
                };
                let tls = match o.tls {
                    Some(t) => t,
                    None => false,
                };
                Some(V2RayOBFSOption { mode: m.clone(), host, path, tls })
            } else {
                None
            }
        }
        None => None,
    }
}

/// Resolves a leaf's optional obfuscation plugin.  A named plugin
/// with absent options, or an unknown plugin name, is a
/// configuration error; an option blob that fails to convert is
/// treated as no plugin options.
pub fn resolve_plugin(s: &OutboundSs) -> (r: Result<Option<OBFSOption>, Error>)
    ensures
        r is Ok <==> ss_config_ok(*s),
        r matches Ok(p) ==> plugin_model(p) == resolved_plugin_model(*s),
        r matches Err(e) ==> (e matches Error::InvalidConfig(m) && (s.plugin matches Some(pl) && (
        if !plugin_known(pl@) {
            m@ == "unsupported plugin: "@ + pl@
        } else {
            m@ == "plugin_opts is required for plugin obfs"@
        }))),
{
    match &s.plugin {
        None => Ok(None),
        Some(pl) => {
            if *pl == String::from_str("obfs") {
                match &s.plugin_opts {
                    None => Err(
                        Error::InvalidConfig(
                            String::from_str("plugin_opts is required for plugin obfs"),
                        ),
                    ),
                    Some(opts) => match try_simple_obfs(opts) {
                        Some(so) => Ok(Some(OBFSOption::Simple(so))),
                        None => Ok(None),
                    },
                }
            } else if *pl == String::from_str("v2ray-plugin") {
                match &s.plugin_opts {
                    None => Err(
                        Error::InvalidConfig(
                            String::from_str("plugin_opts is required for plugin obfs"),
                        ),
                    ),
                    Some(opts) => match try_v2ray_obfs(opts) {
                        Some(vo) => Ok(Some(OBFSOption::V2Ray(vo))),
                        None => Ok(None),
                    },
                }
            } else {
                let mut msg = String::from_str("unsupported plugin: ");
                msg.append(pl.as_str());
                Err(Error::InvalidConfig(msg))
            }
        }
    }
}

/// The name a leaf definition registers under, if it registers one.
pub open spec fn leaf_name(o: OutboundProxyProtocol) -> Option<Seq<char>> {
    match o {
        OutboundProxyProtocol::Direct => Some("DIRECT"@),
        OutboundProxyProtocol::Reject => Some("REJECT"@),
        OutboundProxyProtocol::Ss(s) => Some(s.name@),
        OutboundProxyProtocol::Other { .. } => None,
    }
}

/// The names the first `n` leaf definitions register.
pub open spec fn leaf_names(outs: Seq<OutboundProxyProtocol>, n: int) -> Set<Seq<char>>
    decreases n,
{
    if n <= 0 {
        Set::empty()
    } else {
        match leaf_name(outs[n - 1]) {
            Some(nm) => leaf_names(outs, n - 1).insert(nm),
            None => leaf_names(outs, n - 1),
        }
    }
}

/// Every member of the group is an already-registered name.
pub open spec fn group_ok(names: Set<Seq<char>>, g: OutboundGroup) -> bool {
    forall|i: int| 0 <= i < g.proxies@.len() ==> names.contains(g.proxies@[i]@)
}

/// The namespace after the first `n` groups have registered.
pub open spec fn names_with_groups(
    names: Set<Seq<char>>,
    gs: Seq<OutboundGroupProtocol>,
    n: int,
) -> Set<Seq<char>>
    decreases n,
{
    if n <= 0 {
        names
    } else {
        names_with_groups(names, gs, n - 1).insert(group_def(gs[n - 1]).name@)
    }
}

/// The first `n` groups resolve: each one's members already exist
/// when it is reached, groups being resolved in declaration order
/// after all leaves.
pub open spec fn groups_ok(names: Set<Seq<char>>, gs: Seq<OutboundGroupProtocol>, n: int) -> bool
    decreases n,
{
    if n <= 0 {
        true
    } else {
        groups_ok(names, gs, n - 1) && group_ok(
            names_with_groups(names, gs, n - 1),
            group_def(gs[n - 1]),
        )
    }
}

/// A whole configuration load succeeds iff every leaf is acceptable
/// and every group resolves.
pub open spec fn config_ok(
    outs: Seq<OutboundProxyProtocol>,
    gs: Seq<OutboundGroupProtocol>,
) -> bool {
    (forall|i: int| 0 <= i < outs.len() ==> outbound_ok(outs[i])) && groups_ok(
        leaf_names(outs, outs.len() as int),
        gs,
        gs.len() as int,
    )
}

/// The full namespace a successful load registers.
pub open spec fn loaded_names(
    outs: Seq<OutboundProxyProtocol>,
    gs: Seq<OutboundGroupProtocol>,
) -> Set<Seq<char>> {
    names_with_groups(leaf_names(outs, outs.len() as int), gs, gs.len() as int)
}

/// Mathematical image of a registered handler, over views.
pub enum HandlerModel {
    /// Connect directly.
    Direct,
    /// Swallow the connection.
    Reject,
    /// A tunnel-protocol leaf.
    Shadowsocks {
        /// Handler name.
        name: Seq<char>,
        /// Server host.
        server: Seq<char>,
        /// Server port.
        port: u16,
        /// Shared secret.
        password: Seq<char>,
        /// Cipher name.
        cipher: Seq<char>,
        /// Resolved obfuscation plugin, if any.
        plugin: Option<ObfsModel>,
    },
    /// Chain members outer-to-inner.
    Relay {
        /// Member names.
        members: Seq<Seq<char>>,
    },
    /// Route through the alive member with lowest latency.
    UrlTest {
        /// Member names.
        members: Seq<Seq<char>>,
        /// Probe URL.
        url: Seq<char>,
        /// Probe interval.
        interval: u64,
        /// Lazy probing flag.
        lazy: bool,
    },
    /// Route through the first alive member.
    Fallback {
        /// Member names.
        members: Seq<Seq<char>>,
        /// Probe URL.
        url: Seq<char>,
        /// Probe interval.
        interval: u64,
        /// Lazy probing flag.
        lazy: bool,
    },
    /// Distribute by stable session-key hashing.
    LoadBalance {
        /// Member names.
        members: Seq<Seq<char>>,
        /// Probe URL.
        url: Seq<char>,
        /// Probe interval.
        interval: u64,
        /// Lazy probing flag.
        lazy: bool,
    },
    /// A manually pinned member.
    Select {
        /// Member names.
        members: Seq<Seq<char>>,
        /// Index of the pinned member.
        current: int,
    },
}

/// The views of a list of names.
pub open spec fn names_view(v: Seq<String>) -> Seq<Seq<char>> {
    v.map_values(|s: String| s@)
}

/// The model of a registered handler value.
pub open spec fn handler_model(h: OutboundHandler) -> HandlerModel {
    match h {
        OutboundHandler::Direct => HandlerModel::Direct,
        OutboundHandler::Reject => HandlerModel::Reject,
        OutboundHandler::Shadowsocks { name, server, port, password, cipher, plugin } => HandlerModel::Shadowsocks {
            name: name@,
            server: server@,
            port,
            password: password@,
            cipher: cipher@,
            plugin: plugin_model(plugin),
        },
        OutboundHandler::Relay { members } => HandlerModel::Relay { members: names_view(members@) },
        OutboundHandler::UrlTest { members, url, interval, lazy } => HandlerModel::UrlTest {
            members: names_view(members@),
            url: url@,
            interval,
            lazy,
        },
        OutboundHandler::Fallback { members, url, interval, lazy } => HandlerModel::Fallback {
            members: names_view(members@),
            url: url@,
            interval,
            lazy,
        },
        OutboundHandler::LoadBalance { members, url, interval, lazy } => HandlerModel::LoadBalance {
            members: names_view(members@),
            url: url@,
            interval,
            lazy,
        },
        OutboundHandler::Select { members, current } => HandlerModel::Select {
            members: names_view(members@),
            current: current as int,
        },
    }
}

/// The handler a name-registering leaf definition builds.
pub open spec fn leaf_handler_model(o: OutboundProxyProtocol) -> HandlerModel {
    match o {
        OutboundProxyProtocol::Direct => HandlerModel::Direct,
        OutboundProxyProtocol::Reject => HandlerModel::Reject,
        OutboundProxyProtocol::Ss(s) => HandlerModel::Shadowsocks {
            name: s.name@,
            server: s.server@,
            port: s.port,
            password: s.password@,
            cipher: s.cipher@,
            plugin: resolved_plugin_model(s),
        },
        OutboundProxyProtocol::Other { .. } => vstd::pervasive::arbitrary(),
    }
}

/// The handler a group definition builds.
pub open spec fn group_handler_model(g: OutboundGroupProtocol) -> HandlerModel {
    match g {
        OutboundGroupProtocol::Relay(d) => HandlerModel::Relay { members: names_view(d.proxies@) },
        OutboundGroupProtocol::UrlTest(d) => HandlerModel::UrlTest {
            members: names_view(d.proxies@),
            url: d.url@,
            interval: d.interval,
            lazy: d.lazy,
        },
        OutboundGroupProtocol::Fallback(d) => HandlerModel::Fallback {
            members: names_view(d.proxies@),
            url: d.url@,
            interval: d.interval,
            lazy: d.lazy,
        },
        OutboundGroupProtocol::LoadBalance(d) => HandlerModel::LoadBalance {
            members: names_view(d.proxies@),
            url: d.url@,
            interval: d.interval,
            lazy: d.lazy,
        },
        OutboundGroupProtocol::Select(d) => HandlerModel::Select {
            members: names_view(d.proxies@),
            current: 0,
        },
    }
}

/// What the first `n` leaf definitions leave registered under `nm`:
/// the later definition wins a duplicate name.
pub open spec fn leaf_built(
    outs: Seq<OutboundProxyProtocol>,
    n: int,
    nm: Seq<char>,
) -> Option<HandlerModel>
    decreases n,
{
    if n <= 0 {
        None
    } else if leaf_name(outs[n - 1]) == Some(nm) {
        Some(leaf_handler_model(outs[n - 1]))
    } else {
        leaf_built(outs, n - 1, nm)
    }
}

/// What a load leaves registered under `nm` after all leaves and the
/// first `n` groups: the later definition wins a duplicate name.
pub open spec fn built(
    outs: Seq<OutboundProxyProtocol>,
    gs: Seq<OutboundGroupProtocol>,
    n: int,
    nm: Seq<char>,
) -> Option<HandlerModel>
    decreases n,
{
    if n <= 0 {
        leaf_built(outs, outs.len() as int, nm)
    } else if group_def(gs[n - 1]).name@ == nm {
        Some(group_handler_model(gs[n - 1]))
    } else {
        built(outs, gs, n - 1, nm)
    }
}

/// The handler a successful load registers under each name: the
/// model of the last definition declaring that name, groups after
/// leaves, or nothing when no definition declares it.
pub open spec fn built_handler(
    outs: Seq<OutboundProxyProtocol>,
    gs: Seq<OutboundGroupProtocol>,
    nm: Seq<char>,
) -> Option<HandlerModel> {
    built(outs, gs, gs.len() as int, nm)
}

/// The diagnostic of a failed load names its cause: an unknown
/// plugin, a known plugin whose options are absent, or a group
/// member missing when its group is resolved.
pub open spec fn bad_config_named(
    outs: Seq<OutboundProxyProtocol>,
    gs: Seq<OutboundGroupProtocol>,
    msg: Seq<char>,
) -> bool {
    ||| exists|i: int|
        0 <= i < outs.len() && (#[trigger] outs[i] matches OutboundProxyProtocol::Ss(s)
            && s.plugin matches Some(pl) && !plugin_known(pl@) && msg == "unsupported plugin: "@
            + pl@)
    ||| exists|i: int|
        0 <= i < outs.len() && (#[trigger] outs[i] matches OutboundProxyProtocol::Ss(s)
            && s.plugin matches Some(pl) && plugin_known(pl@) && s.plugin_opts is None && msg
            == "plugin_opts is required for plugin obfs"@)
    ||| exists|k: int, j: int|
        0 <= k < gs.len() && 0 <= j < group_def(gs[k]).proxies@.len()
            && !names_with_groups(leaf_names(outs, outs.len() as int), gs, k).contains(
            #[trigger] group_def(gs[k]).proxies@[j]@,
        ) && msg == "unknown group member: "@ + group_def(gs[k]).proxies@[j]@
}

/// A resolvable prefix of the group list stays resolvable.
proof fn lemma_groups_ok_prefix(
    names: Set<Seq<char>>,
    gs: Seq<OutboundGroupProtocol>,
    n: int,
    m: int,
)
    requires
        0 <= n <= m,
        groups_ok(names, gs, m),
    ensures
        groups_ok(names, gs, n),
    decreases m,
{
    if n < m {
        lemma_groups_ok_prefix(names, gs, n, m - 1);
    }
}

/// Builds one leaf entry: its registry name and handler, nothing for
/// a kind this build skips, or the configuration error that aborts
/// the load.
pub fn build_leaf(o: &OutboundProxyProtocol) -> (r: Result<
    Option<(String, OutboundHandler)>,
    Error,
>)
    ensures
        r is Ok <==> outbound_ok(*o),
        r matches Ok(entry) ==> match entry {
            Some(p) => leaf_name(*o) == Some(p.0@),
            None => leaf_name(*o) is None,
        },
        r matches Ok(Some(p)) ==> handler_model(p.1) == leaf_handler_model(*o),
        r matches Err(e) ==> (*o matches OutboundProxyProtocol::Ss(s) && !ss_config_ok(s) && (
        e matches Error::InvalidConfig(m) && (s.plugin matches Some(pl) && (if !plugin_known(pl@) {
            m@ == "unsupported plugin: "@ + pl@
        } else {
            m@ == "plugin_opts is required for plugin obfs"@
        })))),
{
    match o {
        OutboundProxyProtocol::Direct => Ok(
            Some((String::from_str("DIRECT"), OutboundHandler::Direct)),
        ),
        OutboundProxyProtocol::Reject => Ok(
            Some((String::from_str("REJECT"), OutboundHandler::Reject)),
        ),
        OutboundProxyProtocol::Ss(s) => {
            let plugin = resolve_plugin(s)?;
            Ok(
                Some(
                    (
                        s.name.clone(),
                        OutboundHandler::Shadowsocks {
                            name: s.name.clone(),
                            server: s.server.clone(),
                            port: s.port,
                            password: s.password.clone(),
                            cipher: s.cipher.clone(),
                            plugin,
                        },
                    ),
                ),
            )
        }
        OutboundProxyProtocol::Other { .. } => Ok(None),
    }
}

/// Keys are pairwise distinct.
pub open spec fn unique_keys(s: Seq<(String, OutboundHandler)>) -> bool {
    forall|i: int, j: int| 0 <= i < j < s.len() ==> s[i].0@ != s[j].0@
}

/// Some entry carries this name.
pub open spec fn has_key(s: Seq<(String, OutboundHandler)>, nm: Seq<char>) -> bool {
    exists|i: int| 0 <= i < s.len() && s[i].0@ == nm
}

/// The index of the entry carrying this name.
pub open spec fn index_of(s: Seq<(String, OutboundHandler)>, nm: Seq<char>) -> int {
    choose|i: int| 0 <= i < s.len() && s[i].0@ == nm
}

/// The handler registered under this name.
pub open spec fn lookup(s: Seq<(String, OutboundHandler)>, nm: Seq<char>) -> Option<
    OutboundHandler,
> {
    if has_key(s, nm) {
        Some(s[index_of(s, nm)].1)
    } else {
        None
    }
}

/// With unique keys, the entry at `i` is what its own name looks up
/// to.
proof fn lemma_lookup_at(s: Seq<(String, OutboundHandler)>, i: int)
    requires
        unique_keys(s),
        0 <= i < s.len(),
    ensures
        lookup(s, s[i].0@) == Some(s[i].1),
{
    let nm = s[i].0@;
    assert(has_key(s, nm));
    let j = index_of(s, nm);
    assert(0 <= j < s.len() && s[j].0@ == nm);
    assert(j == i);
}

/// The model of the handler registered under this name.
pub open spec fn lookup_model(s: Seq<(String, OutboundHandler)>, nm: Seq<char>) -> Option<
    HandlerModel,
> {
    match lookup(s, nm) {
        Some(h) => Some(handler_model(h)),
        None => None,
    }
}

/// A clone of a list of strings is the same list.
proof fn lemma_strings_clone_identity(a: Seq<String>, b: Seq<String>)
    requires
        a.len() == b.len(),
        forall|i: int|
            #![all_triggers]
            0 <= i < a.len() ==> vstd::pervasive::cloned::<String>(a[i], b[i]),
    ensures
        a == b,
{
    assert forall|i: int| 0 <= i < a.len() implies a[i] == b[i] by {
        assert(vstd::pervasive::cloned::<String>(a[i], b[i]));
    }
    assert(a =~= b);
}

/// Registering a leaf extends the built map by exactly its name.
proof fn lemma_leaf_step(
    olds: Seq<(String, OutboundHandler)>,
    news: Seq<(String, OutboundHandler)>,
    outs: Seq<OutboundProxyProtocol>,
    i: int,
    nmv: Seq<char>,
)
    requires
        0 <= i < outs.len(),
        leaf_name(outs[i]) == Some(nmv),
        lookup_model(news, nmv) == Some(leaf_handler_model(outs[i])),
        forall|x: Seq<char>| x != nmv ==> lookup(news, x) == lookup(olds, x),
        forall|x: Seq<char>| #[trigger] lookup_model(olds, x) == leaf_built(outs, i, x),
    ensures
        forall|x: Seq<char>| #[trigger] lookup_model(news, x) == leaf_built(outs, i + 1, x),
{
    assert forall|x: Seq<char>| #[trigger] lookup_model(news, x) == leaf_built(
        outs,
        i + 1,
        x,
    ) by {
        if x != nmv {
            assert(lookup(news, x) == lookup(olds, x));
            assert(lookup_model(olds, x) == leaf_built(outs, i, x));
        }
    }
}

/// Registering a group extends the built map by exactly its name.
proof fn lemma_group_step(
    olds: Seq<(String, OutboundHandler)>,
    news: Seq<(String, OutboundHandler)>,
    outs: Seq<OutboundProxyProtocol>,
    gs: Seq<OutboundGroupProtocol>,
    k: int,
    nmv: Seq<char>,
)
    requires
        0 <= k < gs.len(),
        group_def(gs[k]).name@ == nmv,
        lookup_model(news, nmv) == Some(group_handler_model(gs[k])),
        forall|x: Seq<char>| x != nmv ==> lookup(news, x) == lookup(olds, x),
        forall|x: Seq<char>| #[trigger] lookup_model(olds, x) == built(outs, gs, k, x),
    ensures
        forall|x: Seq<char>| #[trigger] lookup_model(news, x) == built(outs, gs, k + 1, x),
{
    assert forall|x: Seq<char>| #[trigger] lookup_model(news, x) == built(
        outs,
        gs,
        k + 1,
        x,
    ) by {
        if x != nmv {
            assert(lookup(news, x) == lookup(olds, x));
            assert(lookup_model(olds, x) == built(outs, gs, k, x));
        }
    }
}

/// A leaf whose plugin configuration is refused yields a diagnostic
/// naming its cause.
proof fn lemma_bad_leaf_named(
    outs: Seq<OutboundProxyProtocol>,
    gs: Seq<OutboundGroupProtocol>,
    i: int,
    msg: Seq<char>,
)
    requires
        0 <= i < outs.len(),
        outs[i] matches OutboundProxyProtocol::Ss(s) && s.plugin matches Some(pl) && (
        if !plugin_known(pl@) {
            msg == "unsupported plugin: "@ + pl@
        } else {
            s.plugin_opts is None && msg == "plugin_opts is required for plugin obfs"@
        }),
    ensures
        bad_config_named(outs, gs, msg),
{
    assert(outs[i] matches OutboundProxyProtocol::Ss(_));
}

/// A group member missing when its group is resolved yields a
/// diagnostic naming it.
proof fn lemma_bad_member_named(
    outs: Seq<OutboundProxyProtocol>,
    gs: Seq<OutboundGroupProtocol>,
    k: int,
    j: int,
    msg: Seq<char>,
)
    requires
        0 <= k < gs.len(),
        0 <= j < group_def(gs[k]).proxies@.len(),
        !names_with_groups(leaf_names(outs, outs.len() as int), gs, k).contains(
            group_def(gs[k]).proxies@[j]@,
        ),
        msg == "unknown group member: "@ + group_def(gs[k]).proxies@[j]@,
    ensures
        bad_config_named(outs, gs, msg),
{
    assert(!names_with_groups(leaf_names(outs, outs.len() as int), gs, k).contains(
        group_def(gs[k]).proxies@[j]@,
    ));
}

/// The registry: named handlers in one shared namespace.
pub struct OutboundManager {
    handlers: Vec<(String, OutboundHandler)>,
}

impl OutboundManager {
    /// The registered entries.
    pub closed spec fn entries(&self) -> Seq<(String, OutboundHandler)> {
        self.handlers@
    }

    /// Registry invariant: names are unique across all variants.
    pub open spec fn wf(&self) -> bool {
        unique_keys(self.entries())
    }

    /// Some handler is registered under this name.
    pub open spec fn has_name(&self, nm: Seq<char>) -> bool {
        has_key(self.entries(), nm)
    }

    /// Index of the entry carrying this name, if one does.
    fn find_index(&self, name: &String) -> (r: Option<usize>)
        ensures
            match r {
                Some(i) => i < self.entries().len() && self.entries()[i as int].0@ == name@,
                None => forall|j: int|
                    0 <= j < self.entries().len() ==> self.entries()[j].0@ != name@,
            },
    {
        let mut i: usize = 0;
        while i < self.handlers.len()
            invariant
                i <= self.entries().len(),
                forall|j: int| 0 <= j < i ==> self.entries()[j].0@ != name@,
            decreases self.entries().len() - i,
        {
            if self.handlers[i].0 == *name {
                return Some(i);
            }
            i += 1;
        }
        None
    }

    /// True iff this name is registered.
    fn contains_name(&self, name: &String) -> (r: bool)
        ensures
            r == self.has_name(name@),
    {
        self.find_index(name).is_some()
    }

    /// Registers a handler; a handler already under that name is
    /// overwritten (last wins).
    fn insert(&mut self, name: String, h: OutboundHandler)
        requires
            old(self).wf(),
        ensures
            final(self).wf(),
            forall|nm: Seq<char>|
                final(self).has_name(nm) <==> (old(self).has_name(nm) || nm == name@),
            lookup(final(self).entries(), name@) == Some(h),
            forall|nm: Seq<char>|
                nm != name@ ==> lookup(final(self).entries(), nm) == lookup(
                    old(self).entries(),
                    nm,
                ),
    {
        let ghost olds = self.handlers@;
        let ghost nmv = name@;
        match self.find_index(&name) {
            Some(i) => {
                self.handlers[i] = (name, h);
                proof {
                    let news = self.handlers@;
                    assert(news == olds.update(i as int, news[i as int]));
                    assert(forall|j: int| 0 <= j < news.len() ==> news[j].0@ == olds[j].0@);
                    assert(final(self).wf());
                    assert forall|nm: Seq<char>|
                        final(self).has_name(nm) <==> (has_key(olds, nm) || nm == nmv) by {
                        if has_key(news, nm) {
                            let k = index_of(news, nm);
                            assert(olds[k].0@ == nm);
                        }
                        if has_key(olds, nm) {
                            let k = index_of(olds, nm);
                            assert(news[k].0@ == nm);
                        }
                        if nm == nmv {
                            assert(olds[i as int].0@ == nm);
                        }
                    }
                    lemma_lookup_at(news, i as int);
                    assert forall|nm: Seq<char>| nm != nmv implies lookup(news, nm) == lookup(
                        olds,
                        nm,
                    ) by {
                        if has_key(news, nm) {
                            let k = index_of(news, nm);
                            assert(0 <= k < news.len() && news[k].0@ == nm);
                            assert(olds[k].0@ == nm);
                            assert(has_key(olds, nm));
                            let k2 = index_of(olds, nm);
                            assert(olds[k2].0@ == nm);
                            assert(news[k2].0@ == nm);
                            assert(k2 == k);
                            assert(k != i);
                            assert(news[k].1 == olds[k].1);
                        } else {
                            if has_key(olds, nm) {
                                let k = index_of(olds, nm);
                                assert(news[k].0@ == nm);
                            }
                        }
                    }
                }
            }
            None => {
                self.handlers.push((name, h));
                proof {
                    let news = self.handlers@;
                    let n = olds.len() as int;
                    assert(news == olds.push(news[n]));
                    assert(forall|j: int| 0 <= j < n ==> news[j] == olds[j]);
                    assert(news[n].0@ == nmv);
                    assert forall|i: int, j: int| 0 <= i < j < news.len() implies news[i].0@
                        != news[j].0@ by {
                        if j < n {
                            assert(olds[i].0@ != olds[j].0@);
                        } else {
                            assert(olds[i].0@ != nmv);
                        }
                    }
                    assert forall|nm: Seq<char>|
                        final(self).has_name(nm) <==> (has_key(olds, nm) || nm == nmv) by {
                        if has_key(news, nm) {
                            let k = index_of(news, nm);
                            if k < n {
                                assert(olds[k].0@ == nm);
                            }
                        }
                        if has_key(olds, nm) {
                            let k = index_of(olds, nm);
                            assert(news[k].0@ == nm);
                        }
                        if nm == nmv {
                            assert(news[n].0@ == nm);
                        }
                    }
                    lemma_lookup_at(news, n);
                    assert forall|nm: Seq<char>| nm != nmv implies lookup(news, nm) == lookup(
                        olds,
                        nm,
                    ) by {
                        if has_key(news, nm) {
                            let k = index_of(news, nm);
                            assert(0 <= k < news.len() && news[k].0@ == nm);
                            assert(k != n);
                            assert(olds[k].0@ == nm);
                            assert(has_key(olds, nm));
                            let k2 = index_of(olds, nm);
                            assert(news[k2].0@ == nm);
                            assert(k2 == k);
                        } else {
                            if has_key(olds, nm) {
                                let k = index_of(olds, nm);
                                assert(news[k].0@ == nm);
                            }
                        }
                    }
                }
            }
        }
    }

    /// Builds a registry from ordered leaf and group definitions.
    pub fn new(
        outbounds: Vec<OutboundProxyProtocol>,
        outbound_groups: Vec<OutboundGroupProtocol>,
    ) -> (r: Result<OutboundManager, Error>)
        ensures
            r is Ok <==> config_ok(outbounds@, outbound_groups@),
            r matches Ok(m) ==> m.wf() && (forall|nm: Seq<char>|
                m.has_name(nm) <==> loaded_names(outbounds@, outbound_groups@).contains(nm)),
            r matches Ok(m) ==> (forall|nm: Seq<char>|
                #[trigger] lookup_model(m.entries(), nm) == built_handler(
                    outbounds@,
                    outbound_groups@,
                    nm,
                )),
            r matches Err(e) ==> (e matches Error::InvalidConfig(m) && bad_config_named(
                outbounds@,
                outbound_groups@,
                m@,
            )),
    {
        let mut m = OutboundManager { handlers: Vec::new() };
        match OutboundManager::load_handlers(outbounds, outbound_groups, &mut m) {
            Ok(()) => Ok(m),
            Err(e) => Err(e),
        }
    }

    /// Loads every definition into `handlers`: leaves first, then
    /// groups in declaration order.  Any error aborts the load.
    pub fn load_handlers(
        outbounds: Vec<OutboundProxyProtocol>,
        outbound_groups: Vec<OutboundGroupProtocol>,
        handlers: &mut OutboundManager,
    ) -> (r: Result<(), Error>)
        requires
            old(handlers).wf(),
            old(handlers).entries().len() == 0,
        ensures
            final(handlers).wf(),
            r is Ok <==> config_ok(outbounds@, outbound_groups@),
            r is Ok ==> (forall|nm: Seq<char>|
                final(handlers).has_name(nm) <==> loaded_names(
                    outbounds@,
                    outbound_groups@,
                ).contains(nm)),
            r is Ok ==> (forall|nm: Seq<char>|
                #[trigger] lookup_model(final(handlers).entries(), nm) == built_handler(
                    outbounds@,
                    outbound_groups@,
                    nm,
                )),
            r matches Err(e) ==> (e matches Error::InvalidConfig(m) && bad_config_named(
                outbounds@,
                outbound_groups@,
                m@,
            )),
    {
        let mut i: usize = 0;
        while i < outbounds.len()
            invariant
                i <= outbounds@.len(),
                handlers.wf(),
                forall|j: int| 0 <= j < i ==> outbound_ok(outbounds@[j]),
                forall|nm: Seq<char>|
                    handlers.has_name(nm) <==> leaf_names(outbounds@, i as int).contains(nm),
                forall|nm: Seq<char>|
                    #[trigger] lookup_model(handlers.entries(), nm) == leaf_built(
                        outbounds@,
                        i as int,
                        nm,
                    ),
            decreases outbounds@.len() - i,
        {
            match build_leaf(&outbounds[i]) {
                Ok(Some(entry)) => {
                    let (nm, h) = entry;
                    let ghost olds = handlers.entries();
                    let ghost nmv = nm@;
                    let ghost hm = handler_model(h);
                    handlers.insert(nm, h);
                    proof {
                        assert(lookup_model(handlers.entries(), nmv) == Some(hm));
                        lemma_leaf_step(olds, handlers.entries(), outbounds@, i as int, nmv);
                    }
                }
                Ok(None) => {
                    // an unsupported leaf kind: skipped, never fatal
                    proof {
                        assert forall|nm: Seq<char>|
                            #[trigger] lookup_model(handlers.entries(), nm) == leaf_built(
                                outbounds@,
                                i + 1,
                                nm,
                            ) by {
                            assert(lookup_model(handlers.entries(), nm) == leaf_built(
                                outbounds@,
                                i as int,
                                nm,
                            ));
                        }
                    }
                }
                Err(e) => {
                    proof {
                        assert(!outbound_ok(outbounds@[i as int]));
                        match &e {
                            Error::InvalidConfig(m) => {
                                lemma_bad_leaf_named(outbounds@, outbound_groups@, i as int, m@);
                            }
                            _ => {
                                assert(false);
                            }
                        }
                    }
                    return Err(e);
                }
            }
            i += 1;
        }
        let ghost base = leaf_names(outbounds@, outbounds@.len() as int);
        proof {
            assert forall|nm: Seq<char>|
                #[trigger] lookup_model(handlers.entries(), nm) == built(
                    outbounds@,
                    outbound_groups@,
                    0,
                    nm,
                ) by {
                assert(lookup_model(handlers.entries(), nm) == leaf_built(
                    outbounds@,
                    outbounds@.len() as int,
                    nm,
                ));
            }
        }
        let mut k: usize = 0;
        while k < outbound_groups.len()
            invariant
                k <= outbound_groups@.len(),
                handlers.wf(),
                base == leaf_names(outbounds@, outbounds@.len() as int),
                forall|j: int| 0 <= j < outbounds@.len() ==> outbound_ok(outbounds@[j]),
                groups_ok(base, outbound_groups@, k as int),
                forall|nm: Seq<char>|
                    handlers.has_name(nm) <==> names_with_groups(
                        base,
                        outbound_groups@,
                        k as int,
                    ).contains(nm),
                forall|nm: Seq<char>|
                    #[trigger] lookup_model(handlers.entries(), nm) == built(
                        outbounds@,
                        outbound_groups@,
                        k as int,
                        nm,
                    ),
            decreases outbound_groups@.len() - k,
        {
            let def: &OutboundGroup = match &outbound_groups[k] {
                OutboundGroupProtocol::Relay(d) => d,
                OutboundGroupProtocol::UrlTest(d) => d,
                OutboundGroupProtocol::Fallback(d) => d,
                OutboundGroupProtocol::LoadBalance(d) => d,
                OutboundGroupProtocol::Select(d) => d,
            };
            let mut j: usize = 0;
            while j < def.proxies.len()
                invariant
                    j <= def.proxies@.len(),
                    def == group_def(outbound_groups@[k as int]),
                    k < outbound_groups@.len(),
                    base == leaf_names(outbounds@, outbounds@.len() as int),
                    groups_ok(base, outbound_groups@, k as int),
                    handlers.wf(),
                    forall|nm: Seq<char>|
                        handlers.has_name(nm) <==> names_with_groups(
                            base,
                            outbound_groups@,
                            k as int,
                        ).contains(nm),
                    forall|nm: Seq<char>|
                        #[trigger] lookup_model(handlers.entries(), nm) == built(
                            outbounds@,
                            outbound_groups@,
                            k as int,
                            nm,
                        ),
                    forall|jj: int|
                        0 <= jj < j ==> names_with_groups(
                            base,
                            outbound_groups@,
                            k as int,
                        ).contains(def.proxies@[jj]@),
                decreases def.proxies@.len() - j,
            {
                if !handlers.contains_name(&def.proxies[j]) {
                    proof {
                        assert(!group_ok(
                            names_with_groups(base, outbound_groups@, k as int),
                            group_def(outbound_groups@[k as int]),
                        ));
                        assert(!groups_ok(base, outbound_groups@, k as int + 1));
                        if groups_ok(base, outbound_groups@, outbound_groups@.len() as int) {
                            lemma_groups_ok_prefix(
                                base,
                                outbound_groups@,
                                k as int + 1,
                                outbound_groups@.len() as int,
                            );
                        }
                    }
                    let mut msg = String::from_str("unknown group member: ");
                    msg.append(def.proxies[j].as_str());
                    proof {
                        lemma_bad_member_named(
                            outbounds@,
                            outbound_groups@,
                            k as int,
                            j as int,
                            msg@,
                        );
                    }
                    return Err(Error::InvalidConfig(msg));
                }
                j += 1;
            }
            assert(group_ok(
                names_with_groups(base, outbound_groups@, k as int),
                group_def(outbound_groups@[k as int]),
            ));
            let members = def.proxies.clone();
            let url = def.url.clone();
            proof {
                lemma_strings_clone_identity(def.proxies@, members@);
            }
            let h = match &outbound_groups[k] {
                OutboundGroupProtocol::Relay(_) => OutboundHandler::Relay { members },
                OutboundGroupProtocol::UrlTest(_) => OutboundHandler::UrlTest {
                    members,
                    url,
                    interval: def.interval,
                    lazy: def.lazy,
                },
                OutboundGroupProtocol::Fallback(_) => OutboundHandler::Fallback {
                    members,
                    url,
                    interval: def.interval,
                    lazy: def.lazy,
                },
                OutboundGroupProtocol::LoadBalance(_) => OutboundHandler::LoadBalance {
                    members,
                    url,
                    interval: def.interval,
                    lazy: def.lazy,
                },
                OutboundGroupProtocol::Select(_) => OutboundHandler::Select {
                    members,
                    current: 0,
                },
            };
            proof {
                assert(handler_model(h) == group_handler_model(outbound_groups@[k as int]));
            }
            let ghost olds = handlers.entries();
            let name = def.name.clone();
            let ghost nmv = name@;
            handlers.insert(name, h);
            proof {
                assert(lookup_model(handlers.entries(), nmv) == Some(
                    group_handler_model(outbound_groups@[k as int]),
                ));
                lemma_group_step(
                    olds,
                    handlers.entries(),
                    outbounds@,
                    outbound_groups@,
                    k as int,
                    nmv,
                );
            }
            k += 1;
        }
        Ok(())
    }

    /// The handler registered under `name`; absence means the target
    /// no longer exists (e.g. after a reload), not a bug.
    pub fn get(&self, name: &str) -> (r: Option<&OutboundHandler>)
        requires
            self.wf(),
        ensures
            match r {
                Some(h) => lookup(self.entries(), name@) == Some(*h),
                None => lookup(self.entries(), name@) is None,
            },
    {
        let key = name.to_owned();
        match self.find_index(&key) {
            Some(i) => {
                proof {
                    lemma_lookup_at(self.entries(), i as int);
                }
                Some(&self.handlers[i].1)
            }
            None => {
                proof {
                    assert(!has_key(self.entries(), name@));
                }
                None
            }
        }
    }
}

} // verus!
