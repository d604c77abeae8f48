//! Tests of registry construction, plugin resolution and rule
//! matching.
use proxy_core::manager::{
    build_leaf, resolve_plugin, OBFSOption, OutboundGroup, OutboundGroupProtocol, OutboundHandler,
    OutboundManager, OutboundProxyProtocol, OutboundSs, PluginOpts,
};
use proxy_core::rules::{route_match, route_target, RuleMatcher, RuleSet};
use proxy_core::session::Session;

fn ss_def(name: &str, plugin: Option<&str>, opts: Option<PluginOpts>) -> OutboundSs {
    OutboundSs {
        name: name.to_owned(),
        server: "server.example".to_owned(),
        port: 8388,
        password: "correct-horse".to_owned(),
        cipher: "aes-256-gcm".to_owned(),
        plugin: plugin.map(|p| p.to_owned()),
        plugin_opts: opts,
    }
}

fn obfs_opts() -> PluginOpts {
    PluginOpts {
        mode: Some("http".to_owned()),
        host: Some("bing.com".to_owned()),
        path: None,
        tls: None,
    }
}

#[test]
fn obfs_without_opts_is_config_error() {
    let r = OutboundManager::new(
        vec![OutboundProxyProtocol::Ss(ss_def("ss-1", Some("obfs"), None))],
        vec![],
    );
    let e = r.err().expect("the build must abort");
    let msg = e.config_message().expect("a config error").clone();
    assert_eq!(msg, "plugin_opts is required for plugin obfs");
}

#[test]
fn unknown_plugin_is_named_in_the_error() {
    let r = OutboundManager::new(
        vec![OutboundProxyProtocol::Ss(ss_def("ss-1", Some("obfs2"), Some(obfs_opts())))],
        vec![],
    );
    let e = r.err().expect("the build must abort");
    let msg = e.config_message().expect("a config error").clone();
    assert_eq!(msg, "unsupported plugin: obfs2");
}

#[test]
fn obfs_with_opts_resolves() {
    let s = ss_def("ss-1", Some("obfs"), Some(obfs_opts()));
    let p = resolve_plugin(&s).unwrap();
    match p {
        Some(OBFSOption::Simple(so)) => {
            assert_eq!(so.mode, "http");
            assert_eq!(so.host, "bing.com");
        }
        _ => panic!("expected the simple obfuscation plugin"),
    }
}

#[test]
fn bad_obfs_mode_degrades_to_no_plugin() {
    let mut opts = obfs_opts();
    opts.mode = Some("quic".to_owned());
    let s = ss_def("ss-1", Some("obfs"), Some(opts));
    // a conversion failure of present options is no build error
    assert!(resolve_plugin(&s).unwrap().is_none());
}

#[test]
fn v2ray_plugin_resolves() {
    let opts = PluginOpts {
        mode: Some("websocket".to_owned()),
        host: Some("cdn.example".to_owned()),
        path: Some("/ws".to_owned()),
        tls: Some(true),
    };
    let s = ss_def("ss-1", Some("v2ray-plugin"), Some(opts));
    match resolve_plugin(&s).unwrap() {
        Some(OBFSOption::V2Ray(vo)) => {
            assert_eq!(vo.mode, "websocket");
            assert_eq!(vo.host, "cdn.example");
            assert_eq!(vo.path, "/ws");
            assert!(vo.tls);
        }
        _ => panic!("expected the v2ray plugin"),
    }
}

#[test]
fn unsupported_leaf_kind_is_skipped() {
    let r = build_leaf(&OutboundProxyProtocol::Other {
        name: "exotic".to_owned(),
        kind: "trojan".to_owned(),
    })
    .unwrap();
    assert!(r.is_none());
    let m = OutboundManager::new(
        vec![OutboundProxyProtocol::Other {
            name: "exotic".to_owned(),
            kind: "trojan".to_owned(),
        }],
        vec![],
    )
    .unwrap();
    assert!(m.get("exotic").is_none());
}

#[test]
fn singletons_register_under_well_known_names() {
    let m = OutboundManager::new(
        vec![OutboundProxyProtocol::Direct, OutboundProxyProtocol::Reject],
        vec![],
    )
    .unwrap();
    assert!(matches!(m.get("DIRECT"), Some(OutboundHandler::Direct)));
    assert!(matches!(m.get("REJECT"), Some(OutboundHandler::Reject)));
    assert!(m.get("nowhere").is_none());
}

#[test]
fn duplicate_names_overwrite_last_wins() {
    let m = OutboundManager::new(
        vec![
            OutboundProxyProtocol::Ss(ss_def("dup", None, None)),
            OutboundProxyProtocol::Ss(OutboundSs { port: 9999, ..ss_def("dup", None, None) }),
        ],
        vec![],
    )
    .unwrap();
    match m.get("dup") {
        Some(OutboundHandler::Shadowsocks { port, .. }) => assert_eq!(*port, 9999),
        _ => panic!("expected the later definition"),
    }
}

fn group(name: &str, members: &[&str]) -> OutboundGroup {
    OutboundGroup {
        name: name.to_owned(),
        proxies: members.iter().map(|m| (*m).to_owned()).collect(),
        url: "http://www.gstatic.com/generate_204".to_owned(),
        interval: 300,
        lazy: true,
    }
}

#[test]
fn group_with_unknown_member_aborts_the_build() {
    let r = OutboundManager::new(
        vec![OutboundProxyProtocol::Direct],
        vec![OutboundGroupProtocol::UrlTest(group("auto", &["DIRECT", "ghost"]))],
    );
    let e = r.err().expect("the build must abort");
    let msg = e.config_message().expect("a config error").clone();
    assert_eq!(msg, "unknown group member: ghost");
}

#[test]
fn groups_resolve_in_declaration_order() {
    let m = OutboundManager::new(
        vec![
            OutboundProxyProtocol::Direct,
            OutboundProxyProtocol::Ss(ss_def("ss-1", None, None)),
        ],
        vec![
            OutboundGroupProtocol::Fallback(group("first", &["DIRECT", "ss-1"])),
            // a later group may reference an earlier one
            OutboundGroupProtocol::Select(group("second", &["first", "DIRECT"])),
        ],
    )
    .unwrap();
    assert!(matches!(m.get("first"), Some(OutboundHandler::Fallback { .. })));
    match m.get("second") {
        Some(OutboundHandler::Select { members, current }) => {
            assert_eq!(members, &vec!["first".to_owned(), "DIRECT".to_owned()]);
            assert_eq!(*current, 0);
        }
        _ => panic!("expected the select group"),
    }
}

#[test]
fn every_group_kind_constructs() {
    let leaves = vec![OutboundProxyProtocol::Direct];
    let m = OutboundManager::new(
        leaves,
        vec![
            OutboundGroupProtocol::Relay(group("g-relay", &["DIRECT"])),
            OutboundGroupProtocol::UrlTest(group("g-urltest", &["DIRECT"])),
            OutboundGroupProtocol::Fallback(group("g-fallback", &["DIRECT"])),
            OutboundGroupProtocol::LoadBalance(group("g-lb", &["DIRECT"])),
            OutboundGroupProtocol::Select(group("g-select", &["DIRECT"])),
        ],
    )
    .unwrap();
    assert!(matches!(m.get("g-relay"), Some(OutboundHandler::Relay { .. })));
    assert!(matches!(m.get("g-urltest"), Some(OutboundHandler::UrlTest { .. })));
    assert!(matches!(m.get("g-fallback"), Some(OutboundHandler::Fallback { .. })));
    assert!(matches!(m.get("g-lb"), Some(OutboundHandler::LoadBalance { .. })));
    assert!(matches!(m.get("g-select"), Some(OutboundHandler::Select { .. })));
}

#[test]
fn ruleset_matcher_is_a_placeholder() {
    let rule = RuleSet { rule_set: "ads".to_owned(), target: "REJECT".to_owned() };
    let sess = Session::new();
    assert!(!rule.apply(&sess));
    assert_eq!(rule.target(), "REJECT");
    assert_eq!(rule.payload(), "ads");
    assert_eq!(rule.kind_name(), "RuleSet");
}

#[test]
fn router_first_match_wins() {
    let rules = vec![
        RuleSet { rule_set: "a".to_owned(), target: "DIRECT".to_owned() },
        RuleSet { rule_set: "b".to_owned(), target: "REJECT".to_owned() },
    ];
    let sess = Session::new();
    // ruleset matchers never match while the membership index is absent
    assert!(route_match(&rules, &sess).is_none());
    assert!(route_target(&rules, &sess).is_none());
}
