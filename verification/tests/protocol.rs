use gp_protocol::auth::default_as_gateway;
use gp_protocol::gateway::{Gateway, PriorityRule};
use gp_protocol::os::ClientOs;
use gp_protocol::request::ConnectRequest;
use gp_protocol::session::{SessionInfo, SessionWarning};
use gp_protocol::state::{ConnectInfo, ConnectedInfo, MfaChallengeInfo, VpnState};
use gp_protocol::{protocol_baseline, PROTOCOL_MAX, PROTOCOL_MIN, PROTOCOL_VERSION};

fn sample_info() -> ConnectInfo {
    let gateway = Gateway::new("gw".to_string(), "vpn.example.com".to_string());
    ConnectInfo::new("portal.example.com".to_string(), gateway.clone(), vec![gateway])
}

#[test]
fn builder_accepts_plain_and_option_values() {
    let gateway = Gateway::new("gw".to_string(), "vpn.example.com".to_string());
    let info = ConnectInfo::new("portal.example.com".to_string(), gateway.clone(), vec![gateway]);
    let req = ConnectRequest::new(info, "authcookie=AUTH".to_string())
        .with_mtu(1400)
        .with_vpnc_script(Some("/usr/libexec/vpnc-script".to_string()))
        .with_os(ClientOs::Linux);

    assert_eq!(req.args().mtu(), 1400);
    assert_eq!(req.args().vpnc_script().as_deref(), Some("/usr/libexec/vpnc-script"));
    assert_eq!(req.args().openconnect_os().as_deref(), Some("linux"));
}

#[test]
fn version_constants_and_baseline() {
    assert_eq!(PROTOCOL_MIN, 2);
    assert_eq!(PROTOCOL_MAX, 4);
    assert_eq!(PROTOCOL_VERSION, PROTOCOL_MAX);
    assert_eq!(protocol_baseline(), 1);
    assert!(protocol_baseline() < PROTOCOL_MIN);
    assert!(default_as_gateway());
}

#[test]
fn client_os_names() {
    assert_eq!(ClientOs::Linux.as_str(), "Linux");
    assert_eq!(ClientOs::Windows.as_str(), "Windows");
    assert_eq!(ClientOs::Mac.as_str(), "Mac");
    assert_eq!(ClientOs::Linux.to_openconnect_os(), "linux");
    assert_eq!(ClientOs::Windows.to_openconnect_os(), "win");
    assert_eq!(ClientOs::Mac.to_openconnect_os(), "mac-intel");
    assert_eq!(ClientOs::default(), ClientOs::Linux);
}

#[test]
fn client_os_parse_roundtrips_and_falls_back_to_linux() {
    for os in [ClientOs::Linux, ClientOs::Windows, ClientOs::Mac] {
        assert_eq!(ClientOs::from(os.as_str()), os);
    }
    assert_eq!(ClientOs::from("windows"), ClientOs::Linux);
    assert_eq!(ClientOs::from("Mac "), ClientOs::Linux);
    assert_eq!(ClientOs::from(""), ClientOs::Linux);
    assert_eq!(ClientOs::from("FreeBSD"), ClientOs::Linux);
}

#[test]
fn gateway_new_and_accessors() {
    let g = Gateway::new("Gateway-1".to_string(), "vpn.example.com".to_string());
    assert_eq!(g.name(), "Gateway-1");
    assert_eq!(g.server(), "vpn.example.com");
    assert_eq!(g.priority, 0);
    assert!(g.priority_rules.is_empty());
    assert_eq!(g.display_string(), "Gateway-1 (vpn.example.com)");

    let ranked = Gateway {
        name: "gw".to_string(),
        address: "a.example".to_string(),
        priority: 5,
        priority_rules: vec![PriorityRule { name: "rule".to_string(), priority: 1 }],
    };
    assert_eq!(ranked.priority_rules[0].priority, 1);
    assert_eq!(ranked.display_string(), "gw (a.example)");
}

#[test]
fn fresh_request_has_the_defaults() {
    let req = ConnectRequest::new(sample_info(), "authcookie=AUTH".to_string());
    let a = req.args();
    assert_eq!(a.cookie(), "authcookie=AUTH");
    assert_eq!(a.reconnect_timeout(), 300);
    assert_eq!(a.mtu(), 0);
    assert_eq!(a.csd_uid(), 0);
    assert_eq!(a.force_dpd(), 0);
    assert!(!a.hip() && !a.disable_ipv6() && !a.no_dtls() && !a.no_xmlpost());
    assert!(!a.allow_extend_session());
    assert!(a.vpnc_script().is_none() && a.user_agent().is_none() && a.os().is_none());
    assert!(a.os_version().is_none() && a.client_version().is_none());
    assert!(a.certificate().is_none() && a.sslkey().is_none() && a.key_password().is_none());
    assert!(a.csd_wrapper().is_none() && a.local_hostname().is_none());
    assert!(a.dns_domains().is_empty());
    assert!(a.openconnect_os().is_none());
    assert_eq!(req.info().portal(), "portal.example.com");
    assert_eq!(req.gateway().server(), "vpn.example.com");
}

#[test]
fn each_setter_writes_its_field() {
    let req = ConnectRequest::new(sample_info(), "c".to_string())
        .with_vpnc_script("/etc/vpnc-script".to_string())
        .with_hip(true)
        .with_csd_uid(1000)
        .with_csd_wrapper("/usr/bin/hipreport.sh".to_string())
        .with_user_agent("PAN GlobalProtect".to_string())
        .with_os(ClientOs::Mac)
        .with_os_version("Linux 6.0".to_string())
        .with_client_version("6.0.0")
        .with_certificate("/path/cert.pem".to_string())
        .with_sslkey("/path/key.pem".to_string())
        .with_key_password("secret".to_string())
        .with_reconnect_timeout(60)
        .with_mtu(1400)
        .with_disable_ipv6(true)
        .with_no_dtls(true)
        .with_local_hostname("host".to_string())
        .with_force_dpd(30)
        .with_no_xmlpost(true)
        .with_allow_extend_session(true)
        .with_dns_domains(vec!["corp.acme.example".to_string()]);
    let a = req.args();
    assert_eq!(a.cookie(), "c");
    assert_eq!(a.vpnc_script().as_deref(), Some("/etc/vpnc-script"));
    assert!(a.hip());
    assert_eq!(a.csd_uid(), 1000);
    assert_eq!(a.csd_wrapper().as_deref(), Some("/usr/bin/hipreport.sh"));
    assert_eq!(a.user_agent().as_deref(), Some("PAN GlobalProtect"));
    assert_eq!(a.os(), Some(ClientOs::Mac));
    assert_eq!(a.openconnect_os().as_deref(), Some("mac-intel"));
    assert_eq!(a.os_version().as_deref(), Some("Linux 6.0"));
    assert_eq!(a.client_version().as_deref(), Some("6.0.0"));
    assert_eq!(a.certificate().as_deref(), Some("/path/cert.pem"));
    assert_eq!(a.sslkey().as_deref(), Some("/path/key.pem"));
    assert_eq!(a.key_password().as_deref(), Some("secret"));
    assert_eq!(a.reconnect_timeout(), 60);
    assert_eq!(a.mtu(), 1400);
    assert!(a.disable_ipv6() && a.no_dtls() && a.no_xmlpost() && a.allow_extend_session());
    assert_eq!(a.local_hostname().as_deref(), Some("host"));
    assert_eq!(a.force_dpd(), 30);
    assert_eq!(a.dns_domains(), vec!["corp.acme.example".to_string()]);
}

#[test]
fn option_setters_clear_and_later_writes_win() {
    let req = ConnectRequest::new(sample_info(), "c".to_string())
        .with_vpnc_script("/a".to_string())
        .with_vpnc_script(None)
        .with_os(ClientOs::Windows)
        .with_os(None)
        .with_mtu(1)
        .with_mtu(2);
    assert!(req.args().vpnc_script().is_none());
    assert!(req.args().os().is_none());
    assert_eq!(req.args().mtu(), 2);

    let plain = ConnectRequest::new(sample_info(), "c".to_string()).with_sslkey("/k".to_string());
    let wrapped = ConnectRequest::new(sample_info(), "c".to_string()).with_sslkey(Some("/k".to_string()));
    assert_eq!(plain.args().sslkey(), wrapped.args().sslkey());
}

#[test]
fn debug_string_redacts_the_secrets() {
    let req = ConnectRequest::new(sample_info(), "authcookie=SUPERSECRET".to_string())
        .with_key_password("hunter2".to_string());
    let dbg = req.args().debug_string();
    assert!(!dbg.contains("SUPERSECRET"), "cookie leaked in debug text: {dbg}");
    assert!(!dbg.contains("hunter2"), "key_password leaked in debug text: {dbg}");
    assert!(dbg.contains("<redacted>"));
    assert_eq!(req.args().cookie(), "authcookie=SUPERSECRET");
}

#[test]
fn debug_string_exact_form() {
    let req = ConnectRequest::new(sample_info(), "authcookie=AUTH".to_string())
        .with_vpnc_script("/etc/vpnc \"x\"".to_string())
        .with_os(ClientOs::Linux)
        .with_csd_uid(1000)
        .with_mtu(0)
        .with_force_dpd(4294967295)
        .with_hip(true)
        .with_dns_domains(vec!["a.example".to_string(), "b\\c".to_string()]);
    let expected = "ConnectArgs { cookie: \"<redacted>\", key_password: None, \
vpnc_script: Some(\"/etc/vpnc \\\"x\\\"\"), user_agent: None, os: Some(Linux), os_version: None, \
client_version: None, certificate: None, sslkey: None, hip: true, csd_uid: 1000, csd_wrapper: None, \
reconnect_timeout: 300, mtu: 0, disable_ipv6: false, no_dtls: false, local_hostname: None, \
force_dpd: 4294967295, no_xmlpost: false, allow_extend_session: false, \
dns_domains: [\"a.example\", \"b\\\\c\"] }";
    assert_eq!(req.args().debug_string(), expected);

    let with_key = ConnectRequest::new(sample_info(), "x".to_string()).with_key_password("pw".to_string());
    assert!(with_key.args().debug_string().starts_with(
        "ConnectArgs { cookie: \"<redacted>\", key_password: Some(\"<redacted>\"), vpnc_script: None"
    ));
    assert!(with_key.args().debug_string().ends_with("dns_domains: [] }"));
}

#[test]
fn debug_string_does_not_depend_on_secret_text() {
    let a = ConnectRequest::new(sample_info(), "one".to_string()).with_key_password("p1".to_string());
    let b = ConnectRequest::new(sample_info(), "two-longer".to_string()).with_key_password("other".to_string());
    assert_eq!(a.args().debug_string(), b.args().debug_string());
}

#[test]
fn vpn_state_labels() {
    let info = sample_info();
    let connected = ConnectedInfo::new(info.clone(), None);
    assert_eq!(VpnState::Disconnected.label(), "Disconnected");
    assert_eq!(VpnState::Connecting(Box::new(info)).label(), "Connecting…");
    assert_eq!(VpnState::Connected(Box::new(connected.clone())).label(), "Connected");
    assert_eq!(VpnState::Reconnecting(Box::new(connected)).label(), "Reconnecting…");
    assert_eq!(
        VpnState::MfaChallenge(Box::new(MfaChallengeInfo::new("code?"))).label(),
        "Verification required…"
    );
    assert_eq!(VpnState::Disconnecting.label(), "Disconnecting…");
}

#[test]
fn mfa_challenge_keeps_its_prompt() {
    let m = MfaChallengeInfo::new("Enter your RSA passcode");
    assert_eq!(m.message(), "Enter your RSA passcode");
}

#[test]
fn connected_info_tunnel_facts() {
    let session = SessionInfo {
        lifetime_secs: Some(43_200),
        allow_extend_session: true,
        lifetime_warning: Some(SessionWarning { prior_secs: 1_800, message: "soon".to_string() }),
        ..Default::default()
    };
    let c = ConnectedInfo::new(sample_info(), Some(session));
    assert!(c.tun_iface().is_none() && c.ipv4().is_none() && c.ipv6().is_none());
    let c = c.with_tunnel(Some("tun0".to_string()), Some("10.0.0.2".to_string()), None);
    assert_eq!(c.tun_iface(), Some("tun0"));
    assert_eq!(c.ipv4(), Some("10.0.0.2"));
    assert_eq!(c.ipv6(), None);
    assert_eq!(c.info().portal(), "portal.example.com");
    assert_eq!(c.info().gateway().name(), "gw");
    let s = c.session_info().unwrap();
    assert_eq!(s.lifetime_secs, Some(43_200));
    assert!(s.allow_extend_session);
    assert_eq!(s.lifetime_warning.as_ref().unwrap().prior_secs, 1_800);
    assert!(s.user_expires.is_none() && s.inactivity_warning.is_none());

    let none = ConnectedInfo::new(sample_info(), None);
    assert!(none.session_info().is_none());
}

#[test]
fn session_info_default_is_empty() {
    let s = SessionInfo::default();
    assert!(s.lifetime_secs.is_none());
    assert!(s.user_expires.is_none());
    assert!(s.expires_in_human.is_none());
    assert!(s.lifetime_warning.is_none());
    assert!(s.inactivity_warning.is_none());
    assert!(s.admin_logout_message.is_none());
    assert!(!s.allow_extend_session);
}

/// The shape `#[derive(Debug)]` gives a struct with the redacted fields, to
/// hold the library's debug texts against std's own formatting.
#[allow(dead_code)]
#[derive(Debug)]
struct ConnectArgs<'a> {
    cookie: &'a str,
    key_password: Option<&'a str>,
    vpnc_script: Option<String>,
    user_agent: Option<String>,
    os: Option<ClientOs>,
    os_version: Option<String>,
    client_version: Option<String>,
    certificate: Option<String>,
    sslkey: Option<String>,
    hip: bool,
    csd_uid: u32,
    csd_wrapper: Option<String>,
    reconnect_timeout: u32,
    mtu: u32,
    disable_ipv6: bool,
    no_dtls: bool,
    local_hostname: Option<String>,
    force_dpd: u32,
    no_xmlpost: bool,
    allow_extend_session: bool,
    dns_domains: Vec<String>,
}

fn redacted_mirror(a: &gp_protocol::ConnectArgs) -> ConnectArgs<'static> {
    ConnectArgs {
        cookie: "<redacted>",
        key_password: a.key_password().map(|_| "<redacted>"),
        vpnc_script: a.vpnc_script(),
        user_agent: a.user_agent(),
        os: a.os(),
        os_version: a.os_version(),
        client_version: a.client_version(),
        certificate: a.certificate(),
        sslkey: a.sslkey(),
        hip: a.hip(),
        csd_uid: a.csd_uid(),
        csd_wrapper: a.csd_wrapper(),
        reconnect_timeout: a.reconnect_timeout(),
        mtu: a.mtu(),
        disable_ipv6: a.disable_ipv6(),
        no_dtls: a.no_dtls(),
        local_hostname: a.local_hostname(),
        force_dpd: a.force_dpd(),
        no_xmlpost: a.no_xmlpost(),
        allow_extend_session: a.allow_extend_session(),
        dns_domains: a.dns_domains(),
    }
}

#[test]
fn debug_texts_match_std_struct_formatting() {
    let full = ConnectRequest::new(sample_info(), "authcookie=SECRET".to_string())
        .with_vpnc_script("/etc/vpnc \"q\"\ttab".to_string())
        .with_user_agent("PAN GlobalProtect".to_string())
        .with_os(ClientOs::Windows)
        .with_os_version("Linux 6.0".to_string())
        .with_client_version("6.0.0")
        .with_certificate("/path/cert.pem".to_string())
        .with_sslkey("/path/key.pem".to_string())
        .with_key_password("hunter2".to_string())
        .with_hip(true)
        .with_csd_uid(1000)
        .with_csd_wrapper("/usr/bin/hipreport.sh".to_string())
        .with_mtu(1400)
        .with_disable_ipv6(true)
        .with_local_hostname("host".to_string())
        .with_force_dpd(30)
        .with_allow_extend_session(true)
        .with_dns_domains(vec!["a.example".to_string(), "é\\\n".to_string()]);
    let bare = ConnectRequest::new(sample_info(), "c".to_string());
    for req in [full, bare] {
        let mirror = redacted_mirror(req.args());
        assert_eq!(req.args().debug_string(), format!("{:?}", mirror));
        assert_eq!(req.args().debug_string_pretty(), format!("{:#?}", mirror));
    }
}

#[test]
fn pretty_debug_string_redacts_the_secrets() {
    let req = ConnectRequest::new(sample_info(), "authcookie=SUPERSECRET".to_string())
        .with_key_password("hunter2".to_string());
    let dbg = req.args().debug_string_pretty();
    assert!(!dbg.contains("SUPERSECRET"));
    assert!(!dbg.contains("hunter2"));
    assert!(dbg.starts_with("ConnectArgs {\n    cookie: \"<redacted>\",\n    key_password: Some(\n        \"<redacted>\",\n    ),\n"));
    assert!(dbg.ends_with("    dns_domains: [],\n}"));
}

#[test]
fn platform_default_follows_the_target() {
    assert_eq!(ClientOs::platform_default(true), ClientOs::Mac);
    assert_eq!(ClientOs::platform_default(false), ClientOs::Linux);
}

#[test]
fn scrub_secrets_empties_the_cookie_and_a_present_key_password() {
    let mut cookie = "authcookie=SECRET".to_string();
    let mut key_password = Some("hunter2".to_string());
    gp_protocol::request::scrub_secrets(&mut cookie, &mut key_password);
    assert_eq!(cookie, "");
    assert_eq!(key_password.as_deref(), Some(""));

    let mut cookie = "c".to_string();
    let mut none: Option<String> = None;
    gp_protocol::request::scrub_secrets(&mut cookie, &mut none);
    assert!(cookie.is_empty());
    assert!(none.is_none());
}

fn sample_probe(key_password: Option<&str>) -> gp_protocol::ProbeRequest {
    gp_protocol::ProbeRequest {
        server: "vpn.example.com".to_string(),
        as_gateway: true,
        certificate: Some("pkcs11:token".to_string()),
        sslkey: None,
        key_password: key_password.map(str::to_string),
        ignore_tls_errors: false,
        os: Some(ClientOs::Linux),
        os_version: None,
        user_agent: Some("PAN GlobalProtect".to_string()),
    }
}

#[test]
fn redacted_probe_request_hides_the_key_password() {
    let r = sample_probe(Some("hunter2")).into_redacted();
    assert_eq!(r.key_password.as_deref(), Some("<redacted>"));
    assert_eq!(r.server, "vpn.example.com");
    assert_eq!(r.certificate.as_deref(), Some("pkcs11:token"));
    assert_eq!(r.user_agent.as_deref(), Some("PAN GlobalProtect"));
    assert!(r.as_gateway);
    assert!(sample_probe(None).into_redacted().key_password.is_none());
}

#[test]
fn redacted_connect_auth_request_hides_the_key_password() {
    let args = ConnectRequest::new(sample_info(), "authcookie=SECRET".to_string())
        .with_key_password("argpw".to_string())
        .args()
        .clone();
    let req = gp_protocol::ConnectAuthRequest {
        server: "portal.example.com".to_string(),
        credential: gp_protocol::AuthCredential::Password {
            username: "alice".to_string(),
            password: "pw".to_string(),
        },
        as_gateway: false,
        certificate: None,
        sslkey: None,
        key_password: Some("hunter2".to_string()),
        ignore_tls_errors: true,
        os: None,
        os_version: None,
        user_agent: None,
        args,
    };
    let r = req.into_redacted();
    assert_eq!(r.key_password.as_deref(), Some("<redacted>"));
    assert_eq!(r.server, "portal.example.com");
    assert!(!r.as_gateway && r.ignore_tls_errors);
    assert!(matches!(r.credential, gp_protocol::AuthCredential::Password { ref username, .. } if username == "alice"));
    assert_eq!(r.args.cookie(), "authcookie=SECRET");
    let dbg = r.args.debug_string();
    assert!(!dbg.contains("SECRET") && !dbg.contains("argpw"));
}
