//! The VPN state machine as seen over the wire.

use vstd::prelude::*;

use crate::gateway::{gateways_view, Gateway, GatewayView};
use crate::session::{opt_session_view, SessionInfo, SessionInfoView};

verus! {

/// The backend's connection state, broadcast to clients on every change.
#[derive(Debug, Clone)]
pub enum VpnState {
    Disconnected,
    Connecting(Box<ConnectInfo>),
    Connected(Box<ConnectedInfo>),
    /// The tunnel dropped and openconnect is re-establishing it with the
    /// existing cookie. Carries the last `ConnectedInfo` so the UI keeps
    /// showing the gateway/session details.
    Reconnecting(Box<ConnectedInfo>),
    /// The gateway issued an interactive MFA / one-time-code challenge
    /// mid-connect; the GUI prompts for the code.
    MfaChallenge(Box<MfaChallengeInfo>),
    Disconnecting,
}

/// The short human label of a state.
pub open spec fn state_label(s: VpnState) -> Seq<char> {
    match s {
        VpnState::Disconnected => "Disconnected"@,
        VpnState::Connecting(_) => "Connecting…"@,
        VpnState::Connected(_) => "Connected"@,
        VpnState::Reconnecting(_) => "Reconnecting…"@,
        VpnState::MfaChallenge(_) => "Verification required…"@,
        VpnState::Disconnecting => "Disconnecting…"@,
    }
}

/// Different states carry different labels: the label tells which state
/// the backend is in.
pub proof fn lemma_labels_distinguish(a: VpnState, b: VpnState)
    ensures
        state_label(a) == state_label(b) ==> {
            &&& (a is Disconnected <==> b is Disconnected)
            &&& (a is Connecting <==> b is Connecting)
            &&& (a is Connected <==> b is Connected)
            &&& (a is Reconnecting <==> b is Reconnecting)
            &&& (a is MfaChallenge <==> b is MfaChallenge)
            &&& (a is Disconnecting <==> b is Disconnecting)
        },
{
    reveal_strlit("Disconnected");
    reveal_strlit("Connecting…");
    reveal_strlit("Connected");
    reveal_strlit("Reconnecting…");
    reveal_strlit("Verification required…");
    reveal_strlit("Disconnecting…");
    assert("Disconnected"@.len() == 12);
    assert("Connecting…"@.len() == 11);
    assert("Connected"@.len() == 9);
    assert("Reconnecting…"@.len() == 13);
    assert("Verification required…"@.len() == 22);
    assert("Disconnecting…"@.len() == 14);
    if state_label(a) == state_label(b) {
        assert(state_label(a).len() == state_label(b).len());
    }
}

impl VpnState {
    /// Short human label for the current state (used by the GUI tray/status).
    pub fn label(&self) -> (r: &'static str)
        ensures
            r@ == state_label(*self),
    {
        match self {
            VpnState::Disconnected => "Disconnected",
            VpnState::Connecting(_) => "Connecting…",
            VpnState::Connected(_) => "Connected",
            VpnState::Reconnecting(_) => "Reconnecting…",
            VpnState::MfaChallenge(_) => "Verification required…",
            VpnState::Disconnecting => "Disconnecting…",
        }
    }
}

/// An interactive MFA/token challenge the gateway issued mid-connect. Only the
/// prompt is sent to the GUI.
#[derive(Debug, Clone)]
pub struct MfaChallengeInfo {
    message: String,
}

impl View for MfaChallengeInfo {
    type V = Seq<char>;

    /// The prompt text.
    closed spec fn view(&self) -> Seq<char> {
        self.message@
    }
}

impl MfaChallengeInfo {
    pub fn new(message: &str) -> (r: Self)
        ensures
            r@ == message@,
    {
        MfaChallengeInfo { message: message.to_string() }
    }

    pub fn message(&self) -> (r: &str)
        ensures
            r@ == self@,
    {
        self.message.as_str()
    }
}

/// What a connection attempt is aimed at: the portal, the selected gateway,
/// and the alternatives the portal offered.
#[derive(Debug, Clone)]
pub struct ConnectInfo {
    portal: String,
    gateway: Gateway,
    gateways: Vec<Gateway>,
}

/// The abstract value of a connection target.
pub struct ConnectInfoView {
    pub portal: Seq<char>,
    pub gateway: GatewayView,
    pub gateways: Seq<GatewayView>,
}

impl View for ConnectInfo {
    type V = ConnectInfoView;

    closed spec fn view(&self) -> ConnectInfoView {
        ConnectInfoView {
            portal: self.portal@,
            gateway: self.gateway@,
            gateways: gateways_view(self.gateways@),
        }
    }
}

impl ConnectInfo {
    pub fn new(portal: String, gateway: Gateway, gateways: Vec<Gateway>) -> (r: Self)
        ensures
            r@ == (ConnectInfoView {
                portal: portal@,
                gateway: gateway@,
                gateways: gateways_view(gateways@),
            }),
    {
        ConnectInfo { portal, gateway, gateways }
    }

    pub fn portal(&self) -> (r: &str)
        ensures
            r@ == self@.portal,
    {
        self.portal.as_str()
    }

    pub fn gateway(&self) -> (r: &Gateway)
        ensures
            r@ == self@.gateway,
    {
        &self.gateway
    }

    /// The alternatives the portal offered.
    pub fn gateways(&self) -> (r: &Vec<Gateway>)
        ensures
            gateways_view(r@) == self@.gateways,
    {
        &self.gateways
    }
}

/// Everything known about an established tunnel: what we connected to, the
/// session's lifetime metadata, and the tunnel facts openconnect reported.
#[derive(Debug, Clone)]
pub struct ConnectedInfo {
    info: Box<ConnectInfo>,
    session_info: Option<SessionInfo>,
    /// Tunnel interface name (e.g. `tun0`), reported by openconnect once the
    /// tun device is up.
    tun_iface: Option<String>,
    ipv4: Option<String>,
    ipv6: Option<String>,
}

/// The abstract value of an established tunnel's facts.
pub struct ConnectedInfoView {
    pub info: ConnectInfoView,
    pub session_info: Option<SessionInfoView>,
    pub tun_iface: Option<Seq<char>>,
    pub ipv4: Option<Seq<char>>,
    pub ipv6: Option<Seq<char>>,
}

impl View for ConnectedInfo {
    type V = ConnectedInfoView;

    closed spec fn view(&self) -> ConnectedInfoView {
        ConnectedInfoView {
            info: self.info@,
            session_info: opt_session_view(self.session_info),
            tun_iface: self.tun_iface.deep_view(),
            ipv4: self.ipv4.deep_view(),
            ipv6: self.ipv6.deep_view(),
        }
    }
}

/// Borrows the text of an optional string.
fn opt_as_str(o: &Option<String>) -> (r: Option<&str>)
    ensures
        r.deep_view() == o.deep_view(),
{
    match o {
        Some(s) => Some(s.as_str()),
        None => None,
    }
}

impl ConnectedInfo {
    pub fn new(info: ConnectInfo, session_info: Option<SessionInfo>) -> (r: Self)
        ensures
            r@ == (ConnectedInfoView {
                info: info@,
                session_info: opt_session_view(session_info),
                tun_iface: None,
                ipv4: None,
                ipv6: None,
            }),
    {
        ConnectedInfo { info: Box::new(info), session_info, tun_iface: None, ipv4: None, ipv6: None }
    }

    /// Attach the tunnel facts captured from openconnect; the target and the
    /// session metadata stay as they were.
    pub fn with_tunnel(
        self,
        tun_iface: Option<String>,
        ipv4: Option<String>,
        ipv6: Option<String>,
    ) -> (r: Self)
        ensures
            r@ == (ConnectedInfoView {
                tun_iface: tun_iface.deep_view(),
                ipv4: ipv4.deep_view(),
                ipv6: ipv6.deep_view(),
                ..self@
            }),
    {
        let mut s = self;
        s.tun_iface = tun_iface;
        s.ipv4 = ipv4;
        s.ipv6 = ipv6;
        s
    }

    pub fn info(&self) -> (r: &ConnectInfo)
        ensures
            r@ == self@.info,
    {
        &self.info
    }

    pub fn session_info(&self) -> (r: Option<&SessionInfo>)
        ensures
            match r {
                Some(s) => self@.session_info == Some(s@),
                None => self@.session_info is None,
            },
    {
        match &self.session_info {
            Some(s) => Some(s),
            None => None,
        }
    }

    pub fn tun_iface(&self) -> (r: Option<&str>)
        ensures
            r.deep_view() == self@.tun_iface,
    {
        opt_as_str(&self.tun_iface)
    }

    pub fn ipv4(&self) -> (r: Option<&str>)
        ensures
            r.deep_view() == self@.ipv4,
    {
        opt_as_str(&self.ipv4)
    }

    pub fn ipv6(&self) -> (r: Option<&str>)
        ensures
            r.deep_view() == self@.ipv6,
    {
        opt_as_str(&self.ipv6)
    }
}

} // verus!
