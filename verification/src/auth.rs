//! Authentication handoff.
//!
//! The GUI asks the backend to probe a server (prelogin, including the mTLS
//! client-cert step), shows the right credential UI, and then hands the
//! credential back. The backend performs the gateway login and starts the
//! tunnel in one go; progress arrives as the usual `VpnState` events.

use vstd::prelude::*;

use crate::os::ClientOs;
use crate::request::{args_debug_text, args_pretty_debug_text, ConnectArgs, ConnectArgsView};

verus! {

/// The value `as_gateway` takes when a peer leaves it out: such a peer
/// predates the field and means the original direct-gateway behavior.
pub fn default_as_gateway() -> (r: bool)
    ensures
        r,
{
    true
}

/// Ask the backend to run prelogin against a portal/gateway and report which
/// kind of authentication the server wants.
#[derive(Debug, Clone)]
pub struct ProbeRequest {
    /// Server to probe.
    pub server: String,
    /// Whether `server` is a gateway (direct-gateway flow, the default) or a
    /// portal (portal prelogin, then a gateway list).
    pub as_gateway: bool,
    /// Client certificate for the prelogin mTLS: a `pkcs11:` URI or a path to
    /// a PEM/PKCS#12 file readable by the backend.
    pub certificate: Option<String>,
    pub sslkey: Option<String>,
    pub key_password: Option<String>,
    pub ignore_tls_errors: bool,
    pub os: Option<ClientOs>,
    pub os_version: Option<String>,
    pub user_agent: Option<String>,
}

/// What the server's prelogin asked for.
#[derive(Debug, Clone)]
pub enum ProbeReply {
    /// SAML SSO: the GUI must run the request through a webview/browser and
    /// return the resulting cookie as `AuthCredential::Saml`.
    Saml { saml_request: String, supports_browser: bool },
    /// Username/password form (labels come from the server).
    Standard { username_label: String, password_label: String },
    /// Prelogin failed. `cert_needed` hints that the server demanded a client
    /// certificate the request didn't (successfully) present.
    Error { message: String, cert_needed: bool },
}

/// The credential obtained by the GUI after a probe.
#[derive(Debug, Clone)]
pub enum AuthCredential {
    /// Plain username/password (the `Standard` prelogin answer).
    Password { username: String, password: String },
    /// SAML result captured by the GUI's webview/browser flow.
    Saml {
        username: String,
        prelogin_cookie: Option<String>,
        portal_userauthcookie: Option<String>,
    },
    /// Cert-only servers: no interactive credential beyond the client cert.
    CertOnly,
}

/// Authenticate against the gateway and bring the tunnel up, in one request.
/// The backend fills the auth cookie into `args` after login; `args.cookie`
/// is ignored.
#[derive(Clone)]
pub struct ConnectAuthRequest {
    pub server: String,
    pub credential: AuthCredential,
    /// Whether `server` is a gateway (default) or a portal.
    pub as_gateway: bool,
    /// Prelogin/mTLS context: the same fields the probe used.
    pub certificate: Option<String>,
    pub sslkey: Option<String>,
    pub key_password: Option<String>,
    pub ignore_tls_errors: bool,
    pub os: Option<ClientOs>,
    pub os_version: Option<String>,
    pub user_agent: Option<String>,
    /// Tunnel options.
    pub args: ConnectArgs,
}

/// The abstract value of a probe request.
pub struct ProbeRequestView {
    pub server: Seq<char>,
    pub as_gateway: bool,
    pub certificate: Option<Seq<char>>,
    pub sslkey: Option<Seq<char>>,
    pub key_password: Option<Seq<char>>,
    pub ignore_tls_errors: bool,
    pub os: Option<ClientOs>,
    pub os_version: Option<Seq<char>>,
    pub user_agent: Option<Seq<char>>,
}

impl View for ProbeRequest {
    type V = ProbeRequestView;

    open spec fn view(&self) -> ProbeRequestView {
        ProbeRequestView {
            server: self.server@,
            as_gateway: self.as_gateway,
            certificate: self.certificate.deep_view(),
            sslkey: self.sslkey.deep_view(),
            key_password: self.key_password.deep_view(),
            ignore_tls_errors: self.ignore_tls_errors,
            os: self.os,
            os_version: self.os_version.deep_view(),
            user_agent: self.user_agent.deep_view(),
        }
    }
}

/// The abstract value of a credential.
pub enum AuthCredentialView {
    Password { username: Seq<char>, password: Seq<char> },
    Saml {
        username: Seq<char>,
        prelogin_cookie: Option<Seq<char>>,
        portal_userauthcookie: Option<Seq<char>>,
    },
    CertOnly,
}

impl View for AuthCredential {
    type V = AuthCredentialView;

    open spec fn view(&self) -> AuthCredentialView {
        match self {
            AuthCredential::Password { username, password } => AuthCredentialView::Password {
                username: username@,
                password: password@,
            },
            AuthCredential::Saml { username, prelogin_cookie, portal_userauthcookie } => {
                AuthCredentialView::Saml {
                    username: username@,
                    prelogin_cookie: prelogin_cookie.deep_view(),
                    portal_userauthcookie: portal_userauthcookie.deep_view(),
                }
            },
            AuthCredential::CertOnly => AuthCredentialView::CertOnly,
        }
    }
}

/// The abstract value of a connect-with-credential request.
pub struct ConnectAuthRequestView {
    pub server: Seq<char>,
    pub credential: AuthCredentialView,
    pub as_gateway: bool,
    pub certificate: Option<Seq<char>>,
    pub sslkey: Option<Seq<char>>,
    pub key_password: Option<Seq<char>>,
    pub ignore_tls_errors: bool,
    pub os: Option<ClientOs>,
    pub os_version: Option<Seq<char>>,
    pub user_agent: Option<Seq<char>>,
    pub args: ConnectArgsView,
}

impl View for ConnectAuthRequest {
    type V = ConnectAuthRequestView;

    open spec fn view(&self) -> ConnectAuthRequestView {
        ConnectAuthRequestView {
            server: self.server@,
            credential: self.credential@,
            as_gateway: self.as_gateway,
            certificate: self.certificate.deep_view(),
            sslkey: self.sslkey.deep_view(),
            key_password: self.key_password.deep_view(),
            ignore_tls_errors: self.ignore_tls_errors,
            os: self.os,
            os_version: self.os_version.deep_view(),
            user_agent: self.user_agent.deep_view(),
            args: self.args@,
        }
    }
}

/// A key password as debug output may show it: `<redacted>` when present,
/// absent when absent.
pub open spec fn redacted_password(key_password: Option<Seq<char>>) -> Option<Seq<char>> {
    match key_password {
        Some(_) => Some("<redacted>"@),
        None => None,
    }
}

/// A probe request as debug output may show it: the key password redacted,
/// every other field as it is.
pub open spec fn redacted_probe(p: ProbeRequestView) -> ProbeRequestView {
    ProbeRequestView { key_password: redacted_password(p.key_password), ..p }
}

/// A connect-with-credential request as debug output may show it: its own
/// key password redacted, every other field as it is (the tunnel parameters
/// redact their secrets in their own debug text).
pub open spec fn redacted_connect_auth(r: ConnectAuthRequestView) -> ConnectAuthRequestView {
    ConnectAuthRequestView { key_password: redacted_password(r.key_password), ..r }
}

/// The redacted stand-in for a present key password.
fn redacted_text(key_password: Option<String>) -> (r: Option<String>)
    ensures
        r.deep_view() == redacted_password(key_password.deep_view()),
{
    match key_password {
        Some(_) => Some("<redacted>".to_string()),
        None => None,
    }
}

impl ProbeRequest {
    /// The request with its key password replaced by `<redacted>`, the form
    /// debug output shows so that it cannot leak the key password.
    pub fn into_redacted(self) -> (r: Self)
        ensures
            r@ == redacted_probe(self@),
    {
        ProbeRequest {
            server: self.server,
            as_gateway: self.as_gateway,
            certificate: self.certificate,
            sslkey: self.sslkey,
            key_password: redacted_text(self.key_password),
            ignore_tls_errors: self.ignore_tls_errors,
            os: self.os,
            os_version: self.os_version,
            user_agent: self.user_agent,
        }
    }
}

impl ConnectAuthRequest {
    /// The request with its own key password replaced by `<redacted>`, the
    /// form debug output shows; the tunnel parameters are kept, their debug
    /// text redacting the cookie and their key password.
    pub fn into_redacted(self) -> (r: Self)
        ensures
            r@ == redacted_connect_auth(self@),
    {
        ConnectAuthRequest {
            server: self.server,
            credential: self.credential,
            as_gateway: self.as_gateway,
            certificate: self.certificate,
            sslkey: self.sslkey,
            key_password: redacted_text(self.key_password),
            ignore_tls_errors: self.ignore_tls_errors,
            os: self.os,
            os_version: self.os_version,
            user_agent: self.user_agent,
            args: self.args,
        }
    }
}

/// Redacting a probe request changes its key password only: every other
/// field keeps its value, and the key password stays present exactly when it
/// was present, as `<redacted>`.
pub proof fn lemma_redacted_probe_keeps_other_fields(p: ProbeRequestView)
    ensures
        ({
            let r = redacted_probe(p);
            &&& r.server == p.server
            &&& r.as_gateway == p.as_gateway
            &&& r.certificate == p.certificate
            &&& r.sslkey == p.sslkey
            &&& r.ignore_tls_errors == p.ignore_tls_errors
            &&& r.os == p.os
            &&& r.os_version == p.os_version
            &&& r.user_agent == p.user_agent
            &&& (r.key_password is Some <==> p.key_password is Some)
            &&& (r.key_password is Some ==> r.key_password.unwrap() == "<redacted>"@)
        }),
{
}

/// Redacting a connect-with-credential request changes its own key password
/// only: every other field, the credential and the tunnel parameters
/// included, keeps its value, and the key password stays present exactly
/// when it was present, as `<redacted>`.
pub proof fn lemma_redacted_connect_auth_keeps_other_fields(q: ConnectAuthRequestView)
    ensures
        ({
            let r = redacted_connect_auth(q);
            &&& r.server == q.server
            &&& r.credential == q.credential
            &&& r.as_gateway == q.as_gateway
            &&& r.certificate == q.certificate
            &&& r.sslkey == q.sslkey
            &&& r.ignore_tls_errors == q.ignore_tls_errors
            &&& r.os == q.os
            &&& r.os_version == q.os_version
            &&& r.user_agent == q.user_agent
            &&& r.args == q.args
            &&& (r.key_password is Some <==> q.key_password is Some)
            &&& (r.key_password is Some ==> r.key_password.unwrap() == "<redacted>"@)
        }),
{
}

/// Two probe requests that differ at most in the text of the key password
/// (present in both or in neither) redact to the same request: the redacted
/// form shows nothing of the key password.
pub proof fn lemma_redacted_probe_hides_key_password(a: ProbeRequestView, b: ProbeRequestView)
    requires
        (ProbeRequestView { key_password: b.key_password, ..a }) == b,
        a.key_password is Some <==> b.key_password is Some,
    ensures
        redacted_probe(a) == redacted_probe(b),
{
}

/// Two connect-with-credential requests that differ at most in the text of
/// their own key password and of the tunnel parameters' cookie and key
/// password (each present in both or in neither) redact to requests that
/// differ only in those tunnel parameters, whose debug texts agree: debug
/// output built from the redacted form shows none of these secrets.
pub proof fn lemma_redacted_connect_auth_hides_secrets(
    a: ConnectAuthRequestView,
    b: ConnectAuthRequestView,
)
    requires
        (ConnectAuthRequestView { key_password: b.key_password, args: b.args, ..a }) == b,
        a.key_password is Some <==> b.key_password is Some,
        (ConnectArgsView { cookie: b.args.cookie, key_password: b.args.key_password, ..a.args })
            == b.args,
        a.args.key_password is Some <==> b.args.key_password is Some,
    ensures
        (ConnectAuthRequestView { args: b.args, ..redacted_connect_auth(a) })
            == redacted_connect_auth(b),
        args_debug_text(a.args) == args_debug_text(b.args),
        args_pretty_debug_text(a.args) == args_pretty_debug_text(b.args),
{
    crate::request::lemma_debug_text_hides_secrets(a.args, b.args);
}

} // verus!
