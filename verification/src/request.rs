//! Client → backend requests, chiefly the connect request.
//!
//! `ConnectArgs` carries everything the backend's openconnect engine needs to
//! bring the tunnel up. It is built through `ConnectRequest`'s `with_*`
//! methods and read by the backend.

use vstd::prelude::*;
use vstd::string::StringExecFns;

use crate::auth::{ConnectAuthRequest, ProbeRequest};
use crate::gateway::Gateway;
use crate::os::{lemma_names_distinguish, openconnect_name, portal_name, ClientOs};
use crate::state::{ConnectInfo, ConnectInfoView};
use crate::text::{
    append_bool, append_decimal, append_list_quoted, append_list_quoted_pretty, append_opt_quoted,
    append_opt_quoted_pretty, bool_text, decimal_text, list_quoted_form, list_quoted_pretty_form,
    lemma_concat_parts_eq, lemma_concat_regroup, lemma_concat_regroup4, opt_quoted_form, opt_quoted_pretty_form,
};

verus! {

/// A value a builder method accepts for an optional field: either the plain
/// value, which sets the field, or an `Option`, which sets or clears it.
pub trait OptionalArg<T>: Sized {
    /// The option the value stands for.
    spec fn as_option(self) -> Option<T>;

    fn into_option(self) -> (r: Option<T>)
        ensures
            r == self.as_option(),
    ;
}

impl OptionalArg<String> for String {
    open spec fn as_option(self) -> Option<String> {
        Some(self)
    }

    fn into_option(self) -> (r: Option<String>) {
        Some(self)
    }
}

impl OptionalArg<String> for Option<String> {
    open spec fn as_option(self) -> Option<String> {
        self
    }

    fn into_option(self) -> (r: Option<String>) {
        self
    }
}

impl OptionalArg<ClientOs> for ClientOs {
    open spec fn as_option(self) -> Option<ClientOs> {
        Some(self)
    }

    fn into_option(self) -> (r: Option<ClientOs>) {
        Some(self)
    }
}

impl OptionalArg<ClientOs> for Option<ClientOs> {
    open spec fn as_option(self) -> Option<ClientOs> {
        self
    }

    fn into_option(self) -> (r: Option<ClientOs>) {
        self
    }
}

/// A plain value and the same value wrapped in `Some` set a text field to
/// the same thing.
pub proof fn lemma_plain_text_is_some(v: String)
    ensures
        <String as OptionalArg<String>>::as_option(v)
            == <Option<String> as OptionalArg<String>>::as_option(Some(v)),
{
}

/// A plain OS and the same OS wrapped in `Some` set the `os` field to the
/// same thing.
pub proof fn lemma_plain_os_is_some(os: ClientOs)
    ensures
        <ClientOs as OptionalArg<ClientOs>>::as_option(os)
            == <Option<ClientOs> as OptionalArg<ClientOs>>::as_option(Some(os)),
{
}

/// Tunnel parameters for a connect request.
///
/// Carries secrets (the gateway auth `cookie`, and `key_password`): its
/// debug text redacts them, and dropping it scrubs them.
#[derive(Clone)]
pub struct ConnectArgs {
    cookie: String,
    vpnc_script: Option<String>,
    user_agent: Option<String>,
    os: Option<ClientOs>,
    os_version: Option<String>,
    client_version: Option<String>,
    certificate: Option<String>,
    sslkey: Option<String>,
    key_password: Option<String>,
    hip: bool,
    csd_uid: u32,
    csd_wrapper: Option<String>,
    reconnect_timeout: u32,
    mtu: u32,
    disable_ipv6: bool,
    no_dtls: bool,
    local_hostname: Option<String>,
    force_dpd: u32,
    no_xmlpost: bool,
    allow_extend_session: bool,
    /// Domains to scope the tunnel's DNS to. Empty means the backend's
    /// default behavior.
    dns_domains: Vec<String>,
}

/// The abstract value of the tunnel parameters.
pub struct ConnectArgsView {
    pub cookie: Seq<char>,
    pub vpnc_script: Option<Seq<char>>,
    pub user_agent: Option<Seq<char>>,
    pub os: Option<ClientOs>,
    pub os_version: Option<Seq<char>>,
    pub client_version: Option<Seq<char>>,
    pub certificate: Option<Seq<char>>,
    pub sslkey: Option<Seq<char>>,
    pub key_password: Option<Seq<char>>,
    pub hip: bool,
    pub csd_uid: u32,
    pub csd_wrapper: Option<Seq<char>>,
    pub reconnect_timeout: u32,
    pub mtu: u32,
    pub disable_ipv6: bool,
    pub no_dtls: bool,
    pub local_hostname: Option<Seq<char>>,
    pub force_dpd: u32,
    pub no_xmlpost: bool,
    pub allow_extend_session: bool,
    pub dns_domains: Seq<Seq<char>>,
}

impl View for ConnectArgs {
    type V = ConnectArgsView;

    closed spec fn view(&self) -> ConnectArgsView {
        ConnectArgsView {
            cookie: self.cookie@,
            vpnc_script: self.vpnc_script.deep_view(),
            user_agent: self.user_agent.deep_view(),
            os: self.os,
            os_version: self.os_version.deep_view(),
            client_version: self.client_version.deep_view(),
            certificate: self.certificate.deep_view(),
            sslkey: self.sslkey.deep_view(),
            key_password: self.key_password.deep_view(),
            hip: self.hip,
            csd_uid: self.csd_uid,
            csd_wrapper: self.csd_wrapper.deep_view(),
            reconnect_timeout: self.reconnect_timeout,
            mtu: self.mtu,
            disable_ipv6: self.disable_ipv6,
            no_dtls: self.no_dtls,
            local_hostname: self.local_hostname.deep_view(),
            force_dpd: self.force_dpd,
            no_xmlpost: self.no_xmlpost,
            allow_extend_session: self.allow_extend_session,
            dns_domains: self.dns_domains.deep_view(),
        }
    }
}

/// The parameters a fresh connect request starts from: the given cookie, a
/// reconnect timeout of 300 seconds, and every other option unset, zero or
/// false.
pub open spec fn initial_args(cookie: Seq<char>) -> ConnectArgsView {
    ConnectArgsView {
        cookie: cookie,
        vpnc_script: None,
        user_agent: None,
        os: None,
        os_version: None,
        client_version: None,
        certificate: None,
        sslkey: None,
        key_password: None,
        hip: false,
        csd_uid: 0,
        csd_wrapper: None,
        reconnect_timeout: 300,
        mtu: 0,
        disable_ipv6: false,
        no_dtls: false,
        local_hostname: None,
        force_dpd: 0,
        no_xmlpost: false,
        allow_extend_session: false,
        dns_domains: Seq::empty(),
    }
}

/// The openconnect name of the optional OS.
pub open spec fn opt_openconnect_name(os: Option<ClientOs>) -> Option<Seq<char>> {
    match os {
        Some(os) => Some(openconnect_name(os)),
        None => None,
    }
}

/// The openconnect OS of a parameter set is the openconnect name of its own
/// OS (none when no OS is set), so different OS choices give different
/// answers.
pub proof fn lemma_openconnect_os_translates(os: Option<ClientOs>, other: Option<ClientOs>)
    ensures
        os is None ==> opt_openconnect_name(os) is None,
        os is Some ==> opt_openconnect_name(os) == Some(openconnect_name(os.unwrap())),
        os != other ==> opt_openconnect_name(os) != opt_openconnect_name(other),
{
    if os != other && os is Some && other is Some {
        lemma_names_distinguish(os.unwrap(), other.unwrap());
    }
}

/// The debug form of an optional OS. An OS's debug form is its variant name,
/// which is the same text as its portal-side name.
pub open spec fn opt_os_form(os: Option<ClientOs>) -> Seq<char> {
    match os {
        Some(os) => "Some("@ + portal_name(os) + ")"@,
        None => "None"@,
    }
}

/// The debug form of the key password: its presence only, never its text.
pub open spec fn redacted_password_form(key_password: Option<Seq<char>>) -> Seq<char> {
    if key_password is Some {
        "Some(\"<redacted>\")"@
    } else {
        "None"@
    }
}

/// The debug text of the tunnel parameters is made of 22 pieces: the
/// opening with the redacted cookie, one piece per further field in
/// declaration order (`, name: value`), and the closing ` }`. The cookie
/// always shows as `"<redacted>"` and the key password as `Some("<redacted>")`
/// or `None`.
pub open spec fn args_debug_piece(m: ConnectArgsView, i: int) -> Seq<char> {
    if i == 0 {
        "ConnectArgs { cookie: \"<redacted>\""@
    } else if i == 1 {
        ", key_password: "@ + redacted_password_form(m.key_password)
    } else if i == 2 {
        ", vpnc_script: "@ + opt_quoted_form(m.vpnc_script)
    } else if i == 3 {
        ", user_agent: "@ + opt_quoted_form(m.user_agent)
    } else if i == 4 {
        ", os: "@ + opt_os_form(m.os)
    } else if i == 5 {
        ", os_version: "@ + opt_quoted_form(m.os_version)
    } else if i == 6 {
        ", client_version: "@ + opt_quoted_form(m.client_version)
    } else if i == 7 {
        ", certificate: "@ + opt_quoted_form(m.certificate)
    } else if i == 8 {
        ", sslkey: "@ + opt_quoted_form(m.sslkey)
    } else if i == 9 {
        ", hip: "@ + bool_text(m.hip)
    } else if i == 10 {
        ", csd_uid: "@ + decimal_text(m.csd_uid as nat)
    } else if i == 11 {
        ", csd_wrapper: "@ + opt_quoted_form(m.csd_wrapper)
    } else if i == 12 {
        ", reconnect_timeout: "@ + decimal_text(m.reconnect_timeout as nat)
    } else if i == 13 {
        ", mtu: "@ + decimal_text(m.mtu as nat)
    } else if i == 14 {
        ", disable_ipv6: "@ + bool_text(m.disable_ipv6)
    } else if i == 15 {
        ", no_dtls: "@ + bool_text(m.no_dtls)
    } else if i == 16 {
        ", local_hostname: "@ + opt_quoted_form(m.local_hostname)
    } else if i == 17 {
        ", force_dpd: "@ + decimal_text(m.force_dpd as nat)
    } else if i == 18 {
        ", no_xmlpost: "@ + bool_text(m.no_xmlpost)
    } else if i == 19 {
        ", allow_extend_session: "@ + bool_text(m.allow_extend_session)
    } else if i == 20 {
        ", dns_domains: "@ + list_quoted_form(m.dns_domains)
    } else {
        " }"@
    }
}

/// The first `n` pieces of the debug text, in order.
pub open spec fn args_debug_prefix(m: ConnectArgsView, n: nat) -> Seq<char>
    decreases n,
{
    if n == 0 {
        Seq::empty()
    } else {
        args_debug_prefix(m, (n - 1) as nat) + args_debug_piece(m, n - 1)
    }
}

/// The number of pieces of the debug texts.
pub open spec fn args_debug_piece_count() -> nat {
    22
}

/// The debug text of the tunnel parameters: all its pieces in order.
pub open spec fn args_debug_text(m: ConnectArgsView) -> Seq<char> {
    args_debug_prefix(m, args_debug_piece_count())
}

/// The pretty form of an optional OS standing as a field of a struct.
pub open spec fn opt_os_pretty_form(os: Option<ClientOs>) -> Seq<char> {
    match os {
        Some(os) => "Some(\n        "@ + portal_name(os) + ",\n    )"@,
        None => "None"@,
    }
}

/// The pretty form of the key password: its presence only, never its text.
pub open spec fn redacted_password_pretty_form(key_password: Option<Seq<char>>) -> Seq<char> {
    if key_password is Some {
        "Some(\n        \"<redacted>\",\n    )"@
    } else {
        "None"@
    }
}

/// The pretty (`{:#?}`) debug text is made of 22 pieces: the opening with
/// the redacted cookie, one line per further field in declaration order
/// (four spaces, `name: value,`), and the closing `}`; the redaction is the
/// same as in the compact text.
pub open spec fn args_pretty_piece(m: ConnectArgsView, i: int) -> Seq<char> {
    if i == 0 {
        "ConnectArgs {\n    cookie: \"<redacted>\",\n"@
    } else if i == 1 {
        "    key_password: "@ + redacted_password_pretty_form(m.key_password) + ",\n"@
    } else if i == 2 {
        "    vpnc_script: "@ + opt_quoted_pretty_form(m.vpnc_script) + ",\n"@
    } else if i == 3 {
        "    user_agent: "@ + opt_quoted_pretty_form(m.user_agent) + ",\n"@
    } else if i == 4 {
        "    os: "@ + opt_os_pretty_form(m.os) + ",\n"@
    } else if i == 5 {
        "    os_version: "@ + opt_quoted_pretty_form(m.os_version) + ",\n"@
    } else if i == 6 {
        "    client_version: "@ + opt_quoted_pretty_form(m.client_version) + ",\n"@
    } else if i == 7 {
        "    certificate: "@ + opt_quoted_pretty_form(m.certificate) + ",\n"@
    } else if i == 8 {
        "    sslkey: "@ + opt_quoted_pretty_form(m.sslkey) + ",\n"@
    } else if i == 9 {
        "    hip: "@ + bool_text(m.hip) + ",\n"@
    } else if i == 10 {
        "    csd_uid: "@ + decimal_text(m.csd_uid as nat) + ",\n"@
    } else if i == 11 {
        "    csd_wrapper: "@ + opt_quoted_pretty_form(m.csd_wrapper) + ",\n"@
    } else if i == 12 {
        "    reconnect_timeout: "@ + decimal_text(m.reconnect_timeout as nat) + ",\n"@
    } else if i == 13 {
        "    mtu: "@ + decimal_text(m.mtu as nat) + ",\n"@
    } else if i == 14 {
        "    disable_ipv6: "@ + bool_text(m.disable_ipv6) + ",\n"@
    } else if i == 15 {
        "    no_dtls: "@ + bool_text(m.no_dtls) + ",\n"@
    } else if i == 16 {
        "    local_hostname: "@ + opt_quoted_pretty_form(m.local_hostname) + ",\n"@
    } else if i == 17 {
        "    force_dpd: "@ + decimal_text(m.force_dpd as nat) + ",\n"@
    } else if i == 18 {
        "    no_xmlpost: "@ + bool_text(m.no_xmlpost) + ",\n"@
    } else if i == 19 {
        "    allow_extend_session: "@ + bool_text(m.allow_extend_session) + ",\n"@
    } else if i == 20 {
        "    dns_domains: "@ + list_quoted_pretty_form(m.dns_domains) + ",\n"@
    } else {
        "}"@
    }
}

/// The first `n` pieces of the pretty debug text, in order.
pub open spec fn args_pretty_prefix(m: ConnectArgsView, n: nat) -> Seq<char>
    decreases n,
{
    if n == 0 {
        Seq::empty()
    } else {
        args_pretty_prefix(m, (n - 1) as nat) + args_pretty_piece(m, n - 1)
    }
}

/// The pretty (`{:#?}`) debug text of the tunnel parameters: all its pieces
/// in order.
pub open spec fn args_pretty_debug_text(m: ConnectArgsView) -> Seq<char> {
    args_pretty_prefix(m, args_debug_piece_count())
}

/// Texts made of pairwise equal debug pieces are equal.
pub proof fn lemma_debug_prefix_eq(a: ConnectArgsView, b: ConnectArgsView, n: nat)
    requires
        forall|i: int| 0 <= i < n ==> args_debug_piece(a, i) == args_debug_piece(b, i),
    ensures
        args_debug_prefix(a, n) == args_debug_prefix(b, n),
    decreases n,
{
    if n > 0 {
        lemma_debug_prefix_eq(a, b, (n - 1) as nat);
    }
}

/// When two debug texts of `n` pieces are equal and all their pieces but
/// the `k`-th are pairwise equal, the `k`-th pieces are equal too.
pub proof fn lemma_debug_piece_determined(a: ConnectArgsView, b: ConnectArgsView, k: int, n: nat)
    requires
        0 <= k < n,
        forall|i: int| 0 <= i < n && i != k ==> args_debug_piece(a, i) == args_debug_piece(b, i),
        args_debug_prefix(a, n) == args_debug_prefix(b, n),
    ensures
        args_debug_piece(a, k) == args_debug_piece(b, k),
    decreases n,
{
    let m = (n - 1) as nat;
    if m == k {
        lemma_debug_prefix_eq(a, b, m);
        lemma_concat_parts_eq(args_debug_prefix(a, m), args_debug_piece(a, k), args_debug_prefix(b, m), args_debug_piece(b, k));
    } else {
        lemma_concat_parts_eq(args_debug_prefix(a, m), args_debug_piece(a, m as int), args_debug_prefix(b, m), args_debug_piece(b, m as int));
        lemma_debug_piece_determined(a, b, k, m);
    }
}

/// Texts made of pairwise equal pretty pieces are equal.
pub proof fn lemma_pretty_prefix_eq(a: ConnectArgsView, b: ConnectArgsView, n: nat)
    requires
        forall|i: int| 0 <= i < n ==> args_pretty_piece(a, i) == args_pretty_piece(b, i),
    ensures
        args_pretty_prefix(a, n) == args_pretty_prefix(b, n),
    decreases n,
{
    if n > 0 {
        lemma_pretty_prefix_eq(a, b, (n - 1) as nat);
    }
}

/// When two pretty texts of `n` pieces are equal and all their pieces but
/// the `k`-th are pairwise equal, the `k`-th pieces are equal too.
pub proof fn lemma_pretty_piece_determined(a: ConnectArgsView, b: ConnectArgsView, k: int, n: nat)
    requires
        0 <= k < n,
        forall|i: int| 0 <= i < n && i != k ==> args_pretty_piece(a, i) == args_pretty_piece(b, i),
        args_pretty_prefix(a, n) == args_pretty_prefix(b, n),
    ensures
        args_pretty_piece(a, k) == args_pretty_piece(b, k),
    decreases n,
{
    let m = (n - 1) as nat;
    if m == k {
        lemma_pretty_prefix_eq(a, b, m);
        lemma_concat_parts_eq(args_pretty_prefix(a, m), args_pretty_piece(a, k), args_pretty_prefix(b, m), args_pretty_piece(b, k));
    } else {
        lemma_concat_parts_eq(args_pretty_prefix(a, m), args_pretty_piece(a, m as int), args_pretty_prefix(b, m), args_pretty_piece(b, m as int));
        lemma_pretty_piece_determined(a, b, k, m);
    }
}

/// Two parameter sets that differ at most in the text of the cookie and of
/// the key password (a key password being present in both or in neither)
/// have the same debug text, compact and pretty: neither shows anything of
/// the secrets.
pub proof fn lemma_debug_text_hides_secrets(a: ConnectArgsView, b: ConnectArgsView)
    requires
        (ConnectArgsView { cookie: b.cookie, key_password: b.key_password, ..a }) == b,
        a.key_password is Some <==> b.key_password is Some,
    ensures
        args_debug_text(a) == args_debug_text(b),
        args_pretty_debug_text(a) == args_pretty_debug_text(b),
{
    lemma_debug_prefix_eq(a, b, args_debug_piece_count());
    lemma_pretty_prefix_eq(a, b, args_debug_piece_count());
}

/// `zeroize::Zeroize::zeroize` on a `String`: overwrites the bytes with
/// zeros, then clears the string, so it is left empty.
#[verifier::external_body]
fn scrub_string(s: &mut String)
    ensures
        final(s)@ == Seq::<char>::empty(),
    opens_invariants none
    no_unwind
{
    zeroize::Zeroize::zeroize(s);
}

/// The key password after a scrub: emptied when present, absent when absent.
pub open spec fn scrubbed_password(key_password: Option<Seq<char>>) -> Option<Seq<char>> {
    match key_password {
        Some(_) => Some(Seq::empty()),
        None => None,
    }
}

/// Scrubbing leaves a present key password present and empty, and an absent
/// one absent.
pub proof fn lemma_scrubbed_password(key_password: Option<Seq<char>>)
    ensures
        scrubbed_password(key_password) is Some <==> key_password is Some,
        scrubbed_password(key_password) is Some ==> scrubbed_password(key_password).unwrap().len() == 0,
{
}

/// Scrubs a cookie and a key password: the cookie is left empty, a present
/// key password is left empty, an absent one stays absent.
pub fn scrub_secrets(cookie: &mut String, key_password: &mut Option<String>)
    ensures
        final(cookie)@ == Seq::<char>::empty(),
        final(key_password).deep_view() == scrubbed_password(old(key_password).deep_view()),
    opens_invariants none
    no_unwind
{
    scrub_string(cookie);
    match key_password {
        Some(k) => scrub_string(k),
        None => {},
    }
}

/// Clones an optional string.
fn clone_opt_string(o: &Option<String>) -> (r: Option<String>)
    ensures
        r.deep_view() == o.deep_view(),
{
    o.clone()
}

/// Appends the debug form of an optional OS.
fn append_opt_os(out: &mut String, os: &Option<ClientOs>)
    ensures
        final(out)@ == old(out)@ + opt_os_form(*os),
{
    match os {
        Some(os) => {
            let ghost before = out@;
            out.append("Some(");
            out.append(os.as_str());
            out.append(")");
            assert(out@ =~= before + opt_os_form(Some(*os)));
        },
        None => {
            out.append("None");
        },
    }
}

/// Appends the pretty debug form of an optional OS field.
fn append_opt_os_pretty(out: &mut String, os: &Option<ClientOs>)
    ensures
        final(out)@ == old(out)@ + opt_os_pretty_form(*os),
{
    match os {
        Some(os) => {
            let ghost before = out@;
            out.append("Some(\n        ");
            out.append(os.as_str());
            out.append(",\n    )");
            assert(out@ =~= before + opt_os_pretty_form(Some(*os)));
        },
        None => {
            out.append("None");
        },
    }
}

/// Appends the redacted debug form of the key password.
fn append_redacted_password(out: &mut String, key_password: &Option<String>)
    ensures
        final(out)@ == old(out)@ + redacted_password_form(key_password.deep_view()),
{
    if key_password.is_some() {
        out.append("Some(\"<redacted>\")");
    } else {
        out.append("None");
    }
}

/// Appends the redacted pretty debug form of the key password.
fn append_redacted_password_pretty(out: &mut String, key_password: &Option<String>)
    ensures
        final(out)@ == old(out)@ + redacted_password_pretty_form(key_password.deep_view()),
{
    if key_password.is_some() {
        out.append("Some(\n        \"<redacted>\",\n    )");
    } else {
        out.append("None");
    }
}

impl ConnectArgs {
    pub fn new(cookie: String) -> (r: Self)
        ensures
            r@ == initial_args(cookie@),
    {
        let r = ConnectArgs {
            cookie,
            vpnc_script: None,
            user_agent: None,
            os: None,
            os_version: None,
            client_version: None,
            certificate: None,
            sslkey: None,
            key_password: None,
            hip: false,
            csd_uid: 0,
            csd_wrapper: None,
            reconnect_timeout: 300,
            mtu: 0,
            disable_ipv6: false,
            no_dtls: false,
            local_hostname: None,
            force_dpd: 0,
            no_xmlpost: false,
            allow_extend_session: false,
            dns_domains: Vec::new(),
        };
        assert(r@.dns_domains =~= Seq::<Seq<char>>::empty());
        r
    }

    /// The gateway auth cookie the tunnel authenticates with.
    pub fn cookie(&self) -> (r: &str)
        ensures
            r@ == self@.cookie,
    {
        self.cookie.as_str()
    }

    /// The `os` value translated to openconnect's `--os` vocabulary.
    pub fn openconnect_os(&self) -> (r: Option<String>)
        ensures
            r.deep_view() == opt_openconnect_name(self@.os),
    {
        match &self.os {
            Some(os) => Some(os.to_openconnect_os().to_string()),
            None => None,
        }
    }

    pub fn vpnc_script(&self) -> (r: Option<String>)
        ensures
            r.deep_view() == self@.vpnc_script,
    {
        clone_opt_string(&self.vpnc_script)
    }

    pub fn user_agent(&self) -> (r: Option<String>)
        ensures
            r.deep_view() == self@.user_agent,
    {
        clone_opt_string(&self.user_agent)
    }

    pub fn os(&self) -> (r: Option<ClientOs>)
        ensures
            r == self@.os,
    {
        self.os
    }

    pub fn os_version(&self) -> (r: Option<String>)
        ensures
            r.deep_view() == self@.os_version,
    {
        clone_opt_string(&self.os_version)
    }

    pub fn client_version(&self) -> (r: Option<String>)
        ensures
            r.deep_view() == self@.client_version,
    {
        clone_opt_string(&self.client_version)
    }

    pub fn certificate(&self) -> (r: Option<String>)
        ensures
            r.deep_view() == self@.certificate,
    {
        clone_opt_string(&self.certificate)
    }

    pub fn sslkey(&self) -> (r: Option<String>)
        ensures
            r.deep_view() == self@.sslkey,
    {
        clone_opt_string(&self.sslkey)
    }

    pub fn key_password(&self) -> (r: Option<String>)
        ensures
            r.deep_view() == self@.key_password,
    {
        clone_opt_string(&self.key_password)
    }

    pub fn hip(&self) -> (r: bool)
        ensures
            r == self@.hip,
    {
        self.hip
    }

    pub fn csd_uid(&self) -> (r: u32)
        ensures
            r == self@.csd_uid,
    {
        self.csd_uid
    }

    pub fn csd_wrapper(&self) -> (r: Option<String>)
        ensures
            r.deep_view() == self@.csd_wrapper,
    {
        clone_opt_string(&self.csd_wrapper)
    }

    pub fn reconnect_timeout(&self) -> (r: u32)
        ensures
            r == self@.reconnect_timeout,
    {
        self.reconnect_timeout
    }

    pub fn mtu(&self) -> (r: u32)
        ensures
            r == self@.mtu,
    {
        self.mtu
    }

    pub fn disable_ipv6(&self) -> (r: bool)
        ensures
            r == self@.disable_ipv6,
    {
        self.disable_ipv6
    }

    pub fn no_dtls(&self) -> (r: bool)
        ensures
            r == self@.no_dtls,
    {
        self.no_dtls
    }

    pub fn local_hostname(&self) -> (r: Option<String>)
        ensures
            r.deep_view() == self@.local_hostname,
    {
        clone_opt_string(&self.local_hostname)
    }

    pub fn force_dpd(&self) -> (r: u32)
        ensures
            r == self@.force_dpd,
    {
        self.force_dpd
    }

    pub fn no_xmlpost(&self) -> (r: bool)
        ensures
            r == self@.no_xmlpost,
    {
        self.no_xmlpost
    }

    pub fn allow_extend_session(&self) -> (r: bool)
        ensures
            r == self@.allow_extend_session,
    {
        self.allow_extend_session
    }

    pub fn dns_domains(&self) -> (r: Vec<String>)
        ensures
            r.deep_view() == self@.dns_domains,
    {
        self.dns_domains.clone()
    }

    /// The debug text of the parameters, with the secrets redacted so that
    /// printing a request cannot leak the auth cookie or the key password.
    pub fn debug_string(&self) -> (r: String)
        ensures
            r@ == args_debug_text(self@),
    {
        let mut out = String::from_str("ConnectArgs { cookie: \"<redacted>\"");
        proof {
            reveal_with_fuel(args_debug_prefix, 2);
            assert(args_debug_prefix(self@, 1) =~= args_debug_piece(self@, 0));
        }
        let ghost o = out@;
        out.append(", key_password: ");
        append_redacted_password(&mut out, &self.key_password);
        proof { lemma_concat_regroup(o, ", key_password: "@, redacted_password_form(self@.key_password)); }
        assert(out@ == args_debug_prefix(self@, 2));
        let ghost o = out@;
        out.append(", vpnc_script: ");
        append_opt_quoted(&mut out, &self.vpnc_script);
        proof { lemma_concat_regroup(o, ", vpnc_script: "@, opt_quoted_form(self@.vpnc_script)); }
        assert(out@ == args_debug_prefix(self@, 3));
        let ghost o = out@;
        out.append(", user_agent: ");
        append_opt_quoted(&mut out, &self.user_agent);
        proof { lemma_concat_regroup(o, ", user_agent: "@, opt_quoted_form(self@.user_agent)); }
        assert(out@ == args_debug_prefix(self@, 4));
        let ghost o = out@;
        out.append(", os: ");
        append_opt_os(&mut out, &self.os);
        proof { lemma_concat_regroup(o, ", os: "@, opt_os_form(self@.os)); }
        assert(out@ == args_debug_prefix(self@, 5));
        let ghost o = out@;
        out.append(", os_version: ");
        append_opt_quoted(&mut out, &self.os_version);
        proof { lemma_concat_regroup(o, ", os_version: "@, opt_quoted_form(self@.os_version)); }
        assert(out@ == args_debug_prefix(self@, 6));
        let ghost o = out@;
        out.append(", client_version: ");
        append_opt_quoted(&mut out, &self.client_version);
        proof { lemma_concat_regroup(o, ", client_version: "@, opt_quoted_form(self@.client_version)); }
        assert(out@ == args_debug_prefix(self@, 7));
        let ghost o = out@;
        out.append(", certificate: ");
        append_opt_quoted(&mut out, &self.certificate);
        proof { lemma_concat_regroup(o, ", certificate: "@, opt_quoted_form(self@.certificate)); }
        assert(out@ == args_debug_prefix(self@, 8));
        let ghost o = out@;
        out.append(", sslkey: ");
        append_opt_quoted(&mut out, &self.sslkey);
        proof { lemma_concat_regroup(o, ", sslkey: "@, opt_quoted_form(self@.sslkey)); }
        assert(out@ == args_debug_prefix(self@, 9));
        let ghost o = out@;
        out.append(", hip: ");
        append_bool(&mut out, self.hip);
        proof { lemma_concat_regroup(o, ", hip: "@, bool_text(self@.hip)); }
        assert(out@ == args_debug_prefix(self@, 10));
        let ghost o = out@;
        out.append(", csd_uid: ");
        append_decimal(&mut out, self.csd_uid);
        proof { lemma_concat_regroup(o, ", csd_uid: "@, decimal_text(self@.csd_uid as nat)); }
        assert(out@ == args_debug_prefix(self@, 11));
        let ghost o = out@;
        out.append(", csd_wrapper: ");
        append_opt_quoted(&mut out, &self.csd_wrapper);
        proof { lemma_concat_regroup(o, ", csd_wrapper: "@, opt_quoted_form(self@.csd_wrapper)); }
        assert(out@ == args_debug_prefix(self@, 12));
        let ghost o = out@;
        out.append(", reconnect_timeout: ");
        append_decimal(&mut out, self.reconnect_timeout);
        proof { lemma_concat_regroup(o, ", reconnect_timeout: "@, decimal_text(self@.reconnect_timeout as nat)); }
        assert(out@ == args_debug_prefix(self@, 13));
        let ghost o = out@;
        out.append(", mtu: ");
        append_decimal(&mut out, self.mtu);
        proof { lemma_concat_regroup(o, ", mtu: "@, decimal_text(self@.mtu as nat)); }
        assert(out@ == args_debug_prefix(self@, 14));
        let ghost o = out@;
        out.append(", disable_ipv6: ");
        append_bool(&mut out, self.disable_ipv6);
        proof { lemma_concat_regroup(o, ", disable_ipv6: "@, bool_text(self@.disable_ipv6)); }
        assert(out@ == args_debug_prefix(self@, 15));
        let ghost o = out@;
        out.append(", no_dtls: ");
        append_bool(&mut out, self.no_dtls);
        proof { lemma_concat_regroup(o, ", no_dtls: "@, bool_text(self@.no_dtls)); }
        assert(out@ == args_debug_prefix(self@, 16));
        let ghost o = out@;
        out.append(", local_hostname: ");
        append_opt_quoted(&mut out, &self.local_hostname);
        proof { lemma_concat_regroup(o, ", local_hostname: "@, opt_quoted_form(self@.local_hostname)); }
        assert(out@ == args_debug_prefix(self@, 17));
        let ghost o = out@;
        out.append(", force_dpd: ");
        append_decimal(&mut out, self.force_dpd);
        proof { lemma_concat_regroup(o, ", force_dpd: "@, decimal_text(self@.force_dpd as nat)); }
        assert(out@ == args_debug_prefix(self@, 18));
        let ghost o = out@;
        out.append(", no_xmlpost: ");
        append_bool(&mut out, self.no_xmlpost);
        proof { lemma_concat_regroup(o, ", no_xmlpost: "@, bool_text(self@.no_xmlpost)); }
        assert(out@ == args_debug_prefix(self@, 19));
        let ghost o = out@;
        out.append(", allow_extend_session: ");
        append_bool(&mut out, self.allow_extend_session);
        proof { lemma_concat_regroup(o, ", allow_extend_session: "@, bool_text(self@.allow_extend_session)); }
        assert(out@ == args_debug_prefix(self@, 20));
        let ghost o = out@;
        out.append(", dns_domains: ");
        append_list_quoted(&mut out, &self.dns_domains);
        proof { lemma_concat_regroup(o, ", dns_domains: "@, list_quoted_form(self@.dns_domains)); }
        assert(out@ == args_debug_prefix(self@, 21));
        out.append(" }");
        assert(out@ == args_debug_prefix(self@, 22));
        out
    }

    /// The pretty (`{:#?}`) debug text of the parameters, with the secrets
    /// redacted as in `debug_string`.
    pub fn debug_string_pretty(&self) -> (r: String)
        ensures
            r@ == args_pretty_debug_text(self@),
    {
        let mut out = String::from_str("ConnectArgs {\n    cookie: \"<redacted>\",\n");
        proof {
            reveal_with_fuel(args_pretty_prefix, 2);
            assert(args_pretty_prefix(self@, 1) =~= args_pretty_piece(self@, 0));
        }
        let ghost o = out@;
        out.append("    key_password: ");
        append_redacted_password_pretty(&mut out, &self.key_password);
        out.append(",\n");
        proof { lemma_concat_regroup4(o, "    key_password: "@, redacted_password_pretty_form(self@.key_password), ",\n"@); }
        assert(out@ == args_pretty_prefix(self@, 2));
        let ghost o = out@;
        out.append("    vpnc_script: ");
        append_opt_quoted_pretty(&mut out, &self.vpnc_script);
        out.append(",\n");
        proof { lemma_concat_regroup4(o, "    vpnc_script: "@, opt_quoted_pretty_form(self@.vpnc_script), ",\n"@); }
        assert(out@ == args_pretty_prefix(self@, 3));
        let ghost o = out@;
        out.append("    user_agent: ");
        append_opt_quoted_pretty(&mut out, &self.user_agent);
        out.append(",\n");
        proof { lemma_concat_regroup4(o, "    user_agent: "@, opt_quoted_pretty_form(self@.user_agent), ",\n"@); }
        assert(out@ == args_pretty_prefix(self@, 4));
        let ghost o = out@;
        out.append("    os: ");
        append_opt_os_pretty(&mut out, &self.os);
        out.append(",\n");
        proof { lemma_concat_regroup4(o, "    os: "@, opt_os_pretty_form(self@.os), ",\n"@); }
        assert(out@ == args_pretty_prefix(self@, 5));
        let ghost o = out@;
        out.append("    os_version: ");
        append_opt_quoted_pretty(&mut out, &self.os_version);
        out.append(",\n");
        proof { lemma_concat_regroup4(o, "    os_version: "@, opt_quoted_pretty_form(self@.os_version), ",\n"@); }
        assert(out@ == args_pretty_prefix(self@, 6));
        let ghost o = out@;
        out.append("    client_version: ");
        append_opt_quoted_pretty(&mut out, &self.client_version);
        out.append(",\n");
        proof { lemma_concat_regroup4(o, "    client_version: "@, opt_quoted_pretty_form(self@.client_version), ",\n"@); }
        assert(out@ == args_pretty_prefix(self@, 7));
        let ghost o = out@;
        out.append("    certificate: ");
        append_opt_quoted_pretty(&mut out, &self.certificate);
        out.append(",\n");
        proof { lemma_concat_regroup4(o, "    certificate: "@, opt_quoted_pretty_form(self@.certificate), ",\n"@); }
        assert(out@ == args_pretty_prefix(self@, 8));
        let ghost o = out@;
        out.append("    sslkey: ");
        append_opt_quoted_pretty(&mut out, &self.sslkey);
        out.append(",\n");
        proof { lemma_concat_regroup4(o, "    sslkey: "@, opt_quoted_pretty_form(self@.sslkey), ",\n"@); }
        assert(out@ == args_pretty_prefix(self@, 9));
        let ghost o = out@;
        out.append("    hip: ");
        append_bool(&mut out, self.hip);
        out.append(",\n");
        proof { lemma_concat_regroup4(o, "    hip: "@, bool_text(self@.hip), ",\n"@); }
        assert(out@ == args_pretty_prefix(self@, 10));
        let ghost o = out@;
        out.append("    csd_uid: ");
        append_decimal(&mut out, self.csd_uid);
        out.append(",\n");
        proof { lemma_concat_regroup4(o, "    csd_uid: "@, decimal_text(self@.csd_uid as nat), ",\n"@); }
        assert(out@ == args_pretty_prefix(self@, 11));
        let ghost o = out@;
        out.append("    csd_wrapper: ");
        append_opt_quoted_pretty(&mut out, &self.csd_wrapper);
        out.append(",\n");
        proof { lemma_concat_regroup4(o, "    csd_wrapper: "@, opt_quoted_pretty_form(self@.csd_wrapper), ",\n"@); }
        assert(out@ == args_pretty_prefix(self@, 12));
        let ghost o = out@;
        out.append("    reconnect_timeout: ");
        append_decimal(&mut out, self.reconnect_timeout);
        out.append(",\n");
        proof { lemma_concat_regroup4(o, "    reconnect_timeout: "@, decimal_text(self@.reconnect_timeout as nat), ",\n"@); }
        assert(out@ == args_pretty_prefix(self@, 13));
        let ghost o = out@;
        out.append("    mtu: ");
        append_decimal(&mut out, self.mtu);
        out.append(",\n");
        proof { lemma_concat_regroup4(o, "    mtu: "@, decimal_text(self@.mtu as nat), ",\n"@); }
        assert(out@ == args_pretty_prefix(self@, 14));
        let ghost o = out@;
        out.append("    disable_ipv6: ");
        append_bool(&mut out, self.disable_ipv6);
        out.append(",\n");
        proof { lemma_concat_regroup4(o, "    disable_ipv6: "@, bool_text(self@.disable_ipv6), ",\n"@); }
        assert(out@ == args_pretty_prefix(self@, 15));
        let ghost o = out@;
        out.append("    no_dtls: ");
        append_bool(&mut out, self.no_dtls);
        out.append(",\n");
        proof { lemma_concat_regroup4(o, "    no_dtls: "@, bool_text(self@.no_dtls), ",\n"@); }
        assert(out@ == args_pretty_prefix(self@, 16));
        let ghost o = out@;
        out.append("    local_hostname: ");
        append_opt_quoted_pretty(&mut out, &self.local_hostname);
        out.append(",\n");
        proof { lemma_concat_regroup4(o, "    local_hostname: "@, opt_quoted_pretty_form(self@.local_hostname), ",\n"@); }
        assert(out@ == args_pretty_prefix(self@, 17));
        let ghost o = out@;
        out.append("    force_dpd: ");
        append_decimal(&mut out, self.force_dpd);
        out.append(",\n");
        proof { lemma_concat_regroup4(o, "    force_dpd: "@, decimal_text(self@.force_dpd as nat), ",\n"@); }
        assert(out@ == args_pretty_prefix(self@, 18));
        let ghost o = out@;
        out.append("    no_xmlpost: ");
        append_bool(&mut out, self.no_xmlpost);
        out.append(",\n");
        proof { lemma_concat_regroup4(o, "    no_xmlpost: "@, bool_text(self@.no_xmlpost), ",\n"@); }
        assert(out@ == args_pretty_prefix(self@, 19));
        let ghost o = out@;
        out.append("    allow_extend_session: ");
        append_bool(&mut out, self.allow_extend_session);
        out.append(",\n");
        proof { lemma_concat_regroup4(o, "    allow_extend_session: "@, bool_text(self@.allow_extend_session), ",\n"@); }
        assert(out@ == args_pretty_prefix(self@, 20));
        let ghost o = out@;
        out.append("    dns_domains: ");
        append_list_quoted_pretty(&mut out, &self.dns_domains);
        out.append(",\n");
        proof { lemma_concat_regroup4(o, "    dns_domains: "@, list_quoted_pretty_form(self@.dns_domains), ",\n"@); }
        assert(out@ == args_pretty_prefix(self@, 21));
        out.append("}");
        assert(out@ == args_pretty_prefix(self@, 22));
        out
    }
}

/// The parameters with the secrets scrubbed: the cookie emptied, a present
/// key password emptied (an absent one stays absent), every other field as
/// it was.
pub open spec fn scrubbed_args(m: ConnectArgsView) -> ConnectArgsView {
    ConnectArgsView {
        cookie: Seq::empty(),
        key_password: scrubbed_password(m.key_password),
        ..m
    }
}

/// Scrubbing the parameters empties the cookie and a present key password
/// and keeps every other field.
pub proof fn lemma_scrubbed_args_keeps_other_fields(m: ConnectArgsView)
    ensures
        ({
            let r = scrubbed_args(m);
            &&& r.cookie.len() == 0
            &&& (r.key_password is Some <==> m.key_password is Some)
            &&& (r.key_password is Some ==> r.key_password.unwrap().len() == 0)
            &&& r.vpnc_script == m.vpnc_script
            &&& r.user_agent == m.user_agent
            &&& r.os == m.os
            &&& r.os_version == m.os_version
            &&& r.client_version == m.client_version
            &&& r.certificate == m.certificate
            &&& r.sslkey == m.sslkey
            &&& r.hip == m.hip
            &&& r.csd_uid == m.csd_uid
            &&& r.csd_wrapper == m.csd_wrapper
            &&& r.reconnect_timeout == m.reconnect_timeout
            &&& r.mtu == m.mtu
            &&& r.disable_ipv6 == m.disable_ipv6
            &&& r.no_dtls == m.no_dtls
            &&& r.local_hostname == m.local_hostname
            &&& r.force_dpd == m.force_dpd
            &&& r.no_xmlpost == m.no_xmlpost
            &&& r.allow_extend_session == m.allow_extend_session
            &&& r.dns_domains == m.dns_domains
        }),
{
}

/// Scrubs the secrets when the parameters are dropped, so a backend holding
/// them for the life of a tunnel leaves no cookie or key password behind in
/// freed memory.
impl Drop for ConnectArgs {
    fn drop(&mut self)
        ensures
            final(self)@ == scrubbed_args(old(self)@),
        opens_invariants none
        no_unwind
    {
        scrub_secrets(&mut self.cookie, &mut self.key_password);
    }
}

/// The connect request: which gateway to join (`ConnectInfo`) plus the
/// tunnel parameters (`ConnectArgs`).
#[derive(Clone)]
pub struct ConnectRequest {
    info: ConnectInfo,
    args: ConnectArgs,
}

/// The abstract value of a connect request.
pub struct ConnectRequestView {
    pub info: ConnectInfoView,
    pub args: ConnectArgsView,
}

impl View for ConnectRequest {
    type V = ConnectRequestView;

    closed spec fn view(&self) -> ConnectRequestView {
        ConnectRequestView { info: self.info@, args: self.args@ }
    }
}

impl ConnectRequest {
    pub fn new(info: ConnectInfo, cookie: String) -> (r: Self)
        ensures
            r@ == (ConnectRequestView { info: info@, args: initial_args(cookie@) }),
    {
        ConnectRequest { args: ConnectArgs::new(cookie), info }
    }

    /// The GP client version to emulate towards the server.
    pub fn with_client_version(self, client_version: &str) -> (r: Self)
        ensures
            r@ == (ConnectRequestView {
                args: ConnectArgsView { client_version: Some(client_version@), ..self@.args },
                ..self@
            }),
    {
        let mut s = self;
        s.args.client_version = Some(client_version.to_string());
        s
    }

    /// Sets `vpnc_script`: a plain value sets it, an `Option` sets or clears it.
    pub fn with_vpnc_script<V: OptionalArg<String>>(self, value: V) -> (r: Self)
        ensures
            r@ == (ConnectRequestView {
                args: ConnectArgsView { vpnc_script: value.as_option().deep_view(), ..self@.args },
                ..self@
            }),
    {
        let mut s = self;
        s.args.vpnc_script = value.into_option();
        s
    }

    /// Sets `csd_wrapper`: a plain value sets it, an `Option` sets or clears it.
    pub fn with_csd_wrapper<V: OptionalArg<String>>(self, value: V) -> (r: Self)
        ensures
            r@ == (ConnectRequestView {
                args: ConnectArgsView { csd_wrapper: value.as_option().deep_view(), ..self@.args },
                ..self@
            }),
    {
        let mut s = self;
        s.args.csd_wrapper = value.into_option();
        s
    }

    /// Sets `user_agent`: a plain value sets it, an `Option` sets or clears it.
    pub fn with_user_agent<V: OptionalArg<String>>(self, value: V) -> (r: Self)
        ensures
            r@ == (ConnectRequestView {
                args: ConnectArgsView { user_agent: value.as_option().deep_view(), ..self@.args },
                ..self@
            }),
    {
        let mut s = self;
        s.args.user_agent = value.into_option();
        s
    }

    /// Sets `os_version`: a plain value sets it, an `Option` sets or clears it.
    pub fn with_os_version<V: OptionalArg<String>>(self, value: V) -> (r: Self)
        ensures
            r@ == (ConnectRequestView {
                args: ConnectArgsView { os_version: value.as_option().deep_view(), ..self@.args },
                ..self@
            }),
    {
        let mut s = self;
        s.args.os_version = value.into_option();
        s
    }

    /// Sets `certificate`: a plain value sets it, an `Option` sets or clears it.
    pub fn with_certificate<V: OptionalArg<String>>(self, value: V) -> (r: Self)
        ensures
            r@ == (ConnectRequestView {
                args: ConnectArgsView { certificate: value.as_option().deep_view(), ..self@.args },
                ..self@
            }),
    {
        let mut s = self;
        s.args.certificate = value.into_option();
        s
    }

    /// Sets `sslkey`: a plain value sets it, an `Option` sets or clears it.
    pub fn with_sslkey<V: OptionalArg<String>>(self, value: V) -> (r: Self)
        ensures
            r@ == (ConnectRequestView {
                args: ConnectArgsView { sslkey: value.as_option().deep_view(), ..self@.args },
                ..self@
            }),
    {
        let mut s = self;
        s.args.sslkey = value.into_option();
        s
    }

    /// Sets `key_password`: a plain value sets it, an `Option` sets or clears it.
    pub fn with_key_password<V: OptionalArg<String>>(self, value: V) -> (r: Self)
        ensures
            r@ == (ConnectRequestView {
                args: ConnectArgsView { key_password: value.as_option().deep_view(), ..self@.args },
                ..self@
            }),
    {
        let mut s = self;
        s.args.key_password = value.into_option();
        s
    }

    /// Sets `local_hostname`: a plain value sets it, an `Option` sets or clears it.
    pub fn with_local_hostname<V: OptionalArg<String>>(self, value: V) -> (r: Self)
        ensures
            r@ == (ConnectRequestView {
                args: ConnectArgsView { local_hostname: value.as_option().deep_view(), ..self@.args },
                ..self@
            }),
    {
        let mut s = self;
        s.args.local_hostname = value.into_option();
        s
    }

    /// Sets `os`: a plain value sets it, an `Option` sets or clears it.
    pub fn with_os<V: OptionalArg<ClientOs>>(self, value: V) -> (r: Self)
        ensures
            r@ == (ConnectRequestView {
                args: ConnectArgsView { os: value.as_option(), ..self@.args },
                ..self@
            }),
    {
        let mut s = self;
        s.args.os = value.into_option();
        s
    }

    pub fn with_hip(self, value: bool) -> (r: Self)
        ensures
            r@ == (ConnectRequestView {
                args: ConnectArgsView { hip: value, ..self@.args },
                ..self@
            }),
    {
        let mut s = self;
        s.args.hip = value;
        s
    }

    pub fn with_csd_uid(self, value: u32) -> (r: Self)
        ensures
            r@ == (ConnectRequestView {
                args: ConnectArgsView { csd_uid: value, ..self@.args },
                ..self@
            }),
    {
        let mut s = self;
        s.args.csd_uid = value;
        s
    }

    pub fn with_reconnect_timeout(self, value: u32) -> (r: Self)
        ensures
            r@ == (ConnectRequestView {
                args: ConnectArgsView { reconnect_timeout: value, ..self@.args },
                ..self@
            }),
    {
        let mut s = self;
        s.args.reconnect_timeout = value;
        s
    }

    pub fn with_mtu(self, value: u32) -> (r: Self)
        ensures
            r@ == (ConnectRequestView {
                args: ConnectArgsView { mtu: value, ..self@.args },
                ..self@
            }),
    {
        let mut s = self;
        s.args.mtu = value;
        s
    }

    pub fn with_disable_ipv6(self, value: bool) -> (r: Self)
        ensures
            r@ == (ConnectRequestView {
                args: ConnectArgsView { disable_ipv6: value, ..self@.args },
                ..self@
            }),
    {
        let mut s = self;
        s.args.disable_ipv6 = value;
        s
    }

    pub fn with_no_dtls(self, value: bool) -> (r: Self)
        ensures
            r@ == (ConnectRequestView {
                args: ConnectArgsView { no_dtls: value, ..self@.args },
                ..self@
            }),
    {
        let mut s = self;
        s.args.no_dtls = value;
        s
    }

    pub fn with_force_dpd(self, value: u32) -> (r: Self)
        ensures
            r@ == (ConnectRequestView {
                args: ConnectArgsView { force_dpd: value, ..self@.args },
                ..self@
            }),
    {
        let mut s = self;
        s.args.force_dpd = value;
        s
    }

    pub fn with_no_xmlpost(self, value: bool) -> (r: Self)
        ensures
            r@ == (ConnectRequestView {
                args: ConnectArgsView { no_xmlpost: value, ..self@.args },
                ..self@
            }),
    {
        let mut s = self;
        s.args.no_xmlpost = value;
        s
    }

    pub fn with_allow_extend_session(self, value: bool) -> (r: Self)
        ensures
            r@ == (ConnectRequestView {
                args: ConnectArgsView { allow_extend_session: value, ..self@.args },
                ..self@
            }),
    {
        let mut s = self;
        s.args.allow_extend_session = value;
        s
    }

    /// Sets the domains to scope the tunnel's DNS to.
    pub fn with_dns_domains(self, value: Vec<String>) -> (r: Self)
        ensures
            r@ == (ConnectRequestView {
                args: ConnectArgsView { dns_domains: value.deep_view(), ..self@.args },
                ..self@
            }),
    {
        let mut s = self;
        s.args.dns_domains = value;
        s
    }

    pub fn gateway(&self) -> (r: &Gateway)
        ensures
            r@ == self@.info.gateway,
    {
        self.info.gateway()
    }

    pub fn info(&self) -> (r: &ConnectInfo)
        ensures
            r@ == self@.info,
    {
        &self.info
    }

    pub fn args(&self) -> (r: &ConnectArgs)
        ensures
            r@ == self@.args,
    {
        &self.args
    }
}

/// Ask the backend to tear the tunnel down.
#[derive(Debug)]
pub struct DisconnectRequest;

/// Ask the backend to switch its log level (the payload is the level name).
#[derive(Debug)]
pub struct UpdateLogLevelRequest(pub String);

/// Client → backend request envelope.
pub enum WsRequest {
    Connect(Box<ConnectRequest>),
    Disconnect(DisconnectRequest),
    UpdateLogLevel(UpdateLogLevelRequest),
    /// Run prelogin and report the required auth.
    Probe(Box<ProbeRequest>),
    /// Authenticate with a captured credential and start the tunnel.
    ConnectAuth(Box<ConnectAuthRequest>),
}

} // verus!
