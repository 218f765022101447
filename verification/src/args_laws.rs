//! Laws of the tunnel parameters' debug texts: each text shows every
//! non-secret field's own value in that field's place.

use vstd::prelude::*;

use crate::os::{lemma_portal_name_roundtrip, portal_name, ClientOs};
use crate::request::{
    args_debug_piece_count, args_debug_text, args_pretty_debug_text, lemma_debug_piece_determined,
    lemma_pretty_piece_determined, opt_os_form, opt_os_pretty_form, redacted_password_form,
    redacted_password_pretty_form, ConnectArgsView,
};
use crate::text::{
    bool_text, decimal_text, lemma_bool_text_injective, lemma_concat_parts_eq,
    lemma_decimal_text_injective, lemma_list_quoted_pretty_form_emptiness,
    lemma_opt_quoted_form_determines, lemma_opt_quoted_pretty_form_determines, list_quoted_form,
    list_quoted_pretty_form, opt_quoted_form, opt_quoted_pretty_form, quoted_form,
};

verus! {

/// The debug form of an optional OS determines the OS.
pub proof fn lemma_opt_os_form_determines(a: Option<ClientOs>, b: Option<ClientOs>)
    ensures
        opt_os_form(a) == opt_os_form(b) ==> a == b,
{
    reveal_strlit("None");
    reveal_strlit("Some(");
    if opt_os_form(a) == opt_os_form(b) {
        if a is Some && b is None {
            assert(opt_os_form(a)[0] == 'S');
        } else if a is None && b is Some {
            assert(opt_os_form(b)[0] == 'S');
        } else if a is Some && b is Some {
            let na = portal_name(a.unwrap());
            let nb = portal_name(b.unwrap());
            lemma_concat_parts_eq("Some("@ + na, ")"@, "Some("@ + nb, ")"@);
            lemma_concat_parts_eq("Some("@, na, "Some("@, nb);
            lemma_portal_name_roundtrip(a.unwrap());
            lemma_portal_name_roundtrip(b.unwrap());
        }
    }
}

/// The pretty debug form of an optional OS field determines the OS.
pub proof fn lemma_opt_os_pretty_form_determines(a: Option<ClientOs>, b: Option<ClientOs>)
    ensures
        opt_os_pretty_form(a) == opt_os_pretty_form(b) ==> a == b,
{
    reveal_strlit("None");
    reveal_strlit("Some(\n        ");
    if opt_os_pretty_form(a) == opt_os_pretty_form(b) {
        if a is Some && b is None {
            assert(opt_os_pretty_form(a)[0] == 'S');
        } else if a is None && b is Some {
            assert(opt_os_pretty_form(b)[0] == 'S');
        } else if a is Some && b is Some {
            let na = portal_name(a.unwrap());
            let nb = portal_name(b.unwrap());
            lemma_concat_parts_eq("Some(\n        "@ + na, ",\n    )"@, "Some(\n        "@ + nb, ",\n    )"@);
            lemma_concat_parts_eq("Some(\n        "@, na, "Some(\n        "@, nb);
            lemma_portal_name_roundtrip(a.unwrap());
            lemma_portal_name_roundtrip(b.unwrap());
        }
    }
}

/// The debug text shows whether a key password is set (never its text).
pub proof fn lemma_debug_text_shows_key_password_presence(m: ConnectArgsView, v: Option<Seq<char>>)
    ensures
        args_debug_text(ConnectArgsView { key_password: v, ..m }) == args_debug_text(m)
            ==> (v is Some <==> m.key_password is Some),
{
    let b = ConnectArgsView { key_password: v, ..m };
    if args_debug_text(b) == args_debug_text(m) {
        lemma_debug_piece_determined(b, m, 1, args_debug_piece_count());
        lemma_concat_parts_eq(", key_password: "@, redacted_password_form(v), ", key_password: "@, redacted_password_form(m.key_password));
        reveal_strlit("None");
        reveal_strlit("Some(\"<redacted>\")");
    }
}

/// The pretty debug text shows whether a key password is set (never its
/// text).
pub proof fn lemma_pretty_text_shows_key_password_presence(m: ConnectArgsView, v: Option<Seq<char>>)
    ensures
        args_pretty_debug_text(ConnectArgsView { key_password: v, ..m }) == args_pretty_debug_text(m)
            ==> (v is Some <==> m.key_password is Some),
{
    let b = ConnectArgsView { key_password: v, ..m };
    if args_pretty_debug_text(b) == args_pretty_debug_text(m) {
        lemma_pretty_piece_determined(b, m, 1, args_debug_piece_count());
        lemma_concat_parts_eq("    key_password: "@ + redacted_password_pretty_form(v), ",\n"@, "    key_password: "@ + redacted_password_pretty_form(m.key_password), ",\n"@);
        lemma_concat_parts_eq("    key_password: "@, redacted_password_pretty_form(v), "    key_password: "@, redacted_password_pretty_form(m.key_password));
        reveal_strlit("None");
        reveal_strlit("Some(\n        \"<redacted>\",\n    )");
    }
}

/// The debug text shows whether `vpnc_script` is set and, when it is, the quoted form of its own text: changing only `vpnc_script`
/// to a value that shows differently changes the text.
pub proof fn lemma_debug_text_shows_vpnc_script(m: ConnectArgsView, v: Option<Seq<char>>)
    ensures
        args_debug_text(ConnectArgsView { vpnc_script: v, ..m }) == args_debug_text(m) ==> (v is Some <==> m.vpnc_script is Some) && (v is Some && m.vpnc_script is Some ==> quoted_form(v.unwrap()) == quoted_form(m.vpnc_script.unwrap())),
{
    let b = ConnectArgsView { vpnc_script: v, ..m };
    if args_debug_text(b) == args_debug_text(m) {
        lemma_debug_piece_determined(b, m, 2, args_debug_piece_count());
        lemma_concat_parts_eq(", vpnc_script: "@, opt_quoted_form(v), ", vpnc_script: "@, opt_quoted_form(m.vpnc_script));
        lemma_opt_quoted_form_determines(v, m.vpnc_script);
    }
}

/// The pretty debug text shows whether `vpnc_script` is set and, when it is, the quoted form of its own text: changing only `vpnc_script`
/// to a value that shows differently changes the text.
pub proof fn lemma_pretty_text_shows_vpnc_script(m: ConnectArgsView, v: Option<Seq<char>>)
    ensures
        args_pretty_debug_text(ConnectArgsView { vpnc_script: v, ..m }) == args_pretty_debug_text(m) ==> (v is Some <==> m.vpnc_script is Some) && (v is Some && m.vpnc_script is Some ==> quoted_form(v.unwrap()) == quoted_form(m.vpnc_script.unwrap())),
{
    let b = ConnectArgsView { vpnc_script: v, ..m };
    if args_pretty_debug_text(b) == args_pretty_debug_text(m) {
        lemma_pretty_piece_determined(b, m, 2, args_debug_piece_count());
        lemma_concat_parts_eq("    vpnc_script: "@ + opt_quoted_pretty_form(v), ",\n"@, "    vpnc_script: "@ + opt_quoted_pretty_form(m.vpnc_script), ",\n"@);
        lemma_concat_parts_eq("    vpnc_script: "@, opt_quoted_pretty_form(v), "    vpnc_script: "@, opt_quoted_pretty_form(m.vpnc_script));
        lemma_opt_quoted_pretty_form_determines(v, m.vpnc_script);
    }
}

/// The debug text shows whether `user_agent` is set and, when it is, the quoted form of its own text: changing only `user_agent`
/// to a value that shows differently changes the text.
pub proof fn lemma_debug_text_shows_user_agent(m: ConnectArgsView, v: Option<Seq<char>>)
    ensures
        args_debug_text(ConnectArgsView { user_agent: v, ..m }) == args_debug_text(m) ==> (v is Some <==> m.user_agent is Some) && (v is Some && m.user_agent is Some ==> quoted_form(v.unwrap()) == quoted_form(m.user_agent.unwrap())),
{
    let b = ConnectArgsView { user_agent: v, ..m };
    if args_debug_text(b) == args_debug_text(m) {
        lemma_debug_piece_determined(b, m, 3, args_debug_piece_count());
        lemma_concat_parts_eq(", user_agent: "@, opt_quoted_form(v), ", user_agent: "@, opt_quoted_form(m.user_agent));
        lemma_opt_quoted_form_determines(v, m.user_agent);
    }
}

/// The pretty debug text shows whether `user_agent` is set and, when it is, the quoted form of its own text: changing only `user_agent`
/// to a value that shows differently changes the text.
pub proof fn lemma_pretty_text_shows_user_agent(m: ConnectArgsView, v: Option<Seq<char>>)
    ensures
        args_pretty_debug_text(ConnectArgsView { user_agent: v, ..m }) == args_pretty_debug_text(m) ==> (v is Some <==> m.user_agent is Some) && (v is Some && m.user_agent is Some ==> quoted_form(v.unwrap()) == quoted_form(m.user_agent.unwrap())),
{
    let b = ConnectArgsView { user_agent: v, ..m };
    if args_pretty_debug_text(b) == args_pretty_debug_text(m) {
        lemma_pretty_piece_determined(b, m, 3, args_debug_piece_count());
        lemma_concat_parts_eq("    user_agent: "@ + opt_quoted_pretty_form(v), ",\n"@, "    user_agent: "@ + opt_quoted_pretty_form(m.user_agent), ",\n"@);
        lemma_concat_parts_eq("    user_agent: "@, opt_quoted_pretty_form(v), "    user_agent: "@, opt_quoted_pretty_form(m.user_agent));
        lemma_opt_quoted_pretty_form_determines(v, m.user_agent);
    }
}

/// The debug text shows the value of `os` itself: changing only `os`
/// to a value that shows differently changes the text.
pub proof fn lemma_debug_text_shows_os(m: ConnectArgsView, v: Option<ClientOs>)
    ensures
        args_debug_text(ConnectArgsView { os: v, ..m }) == args_debug_text(m) ==> v == m.os,
{
    let b = ConnectArgsView { os: v, ..m };
    if args_debug_text(b) == args_debug_text(m) {
        lemma_debug_piece_determined(b, m, 4, args_debug_piece_count());
        lemma_concat_parts_eq(", os: "@, opt_os_form(v), ", os: "@, opt_os_form(m.os));
        lemma_opt_os_form_determines(v, m.os);
    }
}

/// The pretty debug text shows the value of `os` itself: changing only `os`
/// to a value that shows differently changes the text.
pub proof fn lemma_pretty_text_shows_os(m: ConnectArgsView, v: Option<ClientOs>)
    ensures
        args_pretty_debug_text(ConnectArgsView { os: v, ..m }) == args_pretty_debug_text(m) ==> v == m.os,
{
    let b = ConnectArgsView { os: v, ..m };
    if args_pretty_debug_text(b) == args_pretty_debug_text(m) {
        lemma_pretty_piece_determined(b, m, 4, args_debug_piece_count());
        lemma_concat_parts_eq("    os: "@ + opt_os_pretty_form(v), ",\n"@, "    os: "@ + opt_os_pretty_form(m.os), ",\n"@);
        lemma_concat_parts_eq("    os: "@, opt_os_pretty_form(v), "    os: "@, opt_os_pretty_form(m.os));
        lemma_opt_os_pretty_form_determines(v, m.os);
    }
}

/// The debug text shows whether `os_version` is set and, when it is, the quoted form of its own text: changing only `os_version`
/// to a value that shows differently changes the text.
pub proof fn lemma_debug_text_shows_os_version(m: ConnectArgsView, v: Option<Seq<char>>)
    ensures
        args_debug_text(ConnectArgsView { os_version: v, ..m }) == args_debug_text(m) ==> (v is Some <==> m.os_version is Some) && (v is Some && m.os_version is Some ==> quoted_form(v.unwrap()) == quoted_form(m.os_version.unwrap())),
{
    let b = ConnectArgsView { os_version: v, ..m };
    if args_debug_text(b) == args_debug_text(m) {
        lemma_debug_piece_determined(b, m, 5, args_debug_piece_count());
        lemma_concat_parts_eq(", os_version: "@, opt_quoted_form(v), ", os_version: "@, opt_quoted_form(m.os_version));
        lemma_opt_quoted_form_determines(v, m.os_version);
    }
}

/// The pretty debug text shows whether `os_version` is set and, when it is, the quoted form of its own text: changing only `os_version`
/// to a value that shows differently changes the text.
pub proof fn lemma_pretty_text_shows_os_version(m: ConnectArgsView, v: Option<Seq<char>>)
    ensures
        args_pretty_debug_text(ConnectArgsView { os_version: v, ..m }) == args_pretty_debug_text(m) ==> (v is Some <==> m.os_version is Some) && (v is Some && m.os_version is Some ==> quoted_form(v.unwrap()) == quoted_form(m.os_version.unwrap())),
{
    let b = ConnectArgsView { os_version: v, ..m };
    if args_pretty_debug_text(b) == args_pretty_debug_text(m) {
        lemma_pretty_piece_determined(b, m, 5, args_debug_piece_count());
        lemma_concat_parts_eq("    os_version: "@ + opt_quoted_pretty_form(v), ",\n"@, "    os_version: "@ + opt_quoted_pretty_form(m.os_version), ",\n"@);
        lemma_concat_parts_eq("    os_version: "@, opt_quoted_pretty_form(v), "    os_version: "@, opt_quoted_pretty_form(m.os_version));
        lemma_opt_quoted_pretty_form_determines(v, m.os_version);
    }
}

/// The debug text shows whether `client_version` is set and, when it is, the quoted form of its own text: changing only `client_version`
/// to a value that shows differently changes the text.
pub proof fn lemma_debug_text_shows_client_version(m: ConnectArgsView, v: Option<Seq<char>>)
    ensures
        args_debug_text(ConnectArgsView { client_version: v, ..m }) == args_debug_text(m) ==> (v is Some <==> m.client_version is Some) && (v is Some && m.client_version is Some ==> quoted_form(v.unwrap()) == quoted_form(m.client_version.unwrap())),
{
    let b = ConnectArgsView { client_version: v, ..m };
    if args_debug_text(b) == args_debug_text(m) {
        lemma_debug_piece_determined(b, m, 6, args_debug_piece_count());
        lemma_concat_parts_eq(", client_version: "@, opt_quoted_form(v), ", client_version: "@, opt_quoted_form(m.client_version));
        lemma_opt_quoted_form_determines(v, m.client_version);
    }
}

/// The pretty debug text shows whether `client_version` is set and, when it is, the quoted form of its own text: changing only `client_version`
/// to a value that shows differently changes the text.
pub proof fn lemma_pretty_text_shows_client_version(m: ConnectArgsView, v: Option<Seq<char>>)
    ensures
        args_pretty_debug_text(ConnectArgsView { client_version: v, ..m }) == args_pretty_debug_text(m) ==> (v is Some <==> m.client_version is Some) && (v is Some && m.client_version is Some ==> quoted_form(v.unwrap()) == quoted_form(m.client_version.unwrap())),
{
    let b = ConnectArgsView { client_version: v, ..m };
    if args_pretty_debug_text(b) == args_pretty_debug_text(m) {
        lemma_pretty_piece_determined(b, m, 6, args_debug_piece_count());
        lemma_concat_parts_eq("    client_version: "@ + opt_quoted_pretty_form(v), ",\n"@, "    client_version: "@ + opt_quoted_pretty_form(m.client_version), ",\n"@);
        lemma_concat_parts_eq("    client_version: "@, opt_quoted_pretty_form(v), "    client_version: "@, opt_quoted_pretty_form(m.client_version));
        lemma_opt_quoted_pretty_form_determines(v, m.client_version);
    }
}

/// The debug text shows whether `certificate` is set and, when it is, the quoted form of its own text: changing only `certificate`
/// to a value that shows differently changes the text.
pub proof fn lemma_debug_text_shows_certificate(m: ConnectArgsView, v: Option<Seq<char>>)
    ensures
        args_debug_text(ConnectArgsView { certificate: v, ..m }) == args_debug_text(m) ==> (v is Some <==> m.certificate is Some) && (v is Some && m.certificate is Some ==> quoted_form(v.unwrap()) == quoted_form(m.certificate.unwrap())),
{
    let b = ConnectArgsView { certificate: v, ..m };
    if args_debug_text(b) == args_debug_text(m) {
        lemma_debug_piece_determined(b, m, 7, args_debug_piece_count());
        lemma_concat_parts_eq(", certificate: "@, opt_quoted_form(v), ", certificate: "@, opt_quoted_form(m.certificate));
        lemma_opt_quoted_form_determines(v, m.certificate);
    }
}

/// The pretty debug text shows whether `certificate` is set and, when it is, the quoted form of its own text: changing only `certificate`
/// to a value that shows differently changes the text.
pub proof fn lemma_pretty_text_shows_certificate(m: ConnectArgsView, v: Option<Seq<char>>)
    ensures
        args_pretty_debug_text(ConnectArgsView { certificate: v, ..m }) == args_pretty_debug_text(m) ==> (v is Some <==> m.certificate is Some) && (v is Some && m.certificate is Some ==> quoted_form(v.unwrap()) == quoted_form(m.certificate.unwrap())),
{
    let b = ConnectArgsView { certificate: v, ..m };
    if args_pretty_debug_text(b) == args_pretty_debug_text(m) {
        lemma_pretty_piece_determined(b, m, 7, args_debug_piece_count());
        lemma_concat_parts_eq("    certificate: "@ + opt_quoted_pretty_form(v), ",\n"@, "    certificate: "@ + opt_quoted_pretty_form(m.certificate), ",\n"@);
        lemma_concat_parts_eq("    certificate: "@, opt_quoted_pretty_form(v), "    certificate: "@, opt_quoted_pretty_form(m.certificate));
        lemma_opt_quoted_pretty_form_determines(v, m.certificate);
    }
}

/// The debug text shows whether `sslkey` is set and, when it is, the quoted form of its own text: changing only `sslkey`
/// to a value that shows differently changes the text.
pub proof fn lemma_debug_text_shows_sslkey(m: ConnectArgsView, v: Option<Seq<char>>)
    ensures
        args_debug_text(ConnectArgsView { sslkey: v, ..m }) == args_debug_text(m) ==> (v is Some <==> m.sslkey is Some) && (v is Some && m.sslkey is Some ==> quoted_form(v.unwrap()) == quoted_form(m.sslkey.unwrap())),
{
    let b = ConnectArgsView { sslkey: v, ..m };
    if args_debug_text(b) == args_debug_text(m) {
        lemma_debug_piece_determined(b, m, 8, args_debug_piece_count());
        lemma_concat_parts_eq(", sslkey: "@, opt_quoted_form(v), ", sslkey: "@, opt_quoted_form(m.sslkey));
        lemma_opt_quoted_form_determines(v, m.sslkey);
    }
}

/// The pretty debug text shows whether `sslkey` is set and, when it is, the quoted form of its own text: changing only `sslkey`
/// to a value that shows differently changes the text.
pub proof fn lemma_pretty_text_shows_sslkey(m: ConnectArgsView, v: Option<Seq<char>>)
    ensures
        args_pretty_debug_text(ConnectArgsView { sslkey: v, ..m }) == args_pretty_debug_text(m) ==> (v is Some <==> m.sslkey is Some) && (v is Some && m.sslkey is Some ==> quoted_form(v.unwrap()) == quoted_form(m.sslkey.unwrap())),
{
    let b = ConnectArgsView { sslkey: v, ..m };
    if args_pretty_debug_text(b) == args_pretty_debug_text(m) {
        lemma_pretty_piece_determined(b, m, 8, args_debug_piece_count());
        lemma_concat_parts_eq("    sslkey: "@ + opt_quoted_pretty_form(v), ",\n"@, "    sslkey: "@ + opt_quoted_pretty_form(m.sslkey), ",\n"@);
        lemma_concat_parts_eq("    sslkey: "@, opt_quoted_pretty_form(v), "    sslkey: "@, opt_quoted_pretty_form(m.sslkey));
        lemma_opt_quoted_pretty_form_determines(v, m.sslkey);
    }
}

/// The debug text shows the value of `hip` itself: changing only `hip`
/// to a value that shows differently changes the text.
pub proof fn lemma_debug_text_shows_hip(m: ConnectArgsView, v: bool)
    ensures
        args_debug_text(ConnectArgsView { hip: v, ..m }) == args_debug_text(m) ==> v == m.hip,
{
    let b = ConnectArgsView { hip: v, ..m };
    if args_debug_text(b) == args_debug_text(m) {
        lemma_debug_piece_determined(b, m, 9, args_debug_piece_count());
        lemma_concat_parts_eq(", hip: "@, bool_text(v), ", hip: "@, bool_text(m.hip));
        lemma_bool_text_injective(v, m.hip);
    }
}

/// The pretty debug text shows the value of `hip` itself: changing only `hip`
/// to a value that shows differently changes the text.
pub proof fn lemma_pretty_text_shows_hip(m: ConnectArgsView, v: bool)
    ensures
        args_pretty_debug_text(ConnectArgsView { hip: v, ..m }) == args_pretty_debug_text(m) ==> v == m.hip,
{
    let b = ConnectArgsView { hip: v, ..m };
    if args_pretty_debug_text(b) == args_pretty_debug_text(m) {
        lemma_pretty_piece_determined(b, m, 9, args_debug_piece_count());
        lemma_concat_parts_eq("    hip: "@ + bool_text(v), ",\n"@, "    hip: "@ + bool_text(m.hip), ",\n"@);
        lemma_concat_parts_eq("    hip: "@, bool_text(v), "    hip: "@, bool_text(m.hip));
        lemma_bool_text_injective(v, m.hip);
    }
}

/// The debug text shows the value of `csd_uid` itself: changing only `csd_uid`
/// to a value that shows differently changes the text.
pub proof fn lemma_debug_text_shows_csd_uid(m: ConnectArgsView, v: u32)
    ensures
        args_debug_text(ConnectArgsView { csd_uid: v, ..m }) == args_debug_text(m) ==> v == m.csd_uid,
{
    let b = ConnectArgsView { csd_uid: v, ..m };
    if args_debug_text(b) == args_debug_text(m) {
        lemma_debug_piece_determined(b, m, 10, args_debug_piece_count());
        lemma_concat_parts_eq(", csd_uid: "@, decimal_text(v as nat), ", csd_uid: "@, decimal_text(m.csd_uid as nat));
        lemma_decimal_text_injective(v as nat, m.csd_uid as nat);
    }
}

/// The pretty debug text shows the value of `csd_uid` itself: changing only `csd_uid`
/// to a value that shows differently changes the text.
pub proof fn lemma_pretty_text_shows_csd_uid(m: ConnectArgsView, v: u32)
    ensures
        args_pretty_debug_text(ConnectArgsView { csd_uid: v, ..m }) == args_pretty_debug_text(m) ==> v == m.csd_uid,
{
    let b = ConnectArgsView { csd_uid: v, ..m };
    if args_pretty_debug_text(b) == args_pretty_debug_text(m) {
        lemma_pretty_piece_determined(b, m, 10, args_debug_piece_count());
        lemma_concat_parts_eq("    csd_uid: "@ + decimal_text(v as nat), ",\n"@, "    csd_uid: "@ + decimal_text(m.csd_uid as nat), ",\n"@);
        lemma_concat_parts_eq("    csd_uid: "@, decimal_text(v as nat), "    csd_uid: "@, decimal_text(m.csd_uid as nat));
        lemma_decimal_text_injective(v as nat, m.csd_uid as nat);
    }
}

/// The debug text shows whether `csd_wrapper` is set and, when it is, the quoted form of its own text: changing only `csd_wrapper`
/// to a value that shows differently changes the text.
pub proof fn lemma_debug_text_shows_csd_wrapper(m: ConnectArgsView, v: Option<Seq<char>>)
    ensures
        args_debug_text(ConnectArgsView { csd_wrapper: v, ..m }) == args_debug_text(m) ==> (v is Some <==> m.csd_wrapper is Some) && (v is Some && m.csd_wrapper is Some ==> quoted_form(v.unwrap()) == quoted_form(m.csd_wrapper.unwrap())),
{
    let b = ConnectArgsView { csd_wrapper: v, ..m };
    if args_debug_text(b) == args_debug_text(m) {
        lemma_debug_piece_determined(b, m, 11, args_debug_piece_count());
        lemma_concat_parts_eq(", csd_wrapper: "@, opt_quoted_form(v), ", csd_wrapper: "@, opt_quoted_form(m.csd_wrapper));
        lemma_opt_quoted_form_determines(v, m.csd_wrapper);
    }
}

/// The pretty debug text shows whether `csd_wrapper` is set and, when it is, the quoted form of its own text: changing only `csd_wrapper`
/// to a value that shows differently changes the text.
pub proof fn lemma_pretty_text_shows_csd_wrapper(m: ConnectArgsView, v: Option<Seq<char>>)
    ensures
        args_pretty_debug_text(ConnectArgsView { csd_wrapper: v, ..m }) == args_pretty_debug_text(m) ==> (v is Some <==> m.csd_wrapper is Some) && (v is Some && m.csd_wrapper is Some ==> quoted_form(v.unwrap()) == quoted_form(m.csd_wrapper.unwrap())),
{
    let b = ConnectArgsView { csd_wrapper: v, ..m };
    if args_pretty_debug_text(b) == args_pretty_debug_text(m) {
        lemma_pretty_piece_determined(b, m, 11, args_debug_piece_count());
        lemma_concat_parts_eq("    csd_wrapper: "@ + opt_quoted_pretty_form(v), ",\n"@, "    csd_wrapper: "@ + opt_quoted_pretty_form(m.csd_wrapper), ",\n"@);
        lemma_concat_parts_eq("    csd_wrapper: "@, opt_quoted_pretty_form(v), "    csd_wrapper: "@, opt_quoted_pretty_form(m.csd_wrapper));
        lemma_opt_quoted_pretty_form_determines(v, m.csd_wrapper);
    }
}

/// The debug text shows the value of `reconnect_timeout` itself: changing only `reconnect_timeout`
/// to a value that shows differently changes the text.
pub proof fn lemma_debug_text_shows_reconnect_timeout(m: ConnectArgsView, v: u32)
    ensures
        args_debug_text(ConnectArgsView { reconnect_timeout: v, ..m }) == args_debug_text(m) ==> v == m.reconnect_timeout,
{
    let b = ConnectArgsView { reconnect_timeout: v, ..m };
    if args_debug_text(b) == args_debug_text(m) {
        lemma_debug_piece_determined(b, m, 12, args_debug_piece_count());
        lemma_concat_parts_eq(", reconnect_timeout: "@, decimal_text(v as nat), ", reconnect_timeout: "@, decimal_text(m.reconnect_timeout as nat));
        lemma_decimal_text_injective(v as nat, m.reconnect_timeout as nat);
    }
}

/// The pretty debug text shows the value of `reconnect_timeout` itself: changing only `reconnect_timeout`
/// to a value that shows differently changes the text.
pub proof fn lemma_pretty_text_shows_reconnect_timeout(m: ConnectArgsView, v: u32)
    ensures
        args_pretty_debug_text(ConnectArgsView { reconnect_timeout: v, ..m }) == args_pretty_debug_text(m) ==> v == m.reconnect_timeout,
{
    let b = ConnectArgsView { reconnect_timeout: v, ..m };
    if args_pretty_debug_text(b) == args_pretty_debug_text(m) {
        lemma_pretty_piece_determined(b, m, 12, args_debug_piece_count());
        lemma_concat_parts_eq("    reconnect_timeout: "@ + decimal_text(v as nat), ",\n"@, "    reconnect_timeout: "@ + decimal_text(m.reconnect_timeout as nat), ",\n"@);
        lemma_concat_parts_eq("    reconnect_timeout: "@, decimal_text(v as nat), "    reconnect_timeout: "@, decimal_text(m.reconnect_timeout as nat));
        lemma_decimal_text_injective(v as nat, m.reconnect_timeout as nat);
    }
}

/// The debug text shows the value of `mtu` itself: changing only `mtu`
/// to a value that shows differently changes the text.
pub proof fn lemma_debug_text_shows_mtu(m: ConnectArgsView, v: u32)
    ensures
        args_debug_text(ConnectArgsView { mtu: v, ..m }) == args_debug_text(m) ==> v == m.mtu,
{
    let b = ConnectArgsView { mtu: v, ..m };
    if args_debug_text(b) == args_debug_text(m) {
        lemma_debug_piece_determined(b, m, 13, args_debug_piece_count());
        lemma_concat_parts_eq(", mtu: "@, decimal_text(v as nat), ", mtu: "@, decimal_text(m.mtu as nat));
        lemma_decimal_text_injective(v as nat, m.mtu as nat);
    }
}

/// The pretty debug text shows the value of `mtu` itself: changing only `mtu`
/// to a value that shows differently changes the text.
pub proof fn lemma_pretty_text_shows_mtu(m: ConnectArgsView, v: u32)
    ensures
        args_pretty_debug_text(ConnectArgsView { mtu: v, ..m }) == args_pretty_debug_text(m) ==> v == m.mtu,
{
    let b = ConnectArgsView { mtu: v, ..m };
    if args_pretty_debug_text(b) == args_pretty_debug_text(m) {
        lemma_pretty_piece_determined(b, m, 13, args_debug_piece_count());
        lemma_concat_parts_eq("    mtu: "@ + decimal_text(v as nat), ",\n"@, "    mtu: "@ + decimal_text(m.mtu as nat), ",\n"@);
        lemma_concat_parts_eq("    mtu: "@, decimal_text(v as nat), "    mtu: "@, decimal_text(m.mtu as nat));
        lemma_decimal_text_injective(v as nat, m.mtu as nat);
    }
}

/// The debug text shows the value of `disable_ipv6` itself: changing only `disable_ipv6`
/// to a value that shows differently changes the text.
pub proof fn lemma_debug_text_shows_disable_ipv6(m: ConnectArgsView, v: bool)
    ensures
        args_debug_text(ConnectArgsView { disable_ipv6: v, ..m }) == args_debug_text(m) ==> v == m.disable_ipv6,
{
    let b = ConnectArgsView { disable_ipv6: v, ..m };
    if args_debug_text(b) == args_debug_text(m) {
        lemma_debug_piece_determined(b, m, 14, args_debug_piece_count());
        lemma_concat_parts_eq(", disable_ipv6: "@, bool_text(v), ", disable_ipv6: "@, bool_text(m.disable_ipv6));
        lemma_bool_text_injective(v, m.disable_ipv6);
    }
}

/// The pretty debug text shows the value of `disable_ipv6` itself: changing only `disable_ipv6`
/// to a value that shows differently changes the text.
pub proof fn lemma_pretty_text_shows_disable_ipv6(m: ConnectArgsView, v: bool)
    ensures
        args_pretty_debug_text(ConnectArgsView { disable_ipv6: v, ..m }) == args_pretty_debug_text(m) ==> v == m.disable_ipv6,
{
    let b = ConnectArgsView { disable_ipv6: v, ..m };
    if args_pretty_debug_text(b) == args_pretty_debug_text(m) {
        lemma_pretty_piece_determined(b, m, 14, args_debug_piece_count());
        lemma_concat_parts_eq("    disable_ipv6: "@ + bool_text(v), ",\n"@, "    disable_ipv6: "@ + bool_text(m.disable_ipv6), ",\n"@);
        lemma_concat_parts_eq("    disable_ipv6: "@, bool_text(v), "    disable_ipv6: "@, bool_text(m.disable_ipv6));
        lemma_bool_text_injective(v, m.disable_ipv6);
    }
}

/// The debug text shows the value of `no_dtls` itself: changing only `no_dtls`
/// to a value that shows differently changes the text.
pub proof fn lemma_debug_text_shows_no_dtls(m: ConnectArgsView, v: bool)
    ensures
        args_debug_text(ConnectArgsView { no_dtls: v, ..m }) == args_debug_text(m) ==> v == m.no_dtls,
{
    let b = ConnectArgsView { no_dtls: v, ..m };
    if args_debug_text(b) == args_debug_text(m) {
        lemma_debug_piece_determined(b, m, 15, args_debug_piece_count());
        lemma_concat_parts_eq(", no_dtls: "@, bool_text(v), ", no_dtls: "@, bool_text(m.no_dtls));
        lemma_bool_text_injective(v, m.no_dtls);
    }
}

/// The pretty debug text shows the value of `no_dtls` itself: changing only `no_dtls`
/// to a value that shows differently changes the text.
pub proof fn lemma_pretty_text_shows_no_dtls(m: ConnectArgsView, v: bool)
    ensures
        args_pretty_debug_text(ConnectArgsView { no_dtls: v, ..m }) == args_pretty_debug_text(m) ==> v == m.no_dtls,
{
    let b = ConnectArgsView { no_dtls: v, ..m };
    if args_pretty_debug_text(b) == args_pretty_debug_text(m) {
        lemma_pretty_piece_determined(b, m, 15, args_debug_piece_count());
        lemma_concat_parts_eq("    no_dtls: "@ + bool_text(v), ",\n"@, "    no_dtls: "@ + bool_text(m.no_dtls), ",\n"@);
        lemma_concat_parts_eq("    no_dtls: "@, bool_text(v), "    no_dtls: "@, bool_text(m.no_dtls));
        lemma_bool_text_injective(v, m.no_dtls);
    }
}

/// The debug text shows whether `local_hostname` is set and, when it is, the quoted form of its own text: changing only `local_hostname`
/// to a value that shows differently changes the text.
pub proof fn lemma_debug_text_shows_local_hostname(m: ConnectArgsView, v: Option<Seq<char>>)
    ensures
        args_debug_text(ConnectArgsView { local_hostname: v, ..m }) == args_debug_text(m) ==> (v is Some <==> m.local_hostname is Some) && (v is Some && m.local_hostname is Some ==> quoted_form(v.unwrap()) == quoted_form(m.local_hostname.unwrap())),
{
    let b = ConnectArgsView { local_hostname: v, ..m };
    if args_debug_text(b) == args_debug_text(m) {
        lemma_debug_piece_determined(b, m, 16, args_debug_piece_count());
        lemma_concat_parts_eq(", local_hostname: "@, opt_quoted_form(v), ", local_hostname: "@, opt_quoted_form(m.local_hostname));
        lemma_opt_quoted_form_determines(v, m.local_hostname);
    }
}

/// The pretty debug text shows whether `local_hostname` is set and, when it is, the quoted form of its own text: changing only `local_hostname`
/// to a value that shows differently changes the text.
pub proof fn lemma_pretty_text_shows_local_hostname(m: ConnectArgsView, v: Option<Seq<char>>)
    ensures
        args_pretty_debug_text(ConnectArgsView { local_hostname: v, ..m }) == args_pretty_debug_text(m) ==> (v is Some <==> m.local_hostname is Some) && (v is Some && m.local_hostname is Some ==> quoted_form(v.unwrap()) == quoted_form(m.local_hostname.unwrap())),
{
    let b = ConnectArgsView { local_hostname: v, ..m };
    if args_pretty_debug_text(b) == args_pretty_debug_text(m) {
        lemma_pretty_piece_determined(b, m, 16, args_debug_piece_count());
        lemma_concat_parts_eq("    local_hostname: "@ + opt_quoted_pretty_form(v), ",\n"@, "    local_hostname: "@ + opt_quoted_pretty_form(m.local_hostname), ",\n"@);
        lemma_concat_parts_eq("    local_hostname: "@, opt_quoted_pretty_form(v), "    local_hostname: "@, opt_quoted_pretty_form(m.local_hostname));
        lemma_opt_quoted_pretty_form_determines(v, m.local_hostname);
    }
}

/// The debug text shows the value of `force_dpd` itself: changing only `force_dpd`
/// to a value that shows differently changes the text.
pub proof fn lemma_debug_text_shows_force_dpd(m: ConnectArgsView, v: u32)
    ensures
        args_debug_text(ConnectArgsView { force_dpd: v, ..m }) == args_debug_text(m) ==> v == m.force_dpd,
{
    let b = ConnectArgsView { force_dpd: v, ..m };
    if args_debug_text(b) == args_debug_text(m) {
        lemma_debug_piece_determined(b, m, 17, args_debug_piece_count());
        lemma_concat_parts_eq(", force_dpd: "@, decimal_text(v as nat), ", force_dpd: "@, decimal_text(m.force_dpd as nat));
        lemma_decimal_text_injective(v as nat, m.force_dpd as nat);
    }
}

/// The pretty debug text shows the value of `force_dpd` itself: changing only `force_dpd`
/// to a value that shows differently changes the text.
pub proof fn lemma_pretty_text_shows_force_dpd(m: ConnectArgsView, v: u32)
    ensures
        args_pretty_debug_text(ConnectArgsView { force_dpd: v, ..m }) == args_pretty_debug_text(m) ==> v == m.force_dpd,
{
    let b = ConnectArgsView { force_dpd: v, ..m };
    if args_pretty_debug_text(b) == args_pretty_debug_text(m) {
        lemma_pretty_piece_determined(b, m, 17, args_debug_piece_count());
        lemma_concat_parts_eq("    force_dpd: "@ + decimal_text(v as nat), ",\n"@, "    force_dpd: "@ + decimal_text(m.force_dpd as nat), ",\n"@);
        lemma_concat_parts_eq("    force_dpd: "@, decimal_text(v as nat), "    force_dpd: "@, decimal_text(m.force_dpd as nat));
        lemma_decimal_text_injective(v as nat, m.force_dpd as nat);
    }
}

/// The debug text shows the value of `no_xmlpost` itself: changing only `no_xmlpost`
/// to a value that shows differently changes the text.
pub proof fn lemma_debug_text_shows_no_xmlpost(m: ConnectArgsView, v: bool)
    ensures
        args_debug_text(ConnectArgsView { no_xmlpost: v, ..m }) == args_debug_text(m) ==> v == m.no_xmlpost,
{
    let b = ConnectArgsView { no_xmlpost: v, ..m };
    if args_debug_text(b) == args_debug_text(m) {
        lemma_debug_piece_determined(b, m, 18, args_debug_piece_count());
        lemma_concat_parts_eq(", no_xmlpost: "@, bool_text(v), ", no_xmlpost: "@, bool_text(m.no_xmlpost));
        lemma_bool_text_injective(v, m.no_xmlpost);
    }
}

/// The pretty debug text shows the value of `no_xmlpost` itself: changing only `no_xmlpost`
/// to a value that shows differently changes the text.
pub proof fn lemma_pretty_text_shows_no_xmlpost(m: ConnectArgsView, v: bool)
    ensures
        args_pretty_debug_text(ConnectArgsView { no_xmlpost: v, ..m }) == args_pretty_debug_text(m) ==> v == m.no_xmlpost,
{
    let b = ConnectArgsView { no_xmlpost: v, ..m };
    if args_pretty_debug_text(b) == args_pretty_debug_text(m) {
        lemma_pretty_piece_determined(b, m, 18, args_debug_piece_count());
        lemma_concat_parts_eq("    no_xmlpost: "@ + bool_text(v), ",\n"@, "    no_xmlpost: "@ + bool_text(m.no_xmlpost), ",\n"@);
        lemma_concat_parts_eq("    no_xmlpost: "@, bool_text(v), "    no_xmlpost: "@, bool_text(m.no_xmlpost));
        lemma_bool_text_injective(v, m.no_xmlpost);
    }
}

/// The debug text shows the value of `allow_extend_session` itself: changing only `allow_extend_session`
/// to a value that shows differently changes the text.
pub proof fn lemma_debug_text_shows_allow_extend_session(m: ConnectArgsView, v: bool)
    ensures
        args_debug_text(ConnectArgsView { allow_extend_session: v, ..m }) == args_debug_text(m) ==> v == m.allow_extend_session,
{
    let b = ConnectArgsView { allow_extend_session: v, ..m };
    if args_debug_text(b) == args_debug_text(m) {
        lemma_debug_piece_determined(b, m, 19, args_debug_piece_count());
        lemma_concat_parts_eq(", allow_extend_session: "@, bool_text(v), ", allow_extend_session: "@, bool_text(m.allow_extend_session));
        lemma_bool_text_injective(v, m.allow_extend_session);
    }
}

/// The pretty debug text shows the value of `allow_extend_session` itself: changing only `allow_extend_session`
/// to a value that shows differently changes the text.
pub proof fn lemma_pretty_text_shows_allow_extend_session(m: ConnectArgsView, v: bool)
    ensures
        args_pretty_debug_text(ConnectArgsView { allow_extend_session: v, ..m }) == args_pretty_debug_text(m) ==> v == m.allow_extend_session,
{
    let b = ConnectArgsView { allow_extend_session: v, ..m };
    if args_pretty_debug_text(b) == args_pretty_debug_text(m) {
        lemma_pretty_piece_determined(b, m, 19, args_debug_piece_count());
        lemma_concat_parts_eq("    allow_extend_session: "@ + bool_text(v), ",\n"@, "    allow_extend_session: "@ + bool_text(m.allow_extend_session), ",\n"@);
        lemma_concat_parts_eq("    allow_extend_session: "@, bool_text(v), "    allow_extend_session: "@, bool_text(m.allow_extend_session));
        lemma_bool_text_injective(v, m.allow_extend_session);
    }
}

/// The debug text shows the form of the `dns_domains` list itself: changing only `dns_domains`
/// to a value that shows differently changes the text.
pub proof fn lemma_debug_text_shows_dns_domains(m: ConnectArgsView, v: Seq<Seq<char>>)
    ensures
        args_debug_text(ConnectArgsView { dns_domains: v, ..m }) == args_debug_text(m) ==> list_quoted_form(v) == list_quoted_form(m.dns_domains),
{
    let b = ConnectArgsView { dns_domains: v, ..m };
    if args_debug_text(b) == args_debug_text(m) {
        lemma_debug_piece_determined(b, m, 20, args_debug_piece_count());
        lemma_concat_parts_eq(", dns_domains: "@, list_quoted_form(v), ", dns_domains: "@, list_quoted_form(m.dns_domains));
        
    }
}

/// The pretty debug text shows the form of the `dns_domains` list itself, and whether it is empty: changing only `dns_domains`
/// to a value that shows differently changes the text.
pub proof fn lemma_pretty_text_shows_dns_domains(m: ConnectArgsView, v: Seq<Seq<char>>)
    ensures
        args_pretty_debug_text(ConnectArgsView { dns_domains: v, ..m }) == args_pretty_debug_text(m) ==> (v.len() == 0 <==> m.dns_domains.len() == 0) && list_quoted_pretty_form(v) == list_quoted_pretty_form(m.dns_domains),
{
    let b = ConnectArgsView { dns_domains: v, ..m };
    if args_pretty_debug_text(b) == args_pretty_debug_text(m) {
        lemma_pretty_piece_determined(b, m, 20, args_debug_piece_count());
        lemma_concat_parts_eq("    dns_domains: "@ + list_quoted_pretty_form(v), ",\n"@, "    dns_domains: "@ + list_quoted_pretty_form(m.dns_domains), ",\n"@);
        lemma_concat_parts_eq("    dns_domains: "@, list_quoted_pretty_form(v), "    dns_domains: "@, list_quoted_pretty_form(m.dns_domains));
        lemma_list_quoted_pretty_form_emptiness(v, m.dns_domains);
    }
}

} // verus!
