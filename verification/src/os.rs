//! The operating system a client reports to the GlobalProtect portal/gateway.
//!
//! The string values here are protocol constants: the portal endpoints expect
//! `Linux` / `Windows` / `Mac` in the `clientos` parameter, while the
//! openconnect engine's `--os` vocabulary is `linux` / `win` / `mac-intel`.

use vstd::prelude::*;

use crate::text::str_equals;

verus! {

/// Client OS reported to the portal/gateway and carried in connect requests.
#[derive(Debug, Clone, Copy, PartialEq, Eq, Structural)]
pub enum ClientOs {
    Linux,
    Windows,
    Mac,
}

/// The portal-side `clientos` name of an OS.
pub open spec fn portal_name(os: ClientOs) -> Seq<char> {
    match os {
        ClientOs::Linux => "Linux"@,
        ClientOs::Windows => "Windows"@,
        ClientOs::Mac => "Mac"@,
    }
}

/// The name of an OS in openconnect's `--os` vocabulary.
pub open spec fn openconnect_name(os: ClientOs) -> Seq<char> {
    match os {
        ClientOs::Linux => "linux"@,
        ClientOs::Windows => "win"@,
        ClientOs::Mac => "mac-intel"@,
    }
}

/// The OS a portal-side name denotes: `Windows` and `Mac` are recognised,
/// anything else falls back to Linux.
pub open spec fn os_from_portal_name(name: Seq<char>) -> ClientOs {
    if name == "Windows"@ {
        ClientOs::Windows
    } else if name == "Mac"@ {
        ClientOs::Mac
    } else {
        ClientOs::Linux
    }
}

impl ClientOs {
    /// The portal-side `clientos` value (a GlobalProtect protocol constant).
    pub fn as_str(&self) -> (r: &'static str)
        ensures
            r@ == portal_name(*self),
    {
        match self {
            ClientOs::Linux => "Linux",
            ClientOs::Windows => "Windows",
            ClientOs::Mac => "Mac",
        }
    }

    /// The equivalent value in openconnect's `--os` vocabulary.
    pub fn to_openconnect_os(&self) -> (r: &'static str)
        ensures
            r@ == openconnect_name(*self),
    {
        match self {
            ClientOs::Linux => "linux",
            ClientOs::Windows => "win",
            ClientOs::Mac => "mac-intel",
        }
    }
}

impl ClientOs {
    /// The default OS for a build target: Mac when the target is macOS,
    /// Linux otherwise.
    pub fn platform_default(target_is_macos: bool) -> (r: ClientOs)
        ensures
            r == (if target_is_macos { ClientOs::Mac } else { ClientOs::Linux }),
    {
        if target_is_macos {
            ClientOs::Mac
        } else {
            ClientOs::Linux
        }
    }
}

/// The default OS of the library itself is Linux, the platform the client
/// suite ships on; `platform_default` gives the default for a build target.
impl Default for ClientOs {
    fn default() -> (r: Self)
        ensures
            r == ClientOs::Linux,
    {
        ClientOs::Linux
    }
}

impl<'a> From<&'a str> for ClientOs {
    /// Parses the portal-side name; anything unrecognised falls back to Linux.
    fn from(name: &'a str) -> (r: Self) {
        if str_equals(name, "Windows") {
            ClientOs::Windows
        } else if str_equals(name, "Mac") {
            ClientOs::Mac
        } else {
            ClientOs::Linux
        }
    }
}

impl<'a> vstd::std_specs::convert::FromSpecImpl<&'a str> for ClientOs {
    open spec fn obeys_from_spec() -> bool {
        true
    }

    open spec fn from_spec(name: &'a str) -> ClientOs {
        os_from_portal_name(name@)
    }
}

/// Parsing the portal-side name of an OS gives that OS back.
pub proof fn lemma_portal_name_roundtrip(os: ClientOs)
    ensures
        os_from_portal_name(portal_name(os)) == os,
{
    reveal_strlit("Linux");
    reveal_strlit("Windows");
    reveal_strlit("Mac");
    assert("Linux"@.len() == 5 && "Windows"@.len() == 7 && "Mac"@.len() == 3);
    assert("Linux"@ != "Windows"@ && "Linux"@ != "Mac"@);
    assert("Mac"@ != "Windows"@);
}

/// Distinct operating systems have distinct portal-side names and distinct
/// openconnect names.
pub proof fn lemma_names_distinguish(a: ClientOs, b: ClientOs)
    requires
        a != b,
    ensures
        portal_name(a) != portal_name(b),
        openconnect_name(a) != openconnect_name(b),
{
    reveal_strlit("Linux");
    reveal_strlit("Windows");
    reveal_strlit("Mac");
    reveal_strlit("linux");
    reveal_strlit("win");
    reveal_strlit("mac-intel");
    if portal_name(a) == portal_name(b) {
        lemma_portal_name_roundtrip(a);
        lemma_portal_name_roundtrip(b);
    }
    if openconnect_name(a) == openconnect_name(b) {
        assert(openconnect_name(a).len() == openconnect_name(b).len());
        assert(openconnect_name(a)[0] == openconnect_name(b)[0]);
    }
}

} // verus!
