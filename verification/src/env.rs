//! The backend's greeting: environment and handshake data pushed to a client
//! the moment it connects.

use vstd::prelude::*;

use crate::state::VpnState;

verus! {

/// First message a client receives after connecting: the backend's protocol
/// range, current VPN state, and the paths the client may need to assemble a
/// connect request.
#[derive(Debug, Clone)]
pub struct VpnEnv {
    /// Wire-protocol range the backend speaks. Backends that predate the
    /// handshake leave both out, which means the baseline `1`.
    pub protocol_min: u32,
    pub protocol_max: u32,
    /// The VPN connection state at the time the client attached.
    pub vpn_state: VpnState,
    /// Default vpnc-script path on the backend host, if one was found.
    pub vpnc_script: Option<String>,
    /// Default CSD (HIP) wrapper script path, if one was found.
    pub csd_wrapper: Option<String>,
    /// Path to the `gpauth` executable, for clients that delegate SAML to it.
    pub auth_executable: String,
}

} // verus!
