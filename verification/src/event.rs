//! Unsolicited messages the backend pushes to connected clients.

use vstd::prelude::*;

use crate::auth::ProbeReply;
use crate::env::VpnEnv;
use crate::state::VpnState;

verus! {

/// Backend → client push messages.
#[derive(Debug, Clone)]
pub enum WsEvent {
    /// The connect-time greeting (environment and handshake).
    VpnEnv(VpnEnv),
    /// The VPN state changed.
    VpnState(VpnState),
    /// Another GUI instance took over; this client should yield.
    ActiveGui,
    /// The backend asks the client to re-establish the previous connection.
    ResumeConnection,
    /// The result of a probe request.
    ProbeResult(ProbeReply),
}

} // verus!
