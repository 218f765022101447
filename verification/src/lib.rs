//! `gp_protocol`: the versioned wire contract between a GlobalProtect client
//! GUI and its privileged backend service.
//!
//! Both ends depend on this one crate, so the messages they exchange cannot
//! drift apart silently.
//!
//! ## Wire versioning
//! `PROTOCOL_MIN..=PROTOCOL_MAX` is the range of wire versions a build can
//! speak. The two sides exchange their ranges at handshake and settle on the
//! highest common version; disjoint ranges surface a clear "update" message.

use vstd::prelude::*;

pub mod args_laws;
pub mod auth;
pub mod env;
pub mod event;
pub mod gateway;
pub mod os;
pub mod request;
pub mod session;
pub mod state;
pub mod text;

pub use auth::{AuthCredential, ConnectAuthRequest, ProbeReply, ProbeRequest};
pub use env::VpnEnv;
pub use event::WsEvent;
pub use gateway::{Gateway, PriorityRule};
pub use os::ClientOs;
pub use request::{ConnectArgs, ConnectRequest, DisconnectRequest, UpdateLogLevelRequest, WsRequest};
pub use session::{SessionInfo, SessionWarning};
pub use state::{ConnectInfo, ConnectedInfo, MfaChallengeInfo, VpnState};

verus! {

/// Oldest wire-protocol version this build still understands.
pub const PROTOCOL_MIN: u32 = 2;

/// Newest wire-protocol version this build speaks.
pub const PROTOCOL_MAX: u32 = 4;

/// The current protocol version, the same as `PROTOCOL_MAX`.
pub const PROTOCOL_VERSION: u32 = PROTOCOL_MAX;

/// The protocol version of a peer that leaves the handshake fields out: such
/// a peer predates them and speaks the original wire format, version 1.
pub fn protocol_baseline() -> (r: u32)
    ensures
        r == 1,
{
    1
}

/// The version range is not empty, the current version is its top, and a
/// peer that predates the handshake (the baseline version 1) lies below it.
pub proof fn lemma_version_range()
    ensures
        1 < PROTOCOL_MIN,
        PROTOCOL_MIN <= PROTOCOL_VERSION,
        PROTOCOL_VERSION == PROTOCOL_MAX,
{
}

} // verus!
