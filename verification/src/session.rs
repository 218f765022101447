//! Session lifetime metadata reported by the gateway for an established tunnel.

use vstd::prelude::*;

verus! {

/// A warning the gateway asks the client to show some time before an event.
#[derive(Debug, Clone)]
pub struct SessionWarning {
    /// How many seconds before the event the warning is due.
    pub prior_secs: u64,
    pub message: String,
}

/// Lifetime metadata of a gateway session.
#[derive(Debug, Clone)]
pub struct SessionInfo {
    /// Total session lifetime in seconds, if the gateway reported one.
    pub lifetime_secs: Option<u64>,
    /// Unix time at which the user's session expires.
    pub user_expires: Option<i64>,
    /// The gateway's own human-readable rendering of the remaining time.
    pub expires_in_human: Option<String>,
    pub lifetime_warning: Option<SessionWarning>,
    pub inactivity_warning: Option<SessionWarning>,
    pub admin_logout_message: Option<String>,
    /// Whether the gateway lets the user extend the session.
    pub allow_extend_session: bool,
}

/// The abstract value of a session warning.
pub struct SessionWarningView {
    pub prior_secs: u64,
    pub message: Seq<char>,
}

/// The abstract value of session metadata.
pub struct SessionInfoView {
    pub lifetime_secs: Option<u64>,
    pub user_expires: Option<i64>,
    pub expires_in_human: Option<Seq<char>>,
    pub lifetime_warning: Option<SessionWarningView>,
    pub inactivity_warning: Option<SessionWarningView>,
    pub admin_logout_message: Option<Seq<char>>,
    pub allow_extend_session: bool,
}

impl View for SessionWarning {
    type V = SessionWarningView;

    open spec fn view(&self) -> SessionWarningView {
        SessionWarningView { prior_secs: self.prior_secs, message: self.message@ }
    }
}

/// The abstract value of an optional session warning.
pub open spec fn opt_warning_view(w: Option<SessionWarning>) -> Option<SessionWarningView> {
    match w {
        Some(w) => Some(w@),
        None => None,
    }
}

impl View for SessionInfo {
    type V = SessionInfoView;

    open spec fn view(&self) -> SessionInfoView {
        SessionInfoView {
            lifetime_secs: self.lifetime_secs,
            user_expires: self.user_expires,
            expires_in_human: self.expires_in_human.deep_view(),
            lifetime_warning: opt_warning_view(self.lifetime_warning),
            inactivity_warning: opt_warning_view(self.inactivity_warning),
            admin_logout_message: self.admin_logout_message.deep_view(),
            allow_extend_session: self.allow_extend_session,
        }
    }
}

/// The abstract value of optional session metadata.
pub open spec fn opt_session_view(s: Option<SessionInfo>) -> Option<SessionInfoView> {
    match s {
        Some(s) => Some(s@),
        None => None,
    }
}

/// Metadata with nothing reported: no lifetime, no warnings, no extension.
impl Default for SessionInfo {
    fn default() -> (r: Self)
        ensures
            r@ == (SessionInfoView {
                lifetime_secs: None,
                user_expires: None,
                expires_in_human: None,
                lifetime_warning: None,
                inactivity_warning: None,
                admin_logout_message: None,
                allow_extend_session: false,
            }),
    {
        SessionInfo {
            lifetime_secs: None,
            user_expires: None,
            expires_in_human: None,
            lifetime_warning: None,
            inactivity_warning: None,
            admin_logout_message: None,
            allow_extend_session: false,
        }
    }
}

} // verus!
