//! Request observability middleware for a minimal HTTP handler framework.
//!
//! For each inbound request the middleware pushes an isolated recording
//! scope, optionally starts a session and a trace transaction, derives a
//! redacted request descriptor and registers it as a lazy event enricher,
//! then — once the wrapped handler's outcome is known — finalizes the
//! transaction, reports a failure outcome's error, ends the session, and
//! releases the scope exactly once on every exit path.
//!
//! The decisions (which telemetry operations to perform, in which order,
//! with which data) are verified here over plain-value models of the
//! request and the event; the host-framework adapter converts its request
//! object to [`request::RequestInfo`], runs the returned
//! [`lifecycle::Action`] list against the telemetry client, and parks the
//! [`lifecycle::ScopeHandle`] between the hooks.

use vstd::prelude::*;

pub mod event;
pub mod lifecycle;
pub mod model;
pub mod request;
pub mod status;

verus! {

/// Per-request observability middleware: its configuration flags.
pub struct SentryMiddleware {
    /// Start a trace transaction for each request.
    pub start_transactions: bool,
    /// Start and end a session for each request.
    pub track_sessions: bool,
    /// Attach the caller's remote address to the request descriptor.
    pub with_pii: bool,
}

/// Relies on `sentry_core::Hub::with_active` and `Client::options`: reads
/// whether the bound client sends default PII and whether request-mode
/// session tracking is configured; `(false, false)` when no client is bound.
/// The result depends on the process-wide client configuration.
#[verifier::external_body]
fn read_client_flags() -> (r: (bool, bool)) {
    sentry_core::Hub::with_active(|hub| {
        let client = hub.client();
        let with_pii = client.as_ref().map_or(false, |c| c.options().send_default_pii);
        let track_sessions = client.as_ref().map_or(false, |c| {
            let options = c.options();
            options.auto_session_tracking
                && options.session_mode == sentry_core::SessionMode::Request
        });
        (with_pii, track_sessions)
    })
}

impl Default for SentryMiddleware {
    /// Read the PII and session-tracking policy from the bound telemetry
    /// client's configuration; transaction tracking stays off by default.
    fn default() -> (r: Self)
        ensures
            r.start_transactions == false,
    {
        let (with_pii, track_sessions) = read_client_flags();
        SentryMiddleware { start_transactions: false, track_sessions, with_pii }
    }
}

impl SentryMiddleware {
    /// A middleware with the default configuration: no transactions; PII and
    /// session policy taken from the telemetry client.
    pub fn new() -> (r: SentryMiddleware)
        ensures
            r.start_transactions == false,
    {
        Default::default()
    }

    /// A middleware that additionally starts a trace transaction per request.
    pub fn with_transactions() -> (r: SentryMiddleware)
        ensures
            r.start_transactions == true,
    {
        let m = SentryMiddleware::default();
        SentryMiddleware { start_transactions: true, ..m }
    }
}

} // verus!
