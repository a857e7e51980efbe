use sentry_conduit::SentryMiddleware;
use sentry_conduit::event::{Event, SdkPackage, process_event};
use sentry_conduit::lifecycle::{
    Action, ActiveSpan, Outcome, ScopeHandle, SessionStatus, release_scope,
};
use sentry_conduit::request::{Header, RequestDescriptor, RequestInfo, Scheme, sentry_request_from_http};
use sentry_conduit::status::{SpanStatus, map_status};

fn msg_request() -> RequestInfo {
    RequestInfo {
        method: "GET".to_string(),
        scheme: Scheme::Http,
        host: "host".to_string(),
        path: "/msg".to_string(),
        query: None,
        remote_addr: "127.0.0.1:54321".to_string(),
        headers: vec![Header {
            name: "accept".to_string(),
            value: "text/plain".to_string(),
            sensitive: false,
        }],
    }
}

#[test]
fn status_mapper_specific_codes() {
    assert_eq!(map_status(401), SpanStatus::Unauthenticated);
    assert_eq!(map_status(403), SpanStatus::PermissionDenied);
    assert_eq!(map_status(404), SpanStatus::NotFound);
    assert_eq!(map_status(429), SpanStatus::ResourceExhausted);
    assert_eq!(map_status(409), SpanStatus::AlreadyExists);
    assert_eq!(map_status(501), SpanStatus::Unimplemented);
    assert_eq!(map_status(503), SpanStatus::Unavailable);
}

#[test]
fn status_mapper_classes() {
    assert_eq!(map_status(100), SpanStatus::Okay);
    assert_eq!(map_status(200), SpanStatus::Okay);
    assert_eq!(map_status(301), SpanStatus::Okay);
    assert_eq!(map_status(399), SpanStatus::Okay);
    assert_eq!(map_status(400), SpanStatus::InvalidArgument);
    assert_eq!(map_status(418), SpanStatus::InvalidArgument);
    assert_eq!(map_status(499), SpanStatus::InvalidArgument);
    assert_eq!(map_status(500), SpanStatus::InternalError);
    assert_eq!(map_status(502), SpanStatus::InternalError);
    assert_eq!(map_status(599), SpanStatus::InternalError);
    assert_eq!(map_status(0), SpanStatus::UnknownError);
    assert_eq!(map_status(99), SpanStatus::UnknownError);
    assert_eq!(map_status(600), SpanStatus::UnknownError);
    assert_eq!(map_status(999), SpanStatus::UnknownError);
}

#[test]
fn descriptor_url_assembly() {
    let req = msg_request();
    let d = sentry_request_from_http(&req, false);
    assert_eq!(d.url, Some("http://host/msg".to_string()));
    assert_eq!(d.method, Some("GET".to_string()));
}

#[test]
fn descriptor_url_with_query_and_https() {
    let mut req = msg_request();
    req.scheme = Scheme::Https;
    req.host = "example.com:8443".to_string();
    req.query = Some("a=1&b=2".to_string());
    let d = sentry_request_from_http(&req, false);
    assert_eq!(d.url, Some("https://example.com:8443/msg?a=1&b=2".to_string()));
}

#[test]
fn descriptor_url_soft_failure() {
    let mut req = msg_request();
    // A space makes the host invalid, so the reassembled URL does not parse;
    // the url field is simply absent and nothing fails.
    req.host = "bad host".to_string();
    let d = sentry_request_from_http(&req, false);
    assert_eq!(d.url, None);
    assert_eq!(d.method, Some("GET".to_string()));
}

#[test]
fn descriptor_header_redaction() {
    let mut req = msg_request();
    req.headers = vec![
        Header {
            name: "authorization".to_string(),
            value: "SECRET-REDACTED".to_string(),
            sensitive: true,
        },
        Header {
            name: "accept".to_string(),
            value: "text/plain".to_string(),
            sensitive: false,
        },
    ];
    let d = sentry_request_from_http(&req, true);
    assert_eq!(d.headers, vec![("accept".to_string(), "text/plain".to_string())]);
}

#[test]
fn descriptor_pii_gating() {
    let req = msg_request();
    let without = sentry_request_from_http(&req, false);
    assert_eq!(without.remote_addr, None);
    let with = sentry_request_from_http(&req, true);
    assert_eq!(with.remote_addr, Some("127.0.0.1:54321".to_string()));
}

#[test]
fn enricher_fills_empty_request_field() {
    let d = sentry_request_from_http(&msg_request(), false);
    let event = Event { request: None, sdk: None };
    let enriched = process_event(event, d.clone());
    assert_eq!(enriched.request, Some(d));
    assert!(enriched.sdk.is_none());
}

#[test]
fn enricher_keeps_existing_request_field() {
    let d = sentry_request_from_http(&msg_request(), false);
    let existing = RequestDescriptor {
        url: Some("http://deeper/layer".to_string()),
        method: Some("POST".to_string()),
        headers: vec![],
        remote_addr: None,
    };
    let event = Event { request: Some(existing.clone()), sdk: None };
    let enriched = process_event(event, d);
    assert_eq!(enriched.request, Some(existing));
}

#[test]
fn enricher_appends_sdk_marker() {
    let d = sentry_request_from_http(&msg_request(), false);
    let event = Event {
        request: None,
        sdk: Some(vec![SdkPackage {
            name: "sentry-rust".to_string(),
            version: "9.9.9".to_string(),
        }]),
    };
    let enriched = process_event(event, d);
    let pkgs = enriched.sdk.expect("sdk description should be kept");
    assert_eq!(pkgs.len(), 2);
    assert_eq!(pkgs[0].name, "sentry-rust");
    assert_eq!(pkgs[1].name, "sentry-conduit");
    assert_eq!(pkgs[1].version, "0.1.0");
}

#[test]
fn before_actions_default_config() {
    let m = SentryMiddleware { start_transactions: false, track_sessions: false, with_pii: false };
    let (_handle, _descriptor, actions) = m.before(&msg_request());
    assert_eq!(actions, vec![Action::PushScope, Action::RegisterEnricher]);
}

#[test]
fn before_actions_full_config() {
    let m = SentryMiddleware { start_transactions: true, track_sessions: true, with_pii: false };
    let (_handle, descriptor, actions) = m.before(&msg_request());
    assert_eq!(
        actions,
        vec![
            Action::PushScope,
            Action::StartSession,
            Action::StartTransaction { name: "/msg".to_string() },
            Action::RegisterEnricher,
        ]
    );
    assert_eq!(descriptor.url, Some("http://host/msg".to_string()));
}

#[test]
fn after_actions_success_with_pattern() {
    let m = SentryMiddleware { start_transactions: true, track_sessions: true, with_pii: false };
    let (outcome, actions) = m.after(
        Some(ScopeHandle {}),
        Outcome::Success { status: 200 },
        Some("/msg/:id".to_string()),
        ActiveSpan::Transaction { has_status: false },
    );
    assert_eq!(outcome, Outcome::Success { status: 200 });
    assert_eq!(
        actions,
        vec![
            Action::SetTransactionName { name: "/msg/:id".to_string() },
            Action::SetTransactionStatus { status: SpanStatus::Okay },
            Action::FinishTransaction,
            Action::EndSession { status: SessionStatus::Exited },
            Action::PopScope,
        ]
    );
}

#[test]
fn after_actions_failure_reports_error() {
    let m = SentryMiddleware { start_transactions: false, track_sessions: true, with_pii: false };
    let (outcome, actions) = m.after(
        Some(ScopeHandle {}),
        Outcome::Failure,
        None,
        ActiveSpan::NoSpan,
    );
    assert_eq!(outcome, Outcome::Failure);
    assert_eq!(
        actions,
        vec![
            Action::ReportError,
            Action::EndSession { status: SessionStatus::Abnormal },
            Action::PopScope,
        ]
    );
}

#[test]
fn after_success_reports_no_error() {
    let m = SentryMiddleware { start_transactions: false, track_sessions: false, with_pii: false };
    let (_outcome, actions) = m.after(
        Some(ScopeHandle {}),
        Outcome::Success { status: 404 },
        None,
        ActiveSpan::NoSpan,
    );
    assert_eq!(actions, vec![Action::PopScope]);
}

#[test]
fn after_without_handle_is_noop() {
    let m = SentryMiddleware { start_transactions: true, track_sessions: true, with_pii: true };
    let (outcome, actions) = m.after(
        None,
        Outcome::Success { status: 200 },
        Some("/msg".to_string()),
        ActiveSpan::Transaction { has_status: false },
    );
    assert_eq!(outcome, Outcome::Success { status: 200 });
    assert!(actions.is_empty());
}

#[test]
fn after_keeps_status_set_by_deeper_layer() {
    let m = SentryMiddleware { start_transactions: true, track_sessions: false, with_pii: false };
    let (_outcome, actions) = m.after(
        Some(ScopeHandle {}),
        Outcome::Success { status: 500 },
        None,
        ActiveSpan::Transaction { has_status: true },
    );
    assert_eq!(actions, vec![Action::FinishTransaction, Action::PopScope]);
}

#[test]
fn after_failure_finishes_transaction_with_unknown_error() {
    let m = SentryMiddleware { start_transactions: true, track_sessions: false, with_pii: false };
    let (_outcome, actions) = m.after(
        Some(ScopeHandle {}),
        Outcome::Failure,
        None,
        ActiveSpan::Transaction { has_status: false },
    );
    assert_eq!(
        actions,
        vec![
            Action::SetTransactionStatus { status: SpanStatus::UnknownError },
            Action::FinishTransaction,
            Action::ReportError,
            Action::PopScope,
        ]
    );
}

#[test]
fn release_scope_pops_exactly_once() {
    let actions = release_scope(ScopeHandle {});
    assert_eq!(actions, vec![Action::PopScope]);
}

#[test]
fn scope_balance_over_one_request() {
    let m = SentryMiddleware { start_transactions: true, track_sessions: true, with_pii: true };
    let (handle, _descriptor, before) = m.before(&msg_request());
    let (_outcome, after) = m.after(
        Some(handle),
        Outcome::Success { status: 200 },
        None,
        ActiveSpan::Transaction { has_status: false },
    );
    let all: Vec<&Action> = before.iter().chain(after.iter()).collect();
    let pushes = all.iter().filter(|a| ***a == Action::PushScope).count();
    let pops = all.iter().filter(|a| ***a == Action::PopScope).count();
    assert_eq!(pushes, 1);
    assert_eq!(pops, 1);
    assert_eq!(*all[0], Action::PushScope);
    assert_eq!(*all[all.len() - 1], Action::PopScope);
}

#[test]
fn scope_balance_on_abnormal_termination() {
    let m = SentryMiddleware { start_transactions: false, track_sessions: true, with_pii: false };
    let (handle, _descriptor, before) = m.before(&msg_request());
    // Dispatch unwinds: the parked handle is dropped, not handed to `after`.
    let after = release_scope(handle);
    let pushes = before.iter().filter(|a| **a == Action::PushScope).count()
        + after.iter().filter(|a| **a == Action::PushScope).count();
    let pops = before.iter().filter(|a| **a == Action::PopScope).count()
        + after.iter().filter(|a| **a == Action::PopScope).count();
    assert_eq!(pushes, 1);
    assert_eq!(pops, 1);
}

#[test]
fn end_to_end_scenario() {
    // GET /msg, no sensitive headers, PII disabled, transaction and session
    // tracking enabled.
    let m = SentryMiddleware { start_transactions: true, track_sessions: true, with_pii: false };
    let req = msg_request();

    let (handle, descriptor, before) = m.before(&req);
    assert_eq!(
        before,
        vec![
            Action::PushScope,
            Action::StartSession,
            Action::StartTransaction { name: "/msg".to_string() },
            Action::RegisterEnricher,
        ]
    );
    assert_eq!(descriptor.url, Some("http://host/msg".to_string()));
    assert_eq!(descriptor.remote_addr, None);

    // An event reported during dispatch goes through the enricher and gets
    // its request field populated.
    let event = Event { request: None, sdk: None };
    let enriched = process_event(event, descriptor.clone());
    let attached = enriched.request.expect("request field should be populated");
    assert_eq!(attached.url, Some("http://host/msg".to_string()));

    // Post-dispatch the route pattern is known; the transaction is renamed
    // to it before being finalized, the session ends as exited, and the
    // outcome passes through unchanged.
    let (outcome, after) = m.after(
        Some(handle),
        Outcome::Success { status: 200 },
        Some("/msg".to_string()),
        ActiveSpan::Transaction { has_status: false },
    );
    assert_eq!(outcome, Outcome::Success { status: 200 });
    assert_eq!(
        after,
        vec![
            Action::SetTransactionName { name: "/msg".to_string() },
            Action::SetTransactionStatus { status: SpanStatus::Okay },
            Action::FinishTransaction,
            Action::EndSession { status: SessionStatus::Exited },
            Action::PopScope,
        ]
    );
    let starts = before.iter().filter(|a| **a == Action::StartSession).count();
    let ends = after
        .iter()
        .filter(|a| matches!(a, Action::EndSession { status: SessionStatus::Exited }))
        .count();
    assert_eq!(starts, 1);
    assert_eq!(ends, 1);
}

#[test]
fn constructors_without_a_bound_client() {
    // With no telemetry client bound, the configuration flags read false.
    let m = SentryMiddleware::new();
    assert!(!m.start_transactions);
    assert!(!m.track_sessions);
    assert!(!m.with_pii);

    let t = SentryMiddleware::with_transactions();
    assert!(t.start_transactions);
    assert!(!t.track_sessions);
    assert!(!t.with_pii);
}
