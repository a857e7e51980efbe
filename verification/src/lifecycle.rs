//! Scope lifecycle manager and hook adapter.
//!
//! Scope entry (the before hook) and scope exit (the after hook) are pure
//! decisions here: each returns the ordered list of telemetry [`Action`]s to
//! perform. The host-framework adapter executes the list against the
//! telemetry client, parks the returned [`ScopeHandle`] in its per-request
//! side table between the hooks, and — should dispatch terminate abnormally —
//! drops the handle through [`release_scope`] so the scope pop still happens.

use vstd::prelude::*;
use crate::SentryMiddleware;
use crate::request::{
    RequestDescriptor, RequestInfo, RequestInfoV, sentry_request_from_http, spec_descriptor,
};
use crate::status::{SpanStatus, map_status, spec_map_status};

verus! {

/// Terminal state of a session: how the request's unit of work ended.
#[derive(Clone, Copy, Debug, PartialEq, Eq, Structural)]
pub enum SessionStatus {
    Exited,
    Abnormal,
}

/// The outcome of invoking the wrapped handler: success carries the
/// response's status code; failure carries an error value, opaque to this
/// logic and left with the adapter.
#[derive(Clone, Copy, Debug, PartialEq, Eq, Structural)]
pub enum Outcome {
    Success { status: u16 },
    Failure,
}

/// What the recording scope reports as its active span when queried
/// post-dispatch.
#[derive(Clone, Copy, Debug, PartialEq, Eq, Structural)]
pub enum ActiveSpan {
    /// The scope holds no span.
    NoSpan,
    /// The scope holds a plain (non-transaction) span; left untouched.
    ChildSpan,
    /// The scope holds a transaction; `has_status` tells whether a deeper
    /// layer already set its status.
    Transaction { has_status: bool },
}

/// One instruction to the telemetry client. Scope entry and exit return
/// ordered lists of these; the adapter performs them in order.
#[derive(Clone, Debug, PartialEq)]
pub enum Action {
    /// Push a fresh recording scope onto the active-scope stack.
    PushScope,
    /// Start a session for this request.
    StartSession,
    /// Start a trace transaction named `name` (continuing any trace context
    /// found in the request headers), attach the request descriptor, and
    /// install it as the scope's active span.
    StartTransaction { name: String },
    /// Register the lazy event enricher built from the request descriptor.
    RegisterEnricher,
    /// Rename the active transaction: the route pattern became known.
    SetTransactionName { name: String },
    /// Set the active transaction's status; it had none yet.
    SetTransactionStatus { status: SpanStatus },
    /// Finalize (emit) the active transaction.
    FinishTransaction,
    /// Report the failure outcome's error to the telemetry client.
    ReportError,
    /// End this request's session with the given status.
    EndSession { status: SessionStatus },
    /// Release the recording scope, restoring the previous one.
    PopScope,
}

/// Mathematical view of an action.
pub enum ActionV {
    PushScope,
    StartSession,
    StartTransaction { name: Seq<char> },
    RegisterEnricher,
    SetTransactionName { name: Seq<char> },
    SetTransactionStatus { status: SpanStatus },
    FinishTransaction,
    ReportError,
    EndSession { status: SessionStatus },
    PopScope,
}

impl View for Action {
    type V = ActionV;

    open spec fn view(&self) -> ActionV {
        match self {
            Action::PushScope => ActionV::PushScope,
            Action::StartSession => ActionV::StartSession,
            Action::StartTransaction { name } => ActionV::StartTransaction { name: name@ },
            Action::RegisterEnricher => ActionV::RegisterEnricher,
            Action::SetTransactionName { name } => ActionV::SetTransactionName { name: name@ },
            Action::SetTransactionStatus { status } => ActionV::SetTransactionStatus {
                status: *status,
            },
            Action::FinishTransaction => ActionV::FinishTransaction,
            Action::ReportError => ActionV::ReportError,
            Action::EndSession { status } => ActionV::EndSession { status: *status },
            Action::PopScope => ActionV::PopScope,
        }
    }
}

pub open spec fn spec_actions_view(s: Seq<Action>) -> Seq<ActionV> {
    s.map_values(|a: Action| a@)
}

pub open spec fn spec_opt_chars(o: Option<String>) -> Option<Seq<char>> {
    match o {
        Some(s) => Some(s@),
        None => None,
    }
}

/// Handle for one entered scope. The adapter parks it in the host's
/// per-request side table between the hooks; owning it stands for owning the
/// pushed recording scope, and it is consumed exactly once — by `after` on a
/// normal exit, or by [`release_scope`] on an abnormal one.
pub struct ScopeHandle {}

/// The span status derived from an outcome: the status mapper on a success's
/// code; `UnknownError` for a failure, which carries no code.
pub open spec fn spec_outcome_span_status(o: Outcome) -> SpanStatus {
    match o {
        Outcome::Success { status } => spec_map_status(status),
        Outcome::Failure => SpanStatus::UnknownError,
    }
}

/// The session end status derived from an outcome.
pub open spec fn spec_outcome_session_status(o: Outcome) -> SessionStatus {
    match o {
        Outcome::Success { .. } => SessionStatus::Exited,
        Outcome::Failure => SessionStatus::Abnormal,
    }
}

/// The actions scope entry performs, in order: push the scope; start a
/// session when session tracking is on; start a transaction named by the
/// pre-routing path when transaction tracking is on; register the enricher.
pub open spec fn spec_before_actions(m: SentryMiddleware, r: RequestInfoV) -> Seq<ActionV> {
    seq![ActionV::PushScope] + (if m.track_sessions {
        seq![ActionV::StartSession]
    } else {
        Seq::<ActionV>::empty()
    }) + (if m.start_transactions {
        seq![ActionV::StartTransaction { name: r.path }]
    } else {
        Seq::<ActionV>::empty()
    }) + seq![ActionV::RegisterEnricher]
}

/// The actions scope exit performs, in order: rename the active transaction
/// when a route pattern became known; when the scope holds a transaction,
/// give it a status derived from the outcome unless one is already set, and
/// finalize it; report the error on a failure outcome; end the session when
/// session tracking is on; pop the scope.
pub open spec fn spec_after_actions(
    m: SentryMiddleware,
    o: Outcome,
    route_pattern: Option<Seq<char>>,
    span: ActiveSpan,
) -> Seq<ActionV> {
    (match route_pattern {
        Some(p) => seq![ActionV::SetTransactionName { name: p }],
        None => Seq::<ActionV>::empty(),
    }) + (match span {
        ActiveSpan::Transaction { has_status } => (if !has_status {
            seq![ActionV::SetTransactionStatus { status: spec_outcome_span_status(o) }]
        } else {
            Seq::<ActionV>::empty()
        }) + seq![ActionV::FinishTransaction],
        _ => Seq::<ActionV>::empty(),
    }) + (if o is Failure {
        seq![ActionV::ReportError]
    } else {
        Seq::<ActionV>::empty()
    }) + (if m.track_sessions {
        seq![ActionV::EndSession { status: spec_outcome_session_status(o) }]
    } else {
        Seq::<ActionV>::empty()
    }) + seq![ActionV::PopScope]
}

/// What dropping a parked handle performs: the scope pop alone.
pub open spec fn spec_release_actions() -> Seq<ActionV> {
    seq![ActionV::PopScope]
}

impl SentryMiddleware {
    /// Scope entry, run pre-dispatch: returns the handle to park, the
    /// redacted request descriptor for the enricher and the transaction, and
    /// the exact ordered actions to perform against the telemetry client.
    pub fn before(&self, req: &RequestInfo) -> (r: (ScopeHandle, RequestDescriptor, Vec<Action>))
        ensures
            r.1@ == spec_descriptor(req@, self.with_pii),
            spec_actions_view(r.2@) == spec_before_actions(*self, req@),
    {
        let mut actions: Vec<Action> = Vec::new();
        actions.push(Action::PushScope);

        if self.track_sessions {
            actions.push(Action::StartSession);
        }

        let descriptor = sentry_request_from_http(req, self.with_pii);

        if self.start_transactions {
            // The pre-routing request path is the default transaction name.
            let name = req.path.clone();
            actions.push(Action::StartTransaction { name });
        }

        actions.push(Action::RegisterEnricher);

        proof {
            assert(spec_actions_view(actions@) =~= spec_before_actions(*self, req@));
        }
        (ScopeHandle {  }, descriptor, actions)
    }

    /// Scope exit, run post-dispatch with the outcome, the route pattern when
    /// the host resolved one, and the scope's active span as queried from the
    /// telemetry client. A missing handle (entry never ran for this request)
    /// makes it a no-op. The outcome is passed through unchanged.
    pub fn after(
        &self,
        handle: Option<ScopeHandle>,
        result: Outcome,
        route_pattern: Option<String>,
        span: ActiveSpan,
    ) -> (r: (Outcome, Vec<Action>))
        ensures
            r.0 == result,
            handle is Some ==> spec_actions_view(r.1@) == spec_after_actions(
                *self,
                result,
                spec_opt_chars(route_pattern),
                span,
            ),
            handle is None ==> r.1@.len() == 0,
    {
        let mut actions: Vec<Action> = Vec::new();
        match handle {
            Some(_consumed) => {
                match route_pattern {
                    Some(pattern) => {
                        actions.push(Action::SetTransactionName { name: pattern });
                    },
                    None => {},
                }

                match span {
                    ActiveSpan::Transaction { has_status } => {
                        if !has_status {
                            let status = match result {
                                Outcome::Success { status } => map_status(status),
                                Outcome::Failure => SpanStatus::UnknownError,
                            };
                            actions.push(Action::SetTransactionStatus { status });
                        }
                        actions.push(Action::FinishTransaction);
                    },
                    _ => {},
                }

                match result {
                    Outcome::Failure => {
                        actions.push(Action::ReportError);
                    },
                    _ => {},
                }

                if self.track_sessions {
                    let status = match result {
                        Outcome::Success { .. } => SessionStatus::Exited,
                        Outcome::Failure => SessionStatus::Abnormal,
                    };
                    actions.push(Action::EndSession { status });
                }

                actions.push(Action::PopScope);

                proof {
                    assert(spec_actions_view(actions@) =~= spec_after_actions(
                        *self,
                        result,
                        spec_opt_chars(route_pattern),
                        span,
                    ));
                }
            },
            None => {},
        }
        (result, actions)
    }
}

/// Consume a parked handle without running scope exit: the abnormal path,
/// taken when dispatch unwinds instead of returning an outcome. The scope
/// pop still happens — and nothing else does.
pub fn release_scope(_handle: ScopeHandle) -> (r: Vec<Action>)
    ensures
        spec_actions_view(r@) == spec_release_actions(),
{
    let mut actions: Vec<Action> = Vec::new();
    actions.push(Action::PopScope);
    proof {
        assert(spec_actions_view(actions@) =~= spec_release_actions());
    }
    actions
}

} // verus!
