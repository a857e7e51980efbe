//! A model of the telemetry client's request-scoped state, and the laws the
//! lifecycle guarantees over it.
//!
//! The client is modeled as an explicit state value; running an action list
//! against it says what the middleware's decisions do to the real client.

use vstd::prelude::*;
use crate::SentryMiddleware;
use crate::lifecycle::{
    ActionV, ActiveSpan, Outcome, SessionStatus, spec_after_actions, spec_before_actions,
    spec_outcome_session_status, spec_outcome_span_status, spec_release_actions,
};
use crate::request::RequestInfoV;
use crate::status::SpanStatus;

verus! {

/// The active transaction, as the client sees it.
#[verifier::ext_equal]
pub struct TransactionV {
    pub name: Seq<char>,
    pub status: Option<SpanStatus>,
    pub finished: bool,
}

/// The telemetry client's state, reduced to what the lifecycle touches.
#[verifier::ext_equal]
pub struct ClientV {
    /// Depth of the active-scope stack.
    pub scope_depth: int,
    pub sessions_started: int,
    pub sessions_ended: int,
    /// The status the most recently ended session ended with.
    pub last_session_end: Option<SessionStatus>,
    /// The scope's active transaction, when one is installed.
    pub txn: Option<TransactionV>,
    pub errors_reported: int,
    pub enrichers_registered: int,
}

/// One action's effect on the client's state.
pub open spec fn spec_step(c: ClientV, a: ActionV) -> ClientV {
    match a {
        ActionV::PushScope => ClientV { scope_depth: c.scope_depth + 1, ..c },
        ActionV::PopScope => ClientV { scope_depth: c.scope_depth - 1, ..c },
        ActionV::StartSession => ClientV { sessions_started: c.sessions_started + 1, ..c },
        ActionV::EndSession { status } => ClientV {
            sessions_ended: c.sessions_ended + 1,
            last_session_end: Some(status),
            ..c
        },
        ActionV::StartTransaction { name } => ClientV {
            txn: Some(TransactionV { name, status: None, finished: false }),
            ..c
        },
        ActionV::SetTransactionName { name } => match c.txn {
            Some(t) => ClientV { txn: Some(TransactionV { name, ..t }), ..c },
            None => c,
        },
        ActionV::SetTransactionStatus { status } => match c.txn {
            Some(t) => ClientV { txn: Some(TransactionV { status: Some(status), ..t }), ..c },
            None => c,
        },
        ActionV::FinishTransaction => match c.txn {
            Some(t) => ClientV { txn: Some(TransactionV { finished: true, ..t }), ..c },
            None => c,
        },
        ActionV::ReportError => ClientV { errors_reported: c.errors_reported + 1, ..c },
        ActionV::RegisterEnricher => ClientV {
            enrichers_registered: c.enrichers_registered + 1,
            ..c
        },
    }
}

/// Run an action list against the client's state, in order.
pub open spec fn spec_run(c: ClientV, s: Seq<ActionV>) -> ClientV
    decreases s.len(),
{
    if s.len() == 0 {
        c
    } else {
        spec_step(spec_run(c, s.drop_last()), s.last())
    }
}

pub proof fn lemma_run_concat(c: ClientV, s: Seq<ActionV>, t: Seq<ActionV>)
    ensures
        spec_run(c, s + t) == spec_run(spec_run(c, s), t),
    decreases t.len(),
{
    if t.len() == 0 {
        assert(s + t =~= s);
    } else {
        assert((s + t).drop_last() =~= s + t.drop_last());
        assert((s + t).last() == t.last());
        lemma_run_concat(c, s, t.drop_last());
    }
}

proof fn lemma_run_one(c: ClientV, a: ActionV)
    ensures
        spec_run(c, seq![a]) == spec_step(c, a),
{
    reveal_with_fuel(spec_run, 2);
    assert(seq![a].drop_last() =~= Seq::<ActionV>::empty());
}

/// Scope balance: every dispatched request pushes exactly one scope at entry
/// and pops exactly one at exit — whether exit is the after hook or the
/// abnormal-termination release — leaving the stack depth as it found it.
pub proof fn lemma_scope_balance(
    m: SentryMiddleware,
    r: RequestInfoV,
    c: ClientV,
    o: Outcome,
    route_pattern: Option<Seq<char>>,
    span: ActiveSpan,
)
    ensures
        spec_run(c, spec_before_actions(m, r)).scope_depth == c.scope_depth + 1,
        spec_run(
            c,
            spec_before_actions(m, r) + spec_after_actions(m, o, route_pattern, span),
        ).scope_depth == c.scope_depth,
        spec_run(c, spec_before_actions(m, r) + spec_release_actions()).scope_depth
            == c.scope_depth,
        spec_before_actions(m, r).first() == ActionV::PushScope,
        spec_after_actions(m, o, route_pattern, span).last() == ActionV::PopScope,
        spec_release_actions().last() == ActionV::PopScope,
{
    lemma_run_before(m, r, c);
    let cb = spec_run(c, spec_before_actions(m, r));
    lemma_run_concat(c, spec_before_actions(m, r), spec_after_actions(m, o, route_pattern, span));
    lemma_run_concat(c, spec_before_actions(m, r), spec_release_actions());
    lemma_run_after_summary(m, o, route_pattern, span, cb);
    lemma_run_one(cb, ActionV::PopScope);
    assert(spec_release_actions() =~= seq![ActionV::PopScope]);
}

/// Scope entry's combined effect on the client's state.
pub proof fn lemma_run_before(m: SentryMiddleware, r: RequestInfoV, c: ClientV)
    ensures
        spec_run(c, spec_before_actions(m, r)) == (ClientV {
            scope_depth: c.scope_depth + 1,
            sessions_started: c.sessions_started + if m.track_sessions { 1int } else { 0 },
            txn: if m.start_transactions {
                Some(TransactionV { name: r.path, status: None, finished: false })
            } else {
                c.txn
            },
            enrichers_registered: c.enrichers_registered + 1,
            ..c
        }),
{
    let s1 = seq![ActionV::PushScope];
    let s2 = if m.track_sessions {
        seq![ActionV::StartSession]
    } else {
        Seq::<ActionV>::empty()
    };
    let s3 = if m.start_transactions {
        seq![ActionV::StartTransaction { name: r.path }]
    } else {
        Seq::<ActionV>::empty()
    };
    let s4 = seq![ActionV::RegisterEnricher];
    assert(spec_before_actions(m, r) == s1 + s2 + s3 + s4);
    lemma_run_concat(c, s1 + s2 + s3, s4);
    lemma_run_concat(c, s1 + s2, s3);
    lemma_run_concat(c, s1, s2);
    lemma_run_one(c, ActionV::PushScope);
    let c1 = spec_run(c, s1);
    if m.track_sessions {
        lemma_run_one(c1, ActionV::StartSession);
    }
    let c2 = spec_run(c1, s2);
    if m.start_transactions {
        lemma_run_one(c2, ActionV::StartTransaction { name: r.path });
    }
    let c3 = spec_run(c2, s3);
    lemma_run_one(c3, ActionV::RegisterEnricher);
    assert(spec_run(c, spec_before_actions(m, r)) =~= ClientV {
        scope_depth: c.scope_depth + 1,
        sessions_started: c.sessions_started + if m.track_sessions { 1int } else { 0 },
        txn: if m.start_transactions {
            Some(TransactionV { name: r.path, status: None, finished: false })
        } else {
            c.txn
        },
        enrichers_registered: c.enrichers_registered + 1,
        ..c
    });
}

proof fn lemma_run_after_summary(
    m: SentryMiddleware,
    o: Outcome,
    route_pattern: Option<Seq<char>>,
    span: ActiveSpan,
    c: ClientV,
)
    ensures
        spec_run(c, spec_after_actions(m, o, route_pattern, span)).scope_depth == c.scope_depth
            - 1,
        spec_run(c, spec_after_actions(m, o, route_pattern, span)).sessions_started
            == c.sessions_started,
        spec_run(c, spec_after_actions(m, o, route_pattern, span)).sessions_ended
            == c.sessions_ended + if m.track_sessions { 1int } else { 0 },
        spec_run(c, spec_after_actions(m, o, route_pattern, span)).errors_reported
            == c.errors_reported + if o is Failure { 1int } else { 0 },
        m.track_sessions ==> spec_run(c, spec_after_actions(m, o, route_pattern, span))
            .last_session_end == Some(spec_outcome_session_status(o)),
        !m.track_sessions ==> spec_run(c, spec_after_actions(m, o, route_pattern, span))
            .last_session_end == c.last_session_end,
{
    lemma_run_after(m, o, route_pattern, span, c);
}

/// Scope exit, decomposed into its five stages.
proof fn lemma_run_after(
    m: SentryMiddleware,
    o: Outcome,
    route_pattern: Option<Seq<char>>,
    span: ActiveSpan,
    c: ClientV,
)
    ensures
        spec_run(c, spec_after_actions(m, o, route_pattern, span)) == spec_step(
            spec_run_sessions(
                m,
                o,
                spec_run_report(o, spec_run_span(o, span, spec_run_rename(route_pattern, c))),
            ),
            ActionV::PopScope,
        ),
{
    let s1 = match route_pattern {
        Some(p) => seq![ActionV::SetTransactionName { name: p }],
        None => Seq::<ActionV>::empty(),
    };
    let s2 = match span {
        ActiveSpan::Transaction { has_status } => (if !has_status {
            seq![ActionV::SetTransactionStatus { status: spec_outcome_span_status(o) }]
        } else {
            Seq::<ActionV>::empty()
        }) + seq![ActionV::FinishTransaction],
        _ => Seq::<ActionV>::empty(),
    };
    let s3 = if o is Failure {
        seq![ActionV::ReportError]
    } else {
        Seq::<ActionV>::empty()
    };
    let s4 = if m.track_sessions {
        seq![ActionV::EndSession { status: spec_outcome_session_status(o) }]
    } else {
        Seq::<ActionV>::empty()
    };
    let s5 = seq![ActionV::PopScope];
    assert(spec_after_actions(m, o, route_pattern, span) == s1 + s2 + s3 + s4 + s5);
    lemma_run_concat(c, s1 + s2 + s3 + s4, s5);
    lemma_run_concat(c, s1 + s2 + s3, s4);
    lemma_run_concat(c, s1 + s2, s3);
    lemma_run_concat(c, s1, s2);
    match route_pattern {
        Some(p) => lemma_run_one(c, ActionV::SetTransactionName { name: p }),
        None => {},
    }
    let c1 = spec_run(c, s1);
    assert(c1 == spec_run_rename(route_pattern, c));
    match span {
        ActiveSpan::Transaction { has_status } => {
            if !has_status {
                let set = seq![ActionV::SetTransactionStatus {
                    status: spec_outcome_span_status(o),
                }];
                lemma_run_concat(c1, set, seq![ActionV::FinishTransaction]);
                assert(s2 =~= set + seq![ActionV::FinishTransaction]);
                lemma_run_one(
                    c1,
                    ActionV::SetTransactionStatus { status: spec_outcome_span_status(o) },
                );
                lemma_run_one(spec_run(c1, set), ActionV::FinishTransaction);
            } else {
                assert(s2 =~= Seq::<ActionV>::empty() + seq![ActionV::FinishTransaction]);
                lemma_run_concat(c1, Seq::<ActionV>::empty(), seq![ActionV::FinishTransaction]);
                lemma_run_one(spec_run(c1, Seq::<ActionV>::empty()), ActionV::FinishTransaction);
            }
        },
        _ => {},
    }
    let c2 = spec_run(c1, s2);
    assert(c2 == spec_run_span(o, span, c1));
    if o is Failure {
        lemma_run_one(c2, ActionV::ReportError);
    }
    let c3 = spec_run(c2, s3);
    assert(c3 == spec_run_report(o, c2));
    if m.track_sessions {
        lemma_run_one(c3, ActionV::EndSession { status: spec_outcome_session_status(o) });
    }
    let c4 = spec_run(c3, s4);
    assert(c4 == spec_run_sessions(m, o, c3));
    lemma_run_one(c4, ActionV::PopScope);
}

/// Scope exit's first stage: the rename when a route pattern became known.
spec fn spec_run_rename(route_pattern: Option<Seq<char>>, c: ClientV) -> ClientV {
    match route_pattern {
        Some(p) => spec_step(c, ActionV::SetTransactionName { name: p }),
        None => c,
    }
}

/// Scope exit's second stage: status and finish of an active transaction.
spec fn spec_run_span(o: Outcome, span: ActiveSpan, c: ClientV) -> ClientV {
    match span {
        ActiveSpan::Transaction { has_status } => {
            let c1 = if !has_status {
                spec_step(c, ActionV::SetTransactionStatus { status: spec_outcome_span_status(o) })
            } else {
                c
            };
            spec_step(c1, ActionV::FinishTransaction)
        },
        _ => c,
    }
}

/// Scope exit's third stage: error reporting on a failure outcome.
spec fn spec_run_report(o: Outcome, c: ClientV) -> ClientV {
    if o is Failure {
        spec_step(c, ActionV::ReportError)
    } else {
        c
    }
}

/// Scope exit's fourth stage: the session end when session tracking is on.
spec fn spec_run_sessions(m: SentryMiddleware, o: Outcome, c: ClientV) -> ClientV {
    if m.track_sessions {
        spec_step(c, ActionV::EndSession { status: spec_outcome_session_status(o) })
    } else {
        c
    }
}

/// Error reporting: across one request's entry and exit, the error report
/// happens exactly once when the outcome is a failure, and never otherwise.
pub proof fn lemma_error_reporting(
    m: SentryMiddleware,
    r: RequestInfoV,
    c: ClientV,
    o: Outcome,
    route_pattern: Option<Seq<char>>,
    span: ActiveSpan,
)
    ensures
        spec_run(
            c,
            spec_before_actions(m, r) + spec_after_actions(m, o, route_pattern, span),
        ).errors_reported == c.errors_reported + if o is Failure { 1int } else { 0 },
{
    lemma_run_before(m, r, c);
    let cb = spec_run(c, spec_before_actions(m, r));
    lemma_run_concat(c, spec_before_actions(m, r), spec_after_actions(m, o, route_pattern, span));
    lemma_run_after_summary(m, o, route_pattern, span, cb);
}

/// Session balance: when session tracking is enabled, each dispatched
/// request starts exactly one session at entry and ends exactly one at exit,
/// the end status being `Exited` on success and `Abnormal` on failure; with
/// tracking disabled, no session is touched.
pub proof fn lemma_session_balance(
    m: SentryMiddleware,
    r: RequestInfoV,
    c: ClientV,
    o: Outcome,
    route_pattern: Option<Seq<char>>,
    span: ActiveSpan,
)
    ensures
        ({
            let f = spec_run(
                c,
                spec_before_actions(m, r) + spec_after_actions(m, o, route_pattern, span),
            );
            &&& f.sessions_started == c.sessions_started + if m.track_sessions { 1int } else { 0 }
            &&& f.sessions_ended == c.sessions_ended + if m.track_sessions { 1int } else { 0 }
            &&& m.track_sessions ==> f.last_session_end == Some(spec_outcome_session_status(o))
            &&& !m.track_sessions ==> f.last_session_end == c.last_session_end
        }),
{
    lemma_run_before(m, r, c);
    let cb = spec_run(c, spec_before_actions(m, r));
    lemma_run_concat(c, spec_before_actions(m, r), spec_after_actions(m, o, route_pattern, span));
    lemma_run_after_summary(m, o, route_pattern, span, cb);
}

/// Transaction naming: when transaction tracking is on, the scope still
/// holds the transaction at exit, and a route pattern became known
/// post-dispatch, the finalized transaction carries the route pattern as its
/// name — not the raw request path — and, no status having been set
/// mid-flight, the status derived from the outcome.
pub proof fn lemma_transaction_naming(
    m: SentryMiddleware,
    r: RequestInfoV,
    c: ClientV,
    o: Outcome,
    pattern: Seq<char>,
)
    requires
        m.start_transactions,
    ensures
        spec_run(
            c,
            spec_before_actions(m, r) + spec_after_actions(
                m,
                o,
                Some(pattern),
                ActiveSpan::Transaction { has_status: false },
            ),
        ).txn == Some(
            TransactionV {
                name: pattern,
                status: Some(spec_outcome_span_status(o)),
                finished: true,
            },
        ),
{
    lemma_run_before(m, r, c);
    let cb = spec_run(c, spec_before_actions(m, r));
    let span = ActiveSpan::Transaction { has_status: false };
    lemma_run_concat(c, spec_before_actions(m, r), spec_after_actions(m, o, Some(pattern), span));
    lemma_run_after(m, o, Some(pattern), span, cb);
}

} // verus!
