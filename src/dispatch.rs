use vstd::prelude::*;
use crate::action::Action;
use crate::cardinality::{
    ResultItem, fetch_all, fetch_many, fetch_one, fetch_optional, spec_fetch_one,
    spec_fetch_optional, spec_groups,
};
use crate::error::{DriverFailure, QueryError, map_failure, spec_map_failure};
use crate::metrics::{KeyView, LogRecord, MetricKey, Registry, RegistryView, log_of};
use crate::query::QueryInvocation;

verus! {

/// The instrumented scope of one invocation: opened when the query starts and
/// consumed when it completes, so that it is completed at most once.
#[derive(Debug)]
pub struct Scope {
    key: MetricKey,
}

impl Scope {
    /// The metric series the invocation is recorded in.
    pub closed spec fn key_view(&self) -> KeyView {
        self.key@
    }

    pub fn action(&self) -> (r: Action)
        ensures
            r == self.key_view().0,
    {
        self.key.action
    }
}

/// Starts an invocation on a connection the caller already holds.
///
/// An instrumented action increments its counter and opens a scope. A stream
/// is handed back without a scope and is not recorded at all: it is driven by
/// the caller, possibly never, so no finish can be timed for it.
pub fn open_scope(reg: &mut Registry, inv: &QueryInvocation) -> (r: Option<Scope>)
    requires
        old(reg).wf(),
    ensures
        final(reg).wf(),
        inv.action.spec_instrumented() ==> (r matches Some(s) && s.key_view() == inv.key_view()),
        inv.action.spec_instrumented() ==> final(reg)@ == old(reg)@.started(inv.key_view()),
        !inv.action.spec_instrumented() ==> r is None && final(reg)@ == old(reg)@,
{
    if inv.action.is_instrumented() {
        let key = inv.metric_key();
        reg.record_start(&key);
        Some(Scope { key })
    } else {
        None
    }
}

/// Starts an invocation once the context's connection has been resolved, or
/// has failed to resolve.
///
/// A failed resolution is returned as is, before the instrumented scope begins:
/// nothing is counted, timed or logged for it.
pub fn open_scope_after_resolution<E>(
    reg: &mut Registry,
    inv: &QueryInvocation,
    resolved: Result<(), E>,
) -> (r: Result<Option<Scope>, QueryError<E>>)
    requires
        old(reg).wf(),
    ensures
        final(reg).wf(),
        resolved matches Err(e) ==> r == Err::<Option<Scope>, QueryError<E>>(
            QueryError::ConnectionResolution(e),
        ) && final(reg)@ == old(reg)@,
        resolved is Ok && inv.action.spec_instrumented() ==> (r matches Ok(Some(s))
            && s.key_view() == inv.key_view()),
        resolved is Ok && inv.action.spec_instrumented() ==> final(reg)@ == old(reg)@.started(
            inv.key_view(),
        ),
        resolved is Ok && !inv.action.spec_instrumented() ==> (r matches Ok(None)),
        resolved is Ok && !inv.action.spec_instrumented() ==> final(reg)@ == old(reg)@,
{
    match resolved {
        Err(e) => Err(QueryError::ConnectionResolution(e)),
        Ok(()) => Ok(open_scope(reg, inv)),
    }
}

/// Completes an execute invocation: records its finish, then yields the number
/// of affected rows or the mapped driver failure.
pub fn complete_execute<E>(
    reg: &mut Registry,
    scope: Scope,
    outcome: Result<u64, DriverFailure<E>>,
    elapsed_nanos: u64,
) -> (r: (Result<u64, QueryError<E>>, LogRecord))
    requires
        old(reg).wf(),
        scope.key_view().0 == Action::Execute,
    ensures
        final(reg).wf(),
        final(reg)@ == old(reg)@.finished(scope.key_view(), elapsed_nanos),
        r.1@ == log_of(scope.key_view(), elapsed_nanos),
        r.0 == match outcome {
            Ok(n) => Ok(n),
            Err(f) => Err(spec_map_failure(f)),
        },
{
    let log = reg.record_finish(&scope.key, elapsed_nanos);
    let r = match outcome {
        Ok(n) => Ok(n),
        Err(f) => Err(map_failure(f)),
    };
    (r, log)
}

/// Completes a fetch-one invocation: records its finish, then yields the single
/// row, a cardinality error, or the mapped driver failure.
pub fn complete_fetch_one<R, E>(
    reg: &mut Registry,
    scope: Scope,
    outcome: Result<Vec<R>, DriverFailure<E>>,
    elapsed_nanos: u64,
) -> (r: (Result<R, QueryError<E>>, LogRecord))
    requires
        old(reg).wf(),
        scope.key_view().0 == Action::FetchOne,
    ensures
        final(reg).wf(),
        final(reg)@ == old(reg)@.finished(scope.key_view(), elapsed_nanos),
        r.1@ == log_of(scope.key_view(), elapsed_nanos),
        r.0 == match outcome {
            Ok(rows) => spec_fetch_one(rows@),
            Err(f) => Err(spec_map_failure(f)),
        },
{
    let log = reg.record_finish(&scope.key, elapsed_nanos);
    let r = match outcome {
        Ok(rows) => fetch_one(rows),
        Err(f) => Err(map_failure(f)),
    };
    (r, log)
}

/// Completes a fetch-optional invocation: records its finish, then yields
/// nothing, the single row, a cardinality error, or the mapped driver failure.
pub fn complete_fetch_optional<R, E>(
    reg: &mut Registry,
    scope: Scope,
    outcome: Result<Vec<R>, DriverFailure<E>>,
    elapsed_nanos: u64,
) -> (r: (Result<Option<R>, QueryError<E>>, LogRecord))
    requires
        old(reg).wf(),
        scope.key_view().0 == Action::FetchOptional,
    ensures
        final(reg).wf(),
        final(reg)@ == old(reg)@.finished(scope.key_view(), elapsed_nanos),
        r.1@ == log_of(scope.key_view(), elapsed_nanos),
        r.0 == match outcome {
            Ok(rows) => spec_fetch_optional(rows@),
            Err(f) => Err(spec_map_failure(f)),
        },
{
    let log = reg.record_finish(&scope.key, elapsed_nanos);
    let r = match outcome {
        Ok(rows) => fetch_optional(rows),
        Err(f) => Err(map_failure(f)),
    };
    (r, log)
}

/// Completes a fetch-all invocation: records its finish, then yields every row
/// in the order received, or the mapped driver failure.
pub fn complete_fetch_all<R, E>(
    reg: &mut Registry,
    scope: Scope,
    outcome: Result<Vec<R>, DriverFailure<E>>,
    elapsed_nanos: u64,
) -> (r: (Result<Vec<R>, QueryError<E>>, LogRecord))
    requires
        old(reg).wf(),
        scope.key_view().0 == Action::FetchAll,
    ensures
        final(reg).wf(),
        final(reg)@ == old(reg)@.finished(scope.key_view(), elapsed_nanos),
        r.1@ == log_of(scope.key_view(), elapsed_nanos),
        match outcome {
            Ok(rows) => r.0 matches Ok(v) && v@ == rows@,
            Err(f) => r.0 == Err::<Vec<R>, QueryError<E>>(spec_map_failure(f)),
        },
{
    let log = reg.record_finish(&scope.key, elapsed_nanos);
    let r = match outcome {
        Ok(rows) => fetch_all(rows),
        Err(f) => Err(map_failure(f)),
    };
    (r, log)
}

/// Completes a fetch-many invocation: records its finish, then yields the row
/// groups of the result sets in order, or the mapped driver failure.
pub fn complete_fetch_many<R, E>(
    reg: &mut Registry,
    scope: Scope,
    outcome: Result<Vec<ResultItem<R>>, DriverFailure<E>>,
    elapsed_nanos: u64,
) -> (r: (Result<Vec<Vec<R>>, QueryError<E>>, LogRecord))
    requires
        old(reg).wf(),
        scope.key_view().0 == Action::FetchMany,
    ensures
        final(reg).wf(),
        final(reg)@ == old(reg)@.finished(scope.key_view(), elapsed_nanos),
        r.1@ == log_of(scope.key_view(), elapsed_nanos),
        match outcome {
            Ok(items) => r.0 matches Ok(g) && g@.map_values(|v: Vec<R>| v@) == spec_groups(items@),
            Err(f) => r.0 == Err::<Vec<Vec<R>>, QueryError<E>>(spec_map_failure(f)),
        },
{
    let log = reg.record_finish(&scope.key, elapsed_nanos);
    let r = match outcome {
        Ok(items) => fetch_many(items),
        Err(f) => Err(map_failure(f)),
    };
    (r, log)
}

/// An instrumented invocation that starts and completes adds exactly one to
/// its counter series and exactly one observation, of its elapsed time, to its
/// histogram series, and leaves every other series as it was.
pub proof fn lemma_completed_invocation_recorded_once(
    before: RegistryView,
    k: KeyView,
    elapsed_nanos: u64,
    other: KeyView,
)
    requires
        before.counter(k) < u64::MAX,
        before.observation_count(k) < u64::MAX,
        before.series_of(k).total_nanos + elapsed_nanos <= u64::MAX,
    ensures
        before.started(k).finished(k, elapsed_nanos).counter(k) == before.counter(k) + 1,
        before.started(k).finished(k, elapsed_nanos).observation_count(k)
            == before.observation_count(k) + 1,
        before.started(k).finished(k, elapsed_nanos).series_of(k).total_nanos
            == before.series_of(k).total_nanos + elapsed_nanos,
        other != k ==> before.started(k).finished(k, elapsed_nanos).series_of(other)
            == before.series_of(other),
{
}

/// An invocation that was started but never completed (its task was dropped
/// while the query ran) adds one to its counter and no observation.
pub proof fn lemma_abandoned_invocation_counted_only(before: RegistryView, k: KeyView)
    requires
        before.counter(k) < u64::MAX,
    ensures
        before.started(k).counter(k) == before.counter(k) + 1,
        before.started(k).observation_count(k) == before.observation_count(k),
        before.started(k).series_of(k).total_nanos == before.series_of(k).total_nanos,
{
}

} // verus!
