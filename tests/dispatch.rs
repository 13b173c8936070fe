use rivet_pools::action::Action;
use rivet_pools::call_site::CallSite;
use rivet_pools::dispatch::{
    complete_execute, complete_fetch_all, complete_fetch_many, complete_fetch_one,
    complete_fetch_optional, open_scope, open_scope_after_resolution,
};
use rivet_pools::error::{DriverFailure, QueryError};
use rivet_pools::cardinality::ResultItem;
use rivet_pools::metrics::{MetricKey, Registry};
use rivet_pools::query::{BindValue, QueryInvocation};

fn invocation(context: &str, action: Action, line: u32) -> QueryInvocation {
    QueryInvocation::new(
        context,
        action,
        CallSite::new("svc/pkg/kv/ops/get/src/lib.rs", line, 5),
        "SELECT key, value FROM kv WHERE namespace_id = $1",
        vec![BindValue::Int(1)],
    )
}

#[test]
fn fetch_optional_one_matching_row_scenario() {
    let mut reg = Registry::new();
    let inv = invocation("db-kv", Action::FetchOptional, 20);
    let key = inv.metric_key();
    let scope = open_scope_after_resolution::<String>(&mut reg, &inv, Ok(())).unwrap().unwrap();
    assert_eq!(reg.counter(&key), 1);
    assert_eq!(reg.observation_count(&key), 0);
    let (r, log) =
        complete_fetch_optional::<&str, String>(&mut reg, scope, Ok(vec!["row"]), 1_500_000);
    assert_eq!(r.unwrap(), Some("row"));
    assert_eq!(reg.counter(&key), 1);
    assert_eq!(reg.observation_count(&key), 1);
    assert!(reg.total_nanos(&key) > 0);
    assert_eq!(reg.total_nanos(&key), 1_500_000);
    assert_eq!(log.location, "svc/pkg/kv/ops/get/src/lib.rs:20:5");
    assert_eq!(log.action, Action::FetchOptional);
    assert_eq!(log.context, "db-kv");
    assert_eq!(log.elapsed_nanos, 1_500_000);
}

#[test]
fn execute_on_unreachable_database_scenario() {
    let mut reg = Registry::new();
    let inv = invocation("db-missing", Action::Execute, 30);
    let key = inv.metric_key();
    let r = open_scope_after_resolution(&mut reg, &inv, Err("unknown database".to_string()));
    assert!(matches!(r, Err(QueryError::ConnectionResolution(ref m)) if m == "unknown database"));
    assert_eq!(reg.counter(&key), 0);
    assert_eq!(reg.observation_count(&key), 0);
    assert_eq!(reg.total_nanos(&key), 0);
}

#[test]
fn fetch_all_on_empty_table_scenario() {
    let mut reg = Registry::new();
    let inv = invocation("db-kv", Action::FetchAll, 40);
    let key = inv.metric_key();
    let scope = open_scope(&mut reg, &inv).unwrap();
    let (r, log) = complete_fetch_all::<u32, String>(&mut reg, scope, Ok(vec![]), 900);
    assert!(r.unwrap().is_empty());
    assert_eq!(reg.counter(&key), 1);
    assert_eq!(reg.observation_count(&key), 1);
    assert_eq!(reg.total_nanos(&key), 900);
    assert_eq!(log.action, Action::FetchAll);
    assert_eq!(log.elapsed_nanos, 900);
}

#[test]
fn fetch_stream_is_never_recorded() {
    let mut reg = Registry::new();
    let inv = invocation("db-kv", Action::FetchStream, 50);
    let key = inv.metric_key();
    assert!(open_scope(&mut reg, &inv).is_none());
    let r = open_scope_after_resolution::<String>(&mut reg, &inv, Ok(()));
    assert!(matches!(r, Ok(None)));
    assert_eq!(reg.counter(&key), 0);
    assert_eq!(reg.observation_count(&key), 0);
}

#[test]
fn failed_queries_are_still_observed_once() {
    let mut reg = Registry::new();
    let inv = invocation("db-kv", Action::FetchOne, 60);
    let key = inv.metric_key();
    let scope = open_scope(&mut reg, &inv).unwrap();
    assert_eq!(scope.action(), Action::FetchOne);
    let (r, _) = complete_fetch_one::<u32, String>(&mut reg, scope, Ok(vec![1, 2]), 10);
    assert!(matches!(r, Err(QueryError::Cardinality { action: Action::FetchOne, rows: 2 })));

    let inv2 = invocation("db-kv", Action::Execute, 61);
    let key2 = inv2.metric_key();
    let scope = open_scope(&mut reg, &inv2).unwrap();
    let (r, log) =
        complete_execute(&mut reg, scope, Err(DriverFailure::Fault("timeout".to_string())), 20);
    assert!(matches!(r, Err(QueryError::Execution(ref m)) if m == "timeout"));

    assert_eq!(reg.counter(&key), 1);
    assert_eq!(reg.observation_count(&key), 1);
    assert_eq!(reg.counter(&key2), 1);
    assert_eq!(reg.observation_count(&key2), 1);
    assert_eq!(reg.total_nanos(&key), 10);
    assert_eq!(reg.total_nanos(&key2), 20);
    assert_eq!(log.location, "svc/pkg/kv/ops/get/src/lib.rs:61:5");
    assert_eq!(log.action, Action::Execute);
}

#[test]
fn series_are_kept_apart_by_action_context_and_site() {
    let mut reg = Registry::new();
    let a = invocation("db-kv", Action::Execute, 70);
    let b = invocation("db-user", Action::Execute, 70);
    let c = invocation("db-kv", Action::Execute, 71);
    for _ in 0..3 {
        let scope = open_scope(&mut reg, &a).unwrap();
        let (r, _) = complete_execute::<String>(&mut reg, scope, Ok(4), 5);
        assert_eq!(r.unwrap(), 4);
    }
    let scope = open_scope(&mut reg, &b).unwrap();
    let _ = complete_execute::<String>(&mut reg, scope, Ok(1), 5);
    let _abandoned = open_scope(&mut reg, &c).unwrap();
    assert_eq!(reg.counter(&a.metric_key()), 3);
    assert_eq!(reg.observation_count(&a.metric_key()), 3);
    assert_eq!(reg.counter(&b.metric_key()), 1);
    assert_eq!(reg.counter(&c.metric_key()), 1);
    assert_eq!(reg.observation_count(&c.metric_key()), 0);
    let other = MetricKey::new(Action::FetchAll, "db-kv", CallSite::new("svc/pkg/kv/ops/get/src/lib.rs", 70, 5));
    assert_eq!(reg.counter(&other), 0);
    assert_eq!(reg.total_nanos(&a.metric_key()), 15);
}

#[test]
fn fetch_many_completion_groups_sets() {
    let mut reg = Registry::new();
    let inv = invocation("db-kv", Action::FetchMany, 80);
    let scope = open_scope(&mut reg, &inv).unwrap();
    let items = vec![ResultItem::Row('a'), ResultItem::Done(1), ResultItem::Row('b')];
    let (r, _) = complete_fetch_many::<char, String>(&mut reg, scope, Ok(items), 3);
    assert_eq!(r.unwrap(), vec![vec!['a'], vec!['b']]);
    assert_eq!(reg.observation_count(&inv.metric_key()), 1);
}

#[test]
fn binding_failure_surfaces_from_fetch_all() {
    let mut reg = Registry::new();
    let inv = invocation("db-kv", Action::FetchAll, 90);
    let scope = open_scope(&mut reg, &inv).unwrap();
    let (r, _) = complete_fetch_all::<u32, String>(
        &mut reg,
        scope,
        Err(DriverFailure::Bind("bind message supplies 1 parameters".to_string())),
        3,
    );
    assert!(matches!(r, Err(QueryError::Binding(_))));
    assert_eq!(reg.observation_count(&inv.metric_key()), 1);
}

#[test]
fn registry_records_start_and_finish_per_series() {
    let mut reg = Registry::new();
    let key = MetricKey::new(Action::Execute, "db-captcha", CallSite::new("v.rs", 3, 9));
    assert_eq!(reg.counter(&key), 0);
    reg.record_start(&key);
    reg.record_start(&key);
    assert_eq!(reg.counter(&key), 2);
    assert_eq!(reg.observation_count(&key), 0);
    let log = reg.record_finish(&key, 40);
    let _ = reg.record_finish(&key, 2);
    assert_eq!(reg.counter(&key), 2);
    assert_eq!(reg.observation_count(&key), 2);
    assert_eq!(reg.total_nanos(&key), 42);
    assert_eq!(log.location, "v.rs:3:9");
    assert_eq!(log.context, "db-captcha");
    assert_eq!(log.elapsed_nanos, 40);
}

#[test]
fn total_time_saturates() {
    let mut reg = Registry::new();
    let key = MetricKey::new(Action::FetchAll, "db", CallSite::new("s.rs", 1, 1));
    let _ = reg.record_finish(&key, u64::MAX - 1);
    let _ = reg.record_finish(&key, 5);
    assert_eq!(reg.total_nanos(&key), u64::MAX);
    assert_eq!(reg.observation_count(&key), 2);
}
