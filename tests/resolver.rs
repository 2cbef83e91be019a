use apub_federation::context::{RequestContext, DEFAULT_FETCH_LIMIT, REFETCH_INTERVAL_DEBUG_MS};
use apub_federation::error::Error;
use apub_federation::object_id::ObjectId;
use apub_federation::resolver::{after_fetch, AfterFetch, FetchOutcome, Lookup, Plan};

/// The kind of object that the identifiers in these tests resolve to.
struct DbUser;

const NOW: i64 = 1_700_000_000_000;

fn context() -> RequestContext {
    RequestContext::new("localhost:8002".to_string(), true)
}

#[test]
fn new_context_defaults() {
    let ctx = context();
    assert_eq!(ctx.domain(), "localhost:8002");
    assert!(ctx.debug());
    assert_eq!(ctx.refetch_interval_ms(), REFETCH_INTERVAL_DEBUG_MS);
    assert_eq!(ctx.fetch_limit(), DEFAULT_FETCH_LIMIT);
    assert_eq!(ctx.fetch_count(), 0);
    let prod = RequestContext::new("example.com".to_string(), false);
    assert_eq!(prod.refetch_interval_ms(), 86_400_000);
}

#[test]
fn local_absent_is_not_found_without_fetch() {
    let mut ctx = context();
    let id = ObjectId::<DbUser>::new("http://localhost:8002/u/alice").unwrap();
    assert_eq!(id.dereference_at(&mut ctx, Lookup::Absent, NOW), Plan::Fail(Error::NotFound));
    assert_eq!(ctx.fetch_count(), 0);
}

#[test]
fn local_stale_copy_is_not_fetched() {
    let mut ctx = context();
    let id = ObjectId::<DbUser>::new("http://localhost:8002/u/alice").unwrap();
    let lookup = Lookup::Present { last_refreshed: Some(NOW - 10 * REFETCH_INTERVAL_DEBUG_MS) };
    assert_eq!(id.dereference_at(&mut ctx, lookup, NOW), Plan::UseCached);
    assert_eq!(ctx.fetch_count(), 0);
}

#[test]
fn stale_remote_copy_is_fetched_once() {
    let mut ctx = context();
    let id = ObjectId::<DbUser>::new("http://remote.example/u/bob").unwrap();
    let lookup = Lookup::Present { last_refreshed: Some(NOW - REFETCH_INTERVAL_DEBUG_MS - 1) };
    assert_eq!(id.dereference_at(&mut ctx, lookup, NOW), Plan::Fetch { has_local: true });
    assert_eq!(ctx.fetch_count(), 1);
    assert_eq!(after_fetch(true, FetchOutcome::Fetched), AfterFetch::Build);
}

#[test]
fn fresh_remote_copy_is_used() {
    let mut ctx = context();
    let id = ObjectId::<DbUser>::new("http://remote.example/u/bob").unwrap();
    let lookup = Lookup::Present { last_refreshed: Some(NOW - REFETCH_INTERVAL_DEBUG_MS) };
    assert_eq!(id.dereference_at(&mut ctx, lookup, NOW), Plan::UseCached);
    let lookup = Lookup::Present { last_refreshed: None };
    assert_eq!(id.dereference_at(&mut ctx, lookup, NOW), Plan::UseCached);
    assert_eq!(ctx.fetch_count(), 0);
}

#[test]
fn absent_remote_object_is_fetched() {
    let mut ctx = context();
    let id = ObjectId::<DbUser>::new("http://remote.example/u/bob").unwrap();
    assert_eq!(id.dereference(&mut ctx, Lookup::Absent), Plan::Fetch { has_local: false });
    assert_eq!(ctx.fetch_count(), 1);
}

#[test]
fn resolution_chain_stops_at_fetch_limit() {
    let mut ctx = context().with_fetch_limit(3);
    let mut plans = Vec::new();
    for n in 0..10 {
        let id = ObjectId::<DbUser>::new(&format!("http://remote.example/collection?page={n}")).unwrap();
        let plan = id.dereference_at(&mut ctx, Lookup::Absent, NOW);
        plans.push(plan);
        if plan == Plan::Fail(Error::FetchLimitExceeded) {
            break;
        }
    }
    assert_eq!(plans.len(), 4);
    assert_eq!(plans[3], Plan::Fail(Error::FetchLimitExceeded));
    assert_eq!(ctx.fetch_count(), 3);
}

#[test]
fn zero_fetch_limit_refuses_first_fetch() {
    let mut ctx = context().with_fetch_limit(0);
    let id = ObjectId::<DbUser>::new("http://remote.example/u/bob").unwrap();
    assert_eq!(id.dereference_at(&mut ctx, Lookup::Absent, NOW), Plan::Fail(Error::FetchLimitExceeded));
    assert_eq!(ctx.fetch_count(), 0);
}

#[test]
fn register_fetch_counts_up_to_limit() {
    let mut ctx = context().with_fetch_limit(2);
    assert_eq!(ctx.register_fetch(), Ok(()));
    assert_eq!(ctx.register_fetch(), Ok(()));
    assert_eq!(ctx.register_fetch(), Err(Error::FetchLimitExceeded));
    assert_eq!(ctx.fetch_count(), 2);
}

#[test]
fn custom_interval_decides_staleness() {
    let mut ctx = context().with_refetch_interval(1_000);
    let id = ObjectId::<DbUser>::new("http://remote.example/u/bob").unwrap();
    let lookup = Lookup::Present { last_refreshed: Some(NOW - 1_001) };
    assert_eq!(id.dereference_at(&mut ctx, lookup, NOW), Plan::Fetch { has_local: true });
}

#[test]
fn gone_object_deletes_local_copy() {
    assert_eq!(
        after_fetch(true, FetchOutcome::Gone),
        AfterFetch::Fail { delete_local: true, error: Error::ObjectGone }
    );
    assert_eq!(
        after_fetch(false, FetchOutcome::Gone),
        AfterFetch::Fail { delete_local: false, error: Error::ObjectGone }
    );
    assert_eq!(
        after_fetch(true, FetchOutcome::Failed(Error::NetworkFailure)),
        AfterFetch::Fail { delete_local: false, error: Error::NetworkFailure }
    );
}

#[test]
fn dereference_local_never_fetches() {
    let ctx = context();
    let id = ObjectId::<DbUser>::new("http://remote.example/u/bob").unwrap();
    assert_eq!(id.dereference_local(Lookup::Absent), Err(Error::NotFound));
    assert_eq!(id.dereference_local(Lookup::Present { last_refreshed: Some(0) }), Ok(()));
    assert_eq!(ctx.fetch_count(), 0);
}
