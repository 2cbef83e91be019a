use crate::context::RequestContext;
use crate::error::Error;
use crate::object_id::ObjectId;
use vstd::prelude::*;

verus! {

/// Relies on chrono's `From<SystemTime> for DateTime<Utc>` to read the
/// system clock as milliseconds since the Unix epoch
/// (`DateTime::timestamp_millis`); a clock set before the epoch gives a
/// negative time. The value depends on the moment of the call, so nothing is
/// promised of it.
#[verifier::external_body]
fn now_millis() -> (r: i64) {
    chrono::DateTime::<chrono::Utc>::from(std::time::SystemTime::now()).timestamp_millis()
}

/// What local storage holds for an identifier.
#[derive(Clone, Copy, Debug, PartialEq, Eq, Structural)]
pub enum Lookup {
    /// No object is stored under the identifier.
    Absent,
    /// An object is stored, with the time (milliseconds since the Unix epoch)
    /// at which it was last fetched; none for objects authored locally.
    Present { last_refreshed: Option<i64> },
}

/// What resolving an identifier asks of its caller once storage has been read.
#[derive(Clone, Copy, Debug, PartialEq, Eq, Structural)]
pub enum Plan {
    /// Return the stored object; no network activity.
    UseCached,
    /// Fetch the object over the network (already counted against the
    /// request's ceiling), then go on with `after_fetch`. `has_local` says
    /// whether a stored copy exists.
    Fetch { has_local: bool },
    /// Resolution fails with this error.
    Fail(Error),
}

/// How a network fetch ended.
#[derive(Clone, Copy, Debug, PartialEq, Eq, Structural)]
pub enum FetchOutcome {
    /// The remote representation arrived.
    Fetched,
    /// The remote server reports the object as deleted.
    Gone,
    /// The fetch failed with this error.
    Failed(Error),
}

/// What resolving an identifier asks of its caller once a fetch has ended.
#[derive(Clone, Copy, Debug, PartialEq, Eq, Structural)]
pub enum AfterFetch {
    /// Build the object from the remote representation and return it.
    Build,
    /// Delete the stored copy first where `delete_local` says so, then fail
    /// with `error`.
    Fail { delete_local: bool, error: Error },
}

/// An object last fetched at `last_refreshed` is stale at `now` when it is
/// older than `interval` milliseconds.
pub open spec fn is_stale_spec(last_refreshed: i64, now: i64, interval: i64) -> bool {
    last_refreshed < now - interval
}

/// Whether the stored object that `lookup` describes is stale at `now`; an
/// object without a refresh time never is.
pub open spec fn lookup_is_stale(lookup: Lookup, now: i64, interval: i64) -> bool {
    match lookup {
        Lookup::Present { last_refreshed: Some(t) } => is_stale_spec(t, now, interval),
        _ => false,
    }
}

/// Whether resolution makes a network fetch: never for a local identifier;
/// for a remote one, when nothing is stored or the stored copy is stale.
pub open spec fn fetch_due(local: bool, lookup: Lookup, stale: bool) -> bool {
    !local && match lookup {
        Lookup::Absent => true,
        Lookup::Present { last_refreshed } => last_refreshed is Some && stale,
    }
}

/// The plan of resolution, where `can_fetch` says whether the request's fetch
/// ceiling still admits a fetch.
pub open spec fn plan_spec(local: bool, lookup: Lookup, stale: bool, can_fetch: bool) -> Plan {
    if fetch_due(local, lookup, stale) {
        if can_fetch {
            Plan::Fetch { has_local: lookup is Present }
        } else {
            Plan::Fail(Error::FetchLimitExceeded)
        }
    } else if lookup is Absent {
        Plan::Fail(Error::NotFound)
    } else {
        Plan::UseCached
    }
}

/// The fetch counter of `ctx` after resolution has planned.
pub open spec fn count_after_plan(ctx: RequestContext, local: bool, lookup: Lookup, stale: bool) -> u64 {
    if fetch_due(local, lookup, stale) {
        ctx.count_after_fetch()
    } else {
        ctx.count_spec()
    }
}

/// The plan of `ObjectId::dereference_at`, for the context as it was before.
pub open spec fn dereference_plan<K>(ctx: RequestContext, id: ObjectId<K>, lookup: Lookup, now: i64) -> Plan {
    plan_spec(
        ctx.is_local_spec(&id),
        lookup,
        lookup_is_stale(lookup, now, ctx.interval_spec()),
        ctx.count_spec() < ctx.limit_spec(),
    )
}

/// What follows a fetch: a deleted object takes its stored copy with it.
pub open spec fn after_fetch_spec(has_local: bool, outcome: FetchOutcome) -> AfterFetch {
    match outcome {
        FetchOutcome::Fetched => AfterFetch::Build,
        FetchOutcome::Gone => AfterFetch::Fail { delete_local: has_local, error: Error::ObjectGone },
        FetchOutcome::Failed(e) => AfterFetch::Fail { delete_local: false, error: e },
    }
}


/// A local identifier is never fetched over the network: resolving it leaves
/// the fetch counter as it was, and fails with `NotFound` where storage holds
/// nothing for it.
pub proof fn lemma_local_never_fetches<K>(ctx: RequestContext, id: ObjectId<K>, lookup: Lookup, now: i64)
    requires
        ctx.is_local_spec(&id),
    ensures
        !(dereference_plan(ctx, id, lookup, now) is Fetch),
        count_after_plan(ctx, true, lookup, lookup_is_stale(lookup, now, ctx.interval_spec()))
            == ctx.count_spec(),
        lookup is Absent ==> dereference_plan(ctx, id, lookup, now) == Plan::Fail(Error::NotFound),
{
}

/// A stored copy of a remote object that is older than the staleness
/// interval is fetched exactly once, the fetch being counted, and a
/// successful fetch yields the freshly built object.
pub proof fn lemma_stale_copy_is_refetched<K>(
    ctx: RequestContext,
    id: ObjectId<K>,
    last_refreshed: i64,
    now: i64,
)
    requires
        ctx.wf(),
        !ctx.is_local_spec(&id),
        is_stale_spec(last_refreshed, now, ctx.interval_spec()),
        ctx.count_spec() < ctx.limit_spec(),
    ensures
        dereference_plan(ctx, id, (Lookup::Present { last_refreshed: Some(last_refreshed) }), now)
            == (Plan::Fetch { has_local: true }),
        count_after_plan(
            ctx,
            false,
            (Lookup::Present { last_refreshed: Some(last_refreshed) }),
            true,
        ) == ctx.count_spec() + 1,
        after_fetch_spec(true, FetchOutcome::Fetched) == AfterFetch::Build,
{
}

/// A stored copy that is not stale, or that has no refresh time, is returned
/// as it is, with no network fetch.
pub proof fn lemma_fresh_copy_is_used<K>(
    ctx: RequestContext,
    id: ObjectId<K>,
    last_refreshed: Option<i64>,
    now: i64,
)
    requires
        last_refreshed is Some ==> !is_stale_spec(last_refreshed->Some_0, now, ctx.interval_spec()),
    ensures
        dereference_plan(ctx, id, (Lookup::Present { last_refreshed }), now) == Plan::UseCached,
        count_after_plan(
            ctx,
            ctx.is_local_spec(&id),
            (Lookup::Present { last_refreshed }),
            lookup_is_stale((Lookup::Present { last_refreshed }), now, ctx.interval_spec()),
        ) == ctx.count_spec(),
{
}

/// Each fetch is counted and the count stops at the ceiling. Every
/// resolution that plans a fetch lowers the number of fetches left by one,
/// and that number never falls below zero; once it is zero, every further
/// resolution that needs a fetch fails with `FetchLimitExceeded`. So a chain
/// of resolutions on one context, cyclic or not, plans at most
/// `limit - count` fetches and then fails instead of fetching without end.
pub proof fn lemma_fetch_limit_ends_chain<K>(ctx: RequestContext, id: ObjectId<K>, lookup: Lookup, now: i64)
    requires
        ctx.wf(),
        fetch_due(ctx.is_local_spec(&id), lookup, lookup_is_stale(lookup, now, ctx.interval_spec())),
    ensures
        ctx.count_spec() < ctx.limit_spec() ==> dereference_plan(ctx, id, lookup, now) is Fetch
            && count_after_plan(
            ctx,
            ctx.is_local_spec(&id),
            lookup,
            lookup_is_stale(lookup, now, ctx.interval_spec()),
        ) == ctx.count_spec() + 1,
        dereference_plan(ctx, id, lookup, now) is Fetch ==> ctx.limit_spec() - count_after_plan(
            ctx,
            ctx.is_local_spec(&id),
            lookup,
            lookup_is_stale(lookup, now, ctx.interval_spec()),
        ) == ctx.limit_spec() - ctx.count_spec() - 1 >= 0,
        ctx.count_spec() == ctx.limit_spec() ==> dereference_plan(ctx, id, lookup, now) == Plan::Fail(
            Error::FetchLimitExceeded,
        ) && count_after_plan(
            ctx,
            ctx.is_local_spec(&id),
            lookup,
            lookup_is_stale(lookup, now, ctx.interval_spec()),
        ) == ctx.count_spec(),
{
}

/// Whether an object last fetched at `last_refreshed` is stale at `now`.
pub fn is_stale(last_refreshed: i64, now: i64, interval: i64) -> (r: bool)
    ensures
        r == is_stale_spec(last_refreshed, now, interval),
{
    (last_refreshed as i128) < (now as i128) - (interval as i128)
}

/// Whether an object last fetched at `last_refreshed` is stale now, by the
/// clock of this machine.
pub fn should_refetch_object(last_refreshed: i64, interval: i64) -> (r: bool)
    ensures
        exists|now: i64| r == is_stale_spec(last_refreshed, now, interval),
{
    let now = now_millis();
    is_stale(last_refreshed, now, interval)
}

/// What follows a network fetch for an identifier, given whether a stored
/// copy exists: build the object, or fail, deleting the stored copy first
/// where the remote object is gone.
pub fn after_fetch(has_local: bool, outcome: FetchOutcome) -> (r: AfterFetch)
    ensures
        r == after_fetch_spec(has_local, outcome),
{
    match outcome {
        FetchOutcome::Fetched => AfterFetch::Build,
        FetchOutcome::Gone => AfterFetch::Fail { delete_local: has_local, error: Error::ObjectGone },
        FetchOutcome::Failed(e) => AfterFetch::Fail { delete_local: false, error: e },
    }
}

impl<K> ObjectId<K> {
    /// Plans the resolution of this identifier at time `now`, given what
    /// local storage holds for it. A local identifier is only ever read from
    /// storage. A remote one is fetched when nothing is stored or the stored
    /// copy is stale; that fetch is counted against the request's ceiling,
    /// and refused with `FetchLimitExceeded` once the ceiling is reached.
    pub fn dereference_at(&self, ctx: &mut RequestContext, lookup: Lookup, now: i64) -> (r: Plan)
        requires
            old(ctx).wf(),
        ensures
            final(ctx).wf(),
            final(ctx).domain_spec() == old(ctx).domain_spec(),
            final(ctx).debug_spec() == old(ctx).debug_spec(),
            final(ctx).interval_spec() == old(ctx).interval_spec(),
            final(ctx).limit_spec() == old(ctx).limit_spec(),
            r == dereference_plan(*old(ctx), *self, lookup, now),
            final(ctx).count_spec() == count_after_plan(
                *old(ctx),
                old(ctx).is_local_spec(self),
                lookup,
                lookup_is_stale(lookup, now, old(ctx).interval_spec()),
            ),
    {
        let local = ctx.is_local_url(self);
        let due = if local {
            false
        } else {
            match lookup {
                Lookup::Absent => true,
                Lookup::Present { last_refreshed: Some(t) } => is_stale(t, now, ctx.refetch_interval_ms()),
                Lookup::Present { last_refreshed: None } => false,
            }
        };
        if due {
            match ctx.register_fetch() {
                Ok(()) => Plan::Fetch {
                    has_local: match lookup {
                        Lookup::Absent => false,
                        Lookup::Present { .. } => true,
                    },
                },
                Err(e) => Plan::Fail(e),
            }
        } else {
            match lookup {
                Lookup::Absent => Plan::Fail(Error::NotFound),
                Lookup::Present { .. } => Plan::UseCached,
            }
        }
    }

    /// Plans the resolution of this identifier now, by the clock of this
    /// machine, as `dereference_at` does.
    pub fn dereference(&self, ctx: &mut RequestContext, lookup: Lookup) -> (r: Plan)
        requires
            old(ctx).wf(),
        ensures
            final(ctx).wf(),
            final(ctx).domain_spec() == old(ctx).domain_spec(),
            final(ctx).debug_spec() == old(ctx).debug_spec(),
            final(ctx).interval_spec() == old(ctx).interval_spec(),
            final(ctx).limit_spec() == old(ctx).limit_spec(),
            exists|now: i64|
                r == dereference_plan(*old(ctx), *self, lookup, now)
                    && final(ctx).count_spec() == count_after_plan(
                    *old(ctx),
                    old(ctx).is_local_spec(self),
                    lookup,
                    lookup_is_stale(lookup, now, old(ctx).interval_spec()),
                ),
    {
        let now = now_millis();
        self.dereference_at(ctx, lookup, now)
    }

    /// Resolves this identifier from local storage alone: never a fetch, and
    /// `NotFound` where nothing is stored.
    pub fn dereference_local(&self, lookup: Lookup) -> (r: Result<(), Error>)
        ensures
            r == (match lookup {
                Lookup::Absent => Err(Error::NotFound),
                Lookup::Present { .. } => Ok(()),
            }),
    {
        match lookup {
            Lookup::Absent => Err(Error::NotFound),
            Lookup::Present { .. } => Ok(()),
        }
    }
}

} // verus!
