use crate::error::Error;
use crate::object_id::ObjectId;
use vstd::prelude::*;

verus! {

/// How long a fetched object stays fresh in production, in milliseconds: a day.
pub const REFETCH_INTERVAL_MS: i64 = 86_400_000;

/// How long a fetched object stays fresh in debug mode, in milliseconds, so
/// that tests reach staleness without waiting.
pub const REFETCH_INTERVAL_DEBUG_MS: i64 = 20_000;

/// The fetch ceiling that `RequestContext::new` sets.
pub const DEFAULT_FETCH_LIMIT: u64 = 20;

/// The staleness interval that applies in the given mode.
pub open spec fn interval_for(debug: bool) -> i64 {
    if debug {
        REFETCH_INTERVAL_DEBUG_MS
    } else {
        REFETCH_INTERVAL_MS
    }
}

/// The configuration and the fetch counter of one inbound or outbound
/// operation. The counter only grows, and never beyond the ceiling.
pub struct RequestContext {
    domain: String,
    debug: bool,
    refetch_interval_ms: i64,
    fetch_limit: u64,
    fetch_count: u64,
}

impl RequestContext {
    /// The local domain (`host` or `host:port`).
    pub closed spec fn domain_spec(&self) -> Seq<char> {
        self.domain@
    }

    pub closed spec fn debug_spec(&self) -> bool {
        self.debug
    }

    /// How old a fetched object may grow before it is fetched again.
    pub closed spec fn interval_spec(&self) -> i64 {
        self.refetch_interval_ms
    }

    /// How many network fetches this operation may make.
    pub closed spec fn limit_spec(&self) -> u64 {
        self.fetch_limit
    }

    /// How many network fetches this operation has made.
    pub closed spec fn count_spec(&self) -> u64 {
        self.fetch_count
    }

    pub closed spec fn wf(&self) -> bool {
        self.fetch_count <= self.fetch_limit && self.refetch_interval_ms >= 0
    }

    /// A fresh context for the given local domain and mode, with the default
    /// fetch ceiling and the mode's staleness interval.
    pub fn new(domain: String, debug: bool) -> (r: RequestContext)
        ensures
            r.wf(),
            r.domain_spec() == domain@,
            r.debug_spec() == debug,
            r.interval_spec() == interval_for(debug),
            r.limit_spec() == DEFAULT_FETCH_LIMIT,
            r.count_spec() == 0,
    {
        let refetch_interval_ms = if debug {
            REFETCH_INTERVAL_DEBUG_MS
        } else {
            REFETCH_INTERVAL_MS
        };
        RequestContext {
            domain,
            debug,
            refetch_interval_ms,
            fetch_limit: DEFAULT_FETCH_LIMIT,
            fetch_count: 0,
        }
    }

    /// The same context with another fetch ceiling, which must not lie below
    /// the fetches already made.
    pub fn with_fetch_limit(self, limit: u64) -> (r: RequestContext)
        requires
            self.wf(),
            self.count_spec() <= limit,
        ensures
            r.wf(),
            r.domain_spec() == self.domain_spec(),
            r.debug_spec() == self.debug_spec(),
            r.interval_spec() == self.interval_spec(),
            r.limit_spec() == limit,
            r.count_spec() == self.count_spec(),
    {
        RequestContext { fetch_limit: limit, ..self }
    }

    /// The same context with another staleness interval, in milliseconds.
    pub fn with_refetch_interval(self, interval_ms: i64) -> (r: RequestContext)
        requires
            self.wf(),
            interval_ms >= 0,
        ensures
            r.wf(),
            r.domain_spec() == self.domain_spec(),
            r.debug_spec() == self.debug_spec(),
            r.interval_spec() == interval_ms,
            r.limit_spec() == self.limit_spec(),
            r.count_spec() == self.count_spec(),
    {
        RequestContext { refetch_interval_ms: interval_ms, ..self }
    }

    pub fn domain(&self) -> (r: &str)
        ensures
            r@ == self.domain_spec(),
    {
        self.domain.as_str()
    }

    pub fn debug(&self) -> (r: bool)
        ensures
            r == self.debug_spec(),
    {
        self.debug
    }

    pub fn refetch_interval_ms(&self) -> (r: i64)
        ensures
            r == self.interval_spec(),
    {
        self.refetch_interval_ms
    }

    pub fn fetch_limit(&self) -> (r: u64)
        ensures
            r == self.limit_spec(),
    {
        self.fetch_limit
    }

    pub fn fetch_count(&self) -> (r: u64)
        ensures
            r == self.count_spec(),
    {
        self.fetch_count
    }

    /// Whether the identifier names an object of this instance.
    pub open spec fn is_local_spec<K>(&self, id: &ObjectId<K>) -> bool {
        id@.host_port == self.domain_spec()
    }

    /// Whether the identifier names an object of this instance: its host and
    /// port are the local domain.
    pub fn is_local_url<K>(&self, id: &ObjectId<K>) -> (r: bool)
        ensures
            r == self.is_local_spec(id),
    {
        let hp = id.host_port();
        let local = self.domain.as_str();
        str_eq(hp, local)
    }

    /// The counter after a fetch is asked for: one more, unless the ceiling
    /// has been reached.
    pub open spec fn count_after_fetch(&self) -> u64 {
        if self.count_spec() < self.limit_spec() {
            (self.count_spec() + 1) as u64
        } else {
            self.count_spec()
        }
    }

    /// Accounts for one network fetch. Where the ceiling has been reached the
    /// fetch is refused with `FetchLimitExceeded` and nothing is counted.
    pub fn register_fetch(&mut self) -> (r: Result<(), Error>)
        requires
            old(self).wf(),
        ensures
            final(self).wf(),
            final(self).domain_spec() == old(self).domain_spec(),
            final(self).debug_spec() == old(self).debug_spec(),
            final(self).interval_spec() == old(self).interval_spec(),
            final(self).limit_spec() == old(self).limit_spec(),
            final(self).count_spec() == old(self).count_after_fetch(),
            final(self).count_spec() >= old(self).count_spec(),
            r is Ok <==> old(self).count_spec() < old(self).limit_spec(),
            r is Err ==> r == Err::<(), Error>(Error::FetchLimitExceeded),
    {
        if self.fetch_count < self.fetch_limit {
            self.fetch_count = self.fetch_count + 1;
            Ok(())
        } else {
            Err(Error::FetchLimitExceeded)
        }
    }
}

/// Character-wise equality of two strings.
fn str_eq(a: &str, b: &str) -> (r: bool)
    ensures
        r == (a@ == b@),
{
    let n = a.unicode_len();
    if n != b.unicode_len() {
        return false;
    }
    let mut i: usize = 0;
    while i < n
        invariant
            n == a@.len(),
            n == b@.len(),
            i <= n,
            forall|j: int| 0 <= j < i ==> a@[j] == b@[j],
        decreases n - i,
    {
        if a.get_char(i) != b.get_char(i) {
            return false;
        }
        i = i + 1;
    }
    assert(a@ =~= b@);
    true
}

} // verus!
