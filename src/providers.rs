//! Market-data access decisions: a tiered pool of redundant endpoints with a rotation
//! cursor, the bounded retry of one logical read across the active tier, and layered
//! lookups where the first source that answers wins and a static default closes the list.
//!
//! The reads themselves are performed by the caller, which reports each outcome back.

use vstd::prelude::*;

verus! {

/// Priority class of an endpoint.
#[derive(Clone, Copy, Debug, PartialEq, Eq, Structural)]
pub enum Tier {
    Premium,
    Backup,
    Public,
}

/// A read-only data source.
#[derive(Debug)]
pub struct Endpoint {
    pub url: String,
    pub tier: Tier,
}

#[derive(Clone, Copy, Debug, PartialEq, Eq, Structural)]
pub enum ProviderError {
    /// No tier holds an endpoint.
    NoEndpoints,
    /// Every endpoint of the active tier failed the same read.
    AllProvidersExhausted,
}

/// Endpoints by tier and the rotation cursor of the active tier. The active tier is the
/// first non-empty one of premium, backup and public; it never changes, since the tiers
/// are fixed at construction.
#[derive(Debug)]
pub struct MultiProvider {
    pub premium: Vec<Endpoint>,
    pub backup: Vec<Endpoint>,
    pub public_endpoints: Vec<Endpoint>,
    pub cursor: usize,
}

/// What the caller does after reporting the outcome of a read attempt.
#[derive(Clone, Copy, Debug, PartialEq, Eq, Structural)]
pub enum ReadStep {
    /// The read succeeded; the cursor stays on the endpoint that answered.
    Done,
    /// The cursor moved on; try the read again on the current endpoint.
    Retry,
    /// Every endpoint of the tier has been tried once for this read.
    Exhausted,
}

/// Progress of one logical read: how many attempts failed, out of how many allowed.
#[derive(Clone, Copy, Debug)]
pub struct ReadSession {
    pub failures: usize,
    pub limit: usize,
}

impl MultiProvider {
    pub open spec fn active_tier(&self) -> Seq<Endpoint> {
        if self.premium.len() > 0 {
            self.premium@
        } else if self.backup.len() > 0 {
            self.backup@
        } else {
            self.public_endpoints@
        }
    }

    /// The active tier is not empty and the cursor indexes one of its endpoints.
    pub open spec fn wf(&self) -> bool {
        &&& self.active_tier().len() > 0
        &&& self.cursor < self.active_tier().len()
    }

    /// Same endpoints, possibly another cursor.
    pub open spec fn same_tiers(&self, other: &MultiProvider) -> bool {
        &&& self.premium@ == other.premium@
        &&& self.backup@ == other.backup@
        &&& self.public_endpoints@ == other.public_endpoints@
    }

    /// A pool over the given tiers with the cursor on the first endpoint of the active
    /// tier; an error when every tier is empty.
    pub fn new(premium: Vec<Endpoint>, backup: Vec<Endpoint>, public_endpoints: Vec<Endpoint>) -> (r: Result<MultiProvider, ProviderError>)
        ensures
            r is Err <==> premium.len() == 0 && backup.len() == 0 && public_endpoints.len() == 0,
            r matches Err(e) ==> e == ProviderError::NoEndpoints,
            r matches Ok(p) ==> {
                &&& p.wf()
                &&& p.cursor == 0
                &&& p.premium@ == premium@
                &&& p.backup@ == backup@
                &&& p.public_endpoints@ == public_endpoints@
            },
    {
        if premium.len() == 0 && backup.len() == 0 && public_endpoints.len() == 0 {
            return Err(ProviderError::NoEndpoints);
        }
        Ok(MultiProvider { premium, backup, public_endpoints, cursor: 0 })
    }

    /// Number of endpoints in the active tier.
    pub fn tier_size(&self) -> (r: usize)
        ensures
            r == self.active_tier().len(),
    {
        if self.premium.len() > 0 {
            self.premium.len()
        } else if self.backup.len() > 0 {
            self.backup.len()
        } else {
            self.public_endpoints.len()
        }
    }

    /// The endpoint that the next read goes to.
    pub fn get_provider(&self) -> (r: &Endpoint)
        requires
            self.wf(),
        ensures
            *r == self.active_tier()[self.cursor as int],
    {
        if self.premium.len() > 0 {
            &self.premium[self.cursor]
        } else if self.backup.len() > 0 {
            &self.backup[self.cursor]
        } else {
            &self.public_endpoints[self.cursor]
        }
    }

    /// Moves the cursor to the next endpoint of the active tier, wrapping around.
    pub fn rotate_provider(&mut self)
        requires
            old(self).wf(),
        ensures
            final(self).wf(),
            final(self).same_tiers(old(self)),
            final(self).cursor == (old(self).cursor + 1) % (old(self).active_tier().len() as int),
    {
        let n = self.tier_size();
        self.cursor = (self.cursor + 1) % n;
    }

    /// Starts one logical read: it may try each endpoint of the active tier once.
    pub fn start_read(&self) -> (r: ReadSession)
        ensures
            r.failures == 0,
            r.limit == self.active_tier().len(),
    {
        ReadSession { failures: 0, limit: self.tier_size() }
    }

    /// Records the outcome of an attempt on the current endpoint. A success ends the read
    /// and leaves the cursor where it is; a failure rotates, and ends the read once every
    /// endpoint of the tier has failed it.
    pub fn record_attempt(&mut self, session: &mut ReadSession, succeeded: bool) -> (r: ReadStep)
        requires
            old(self).wf(),
            old(session).failures < old(session).limit,
            old(session).limit == old(self).active_tier().len(),
        ensures
            final(self).wf(),
            final(self).same_tiers(old(self)),
            final(session).limit == old(session).limit,
            succeeded ==> {
                &&& r == ReadStep::Done
                &&& final(self).cursor == old(self).cursor
                &&& final(session).failures == old(session).failures
            },
            !succeeded ==> {
                &&& final(self).cursor == (old(self).cursor + 1) % (old(self).active_tier().len() as int)
                &&& final(session).failures == old(session).failures + 1
                &&& r == (if final(session).failures < final(session).limit {
                    ReadStep::Retry
                } else {
                    ReadStep::Exhausted
                })
            },
    {
        if succeeded {
            return ReadStep::Done;
        }
        self.rotate_provider();
        session.failures = session.failures + 1;
        if session.failures < session.limit {
            ReadStep::Retry
        } else {
            ReadStep::Exhausted
        }
    }
}

/// The answer of the first source that gave one, else the default.
pub open spec fn first_available_spec<T>(results: Seq<Option<T>>, default: T) -> T
    decreases results.len(),
{
    if results.len() == 0 {
        default
    } else {
        match results[0] {
            Some(v) => v,
            None => first_available_spec(results.drop_first(), default),
        }
    }
}

/// Layered lookup: `results` holds the answers of the sources in priority order, `None`
/// for a source that failed; the first answer wins, and `default` closes the list.
pub fn first_available<T: Copy>(results: &Vec<Option<T>>, default: T) -> (r: T)
    ensures
        r == first_available_spec(results@, default),
{
    let n = results.len();
    let mut i: usize = n;
    let mut acc = default;
    while i > 0
        invariant
            i <= n,
            n == results.len(),
            acc == first_available_spec(results@.skip(i as int), default),
        decreases i,
    {
        i = i - 1;
        proof {
            assert(results@.skip(i as int).drop_first() =~= results@.skip(i + 1));
        }
        match results[i] {
            Some(v) => {
                acc = v;
            },
            None => {},
        }
    }
    assert(results@.skip(0) =~= results@);
    acc
}

/// When every source fails, the lookup yields the default and never an error.
pub proof fn lemma_all_sources_failed_gives_default<T>(results: Seq<Option<T>>, default: T)
    requires
        forall|i: int| 0 <= i < results.len() ==> results[i] is None,
    ensures
        first_available_spec(results, default) == default,
    decreases results.len(),
{
    if results.len() > 0 {
        let rest = results.drop_first();
        assert forall|i: int| 0 <= i < rest.len() implies rest[i] is None by {
            assert(rest[i] == results[i + 1]);
        }
        lemma_all_sources_failed_gives_default(rest, default);
    }
}

/// Default reference price of the native token, in cents, when no source answers.
pub const DEFAULT_FIAT_PRICE_CENTS: u32 = 300_000;

/// Fiat reference price: the pricing API's answer, else the gas/price oracle's, else the
/// configured default. It never fails; the result is best effort.
pub fn fiat_price_cents(primary: Option<u32>, secondary: Option<u32>, default: u32) -> (r: u32)
    ensures
        r == (match primary {
            Some(p) => p,
            None => match secondary {
                Some(s) => s,
                None => default,
            },
        }),
{
    let mut sources: Vec<Option<u32>> = Vec::new();
    sources.push(primary);
    sources.push(secondary);
    proof {
        let s = sources@;
        assert(s[0] == primary && s.drop_first()[0] == secondary);
        assert(s.drop_first().drop_first().len() == 0);
        reveal_with_fuel(first_available_spec, 3);
    }
    first_available(&sources, default)
}

} // verus!
