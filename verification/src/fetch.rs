//! The fetcher's cache policy: how a cached entry and the retry flag
//! decide between returning cached content, failing fast on a cached
//! failure, and going to the network; and how a network outcome is
//! recorded back into the cache.

use vstd::prelude::*;

use crate::cache::Cache;
use crate::cache::clone_bytes;
use crate::cache::is_sentinel_value;
use crate::cache::key_of;
use crate::cache::make_key;
use crate::cache::sentinel;
use crate::cache::sentinel_bytes;

verus! {

/// A per-URL fetch failure. `Transport` is a failed network attempt;
/// `CachedFailure` replays a failure remembered in the cache without a
/// new network attempt.
#[derive(Clone, Copy, Debug, PartialEq, Eq, Structural)]
pub enum FetchError {
    Transport,
    CachedFailure,
}

/// What the cache policy decided for one fetch: either the call is
/// already resolved (cached content, or a replayed cached failure), or
/// exactly one network attempt is owed.
#[derive(Debug, PartialEq, Eq)]
pub enum FetchStep {
    Resolved(Result<Vec<u8>, FetchError>),
    NeedFetch,
}

/// The bytes a fetched body or cache entry holds, if any.
pub open spec fn opt_bytes_view(e: Option<Vec<u8>>) -> Option<Seq<u8>> {
    match e {
        Option::Some(v) => Option::Some(v@),
        Option::None => Option::None,
    }
}

/// The abstract counterpart of `FetchStep`.
pub enum PlanSpec {
    UseCached(Seq<u8>),
    KnownFailure,
    NeedFetch,
}

/// What the policy says for a given cache entry and retry flag:
/// no entry means fetch; a failure marker means fail fast unless retry
/// is enabled; stored content is always trusted and returned.
pub open spec fn plan_of(entry: Option<Seq<u8>>, retry: bool) -> PlanSpec {
    match entry {
        Option::None => PlanSpec::NeedFetch,
        Option::Some(v) => if v == sentinel() {
            if retry {
                PlanSpec::NeedFetch
            } else {
                PlanSpec::KnownFailure
            }
        } else {
            PlanSpec::UseCached(v)
        },
    }
}

/// The entry a store holds for a URL, if any.
pub open spec fn entry_of(m: Map<Seq<char>, Seq<u8>>, url: Seq<char>) -> Option<Seq<u8>> {
    if m.contains_key(key_of(url)) {
        Option::Some(m[key_of(url)])
    } else {
        Option::None
    }
}

/// What the policy says for a URL against a whole store.
pub open spec fn plan_for(m: Map<Seq<char>, Seq<u8>>, url: Seq<char>, retry: bool) -> PlanSpec {
    plan_of(entry_of(m, url), retry)
}

/// The value the cache records for a completed attempt: the raw body
/// on success, the failure marker otherwise.
pub open spec fn stored_of(body: Option<Seq<u8>>) -> Seq<u8> {
    match body {
        Option::Some(b) => b,
        Option::None => sentinel(),
    }
}

/// The abstract reading of a `FetchStep`.
pub open spec fn step_view(s: FetchStep) -> PlanSpec {
    match s {
        FetchStep::Resolved(r) => match r {
            Result::Ok(v) => PlanSpec::UseCached(v@),
            Result::Err(_) => PlanSpec::KnownFailure,
        },
        FetchStep::NeedFetch => PlanSpec::NeedFetch,
    }
}

/// Applies the cache policy to one looked-up entry.
pub fn resolve_entry(entry: Option<Vec<u8>>, retry: bool) -> (r: FetchStep)
    ensures
        step_view(r) == plan_of(opt_bytes_view(entry), retry),
        (match r {
            FetchStep::Resolved(Result::Err(e)) => e == FetchError::CachedFailure,
            _ => true,
        }),
{
    match entry {
        Option::None => FetchStep::NeedFetch,
        Option::Some(v) => {
            if is_sentinel_value(&v) {
                if retry {
                    FetchStep::NeedFetch
                } else {
                    FetchStep::Resolved(Result::Err(FetchError::CachedFailure))
                }
            } else {
                FetchStep::Resolved(Result::Ok(v))
            }
        },
    }
}

/// First half of a fetch: consult the cache and apply the policy.
/// `NeedFetch` obliges the caller to one network attempt, whose result
/// goes to `fetch_finish`.
pub fn fetch_begin(cache: &Cache, url: &str, retry: bool) -> (r: FetchStep)
    ensures
        step_view(r) == plan_for(cache.contents(), url@, retry),
        (match r {
            FetchStep::Resolved(Result::Err(e)) => e == FetchError::CachedFailure,
            _ => true,
        }),
{
    let key = make_key(url);
    resolve_entry(cache.get(key.as_str()), retry)
}

/// Second half of a fetch: record the network outcome (`Some` raw body
/// for any reachable response, `None` for a transport failure) and
/// report it. The store is updated on every path.
pub fn fetch_finish(cache: &mut Cache, url: &str, body: Option<Vec<u8>>) -> (r: Result<
    Vec<u8>,
    FetchError,
>)
    ensures
        final(cache).contents() == old(cache).contents().insert(
            key_of(url@),
            stored_of(opt_bytes_view(body)),
        ),
        body matches Option::Some(b) ==> r == Result::<Vec<u8>, FetchError>::Ok(b),
        body is None ==> r == Result::<Vec<u8>, FetchError>::Err(FetchError::Transport),
{
    let key = make_key(url);
    match body {
        Option::Some(b) => {
            cache.put(key, clone_bytes(&b));
            Result::Ok(b)
        },
        Option::None => {
            cache.put(key, sentinel_bytes());
            Result::Err(FetchError::Transport)
        },
    }
}

/// A successful fetch's raw body, or the value to record for it.
pub fn stored_value(body: &Option<Vec<u8>>) -> (r: Vec<u8>)
    ensures
        r@ == stored_of(opt_bytes_view(*body)),
{
    match body {
        Option::Some(b) => clone_bytes(b),
        Option::None => sentinel_bytes(),
    }
}

/// The result a fetch reports for a network outcome: the raw body of
/// any reachable response is a success; a transport failure is an
/// error.
pub fn fetch_result(body: Option<Vec<u8>>) -> (r: Result<Vec<u8>, FetchError>)
    ensures
        body matches Option::Some(b) ==> r == Result::<Vec<u8>, FetchError>::Ok(b),
        body is None ==> r == Result::<Vec<u8>, FetchError>::Err(FetchError::Transport),
{
    match body {
        Option::Some(b) => Result::Ok(b),
        Option::None => Result::Err(FetchError::Transport),
    }
}

/// A stored success is authoritative: once content is recorded for a
/// URL, every later fetch of that URL resolves to that same content
/// from the cache alone, with or without retry, so it performs no
/// further network call.
pub proof fn lemma_success_is_stable(
    m: Map<Seq<char>, Seq<u8>>,
    url: Seq<char>,
    content: Seq<u8>,
    retry: bool,
)
    requires
        content != sentinel(),
    ensures
        plan_for(m.insert(key_of(url), content), url, retry) == PlanSpec::UseCached(content),
{
}

/// Failure memoization: once a failure is recorded for a URL, a fetch
/// with retry disabled resolves to a replayed failure from the cache
/// alone, with no new network attempt.
pub proof fn lemma_failure_memoized(m: Map<Seq<char>, Seq<u8>>, url: Seq<char>)
    ensures
        plan_for(m.insert(key_of(url), sentinel()), url, false) == PlanSpec::KnownFailure,
{
}

/// Retry override: for a URL whose cache entry is the failure marker,
/// a fetch with retry enabled ignores the cached failure and demands
/// exactly one new network attempt; recording that attempt's success
/// makes the new content authoritative for every later fetch.
pub proof fn lemma_retry_overrides(
    m: Map<Seq<char>, Seq<u8>>,
    url: Seq<char>,
    content: Seq<u8>,
    retry: bool,
)
    requires
        entry_of(m, url) == Option::Some(sentinel()),
        content != sentinel(),
    ensures
        plan_for(m, url, true) == PlanSpec::NeedFetch,
        plan_for(m.insert(key_of(url), content), url, retry) == PlanSpec::UseCached(content),
{
}

} // verus!
