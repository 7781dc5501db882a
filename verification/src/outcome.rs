//! Classification of each task's result, and the aggregator that
//! partitions completion signals into the three outcome buckets.

use vstd::prelude::*;

use crate::fetch::FetchError;
use crate::matcher::Matcher;
use crate::matcher::regex_match;

verus! {

/// Exactly one classification per dispatched task: the URL either
/// matched, did not match, or its fetch errored.
#[derive(Debug, PartialEq, Eq)]
pub enum Classification {
    Match(String),
    NoMatch(String),
    Error(String),
}

impl Classification {
    /// An owned copy of this signal.
    pub fn duplicate(&self) -> (r: Classification)
        ensures
            r == *self,
    {
        match self {
            Classification::Match(u) => Classification::Match(u.clone()),
            Classification::NoMatch(u) => Classification::NoMatch(u.clone()),
            Classification::Error(u) => Classification::Error(u.clone()),
        }
    }
}

/// How one task's fetch result is classified: matched content, content
/// without a match, or a per-URL error.
pub open spec fn classification_of(
    pattern: Seq<char>,
    case_insensitive: bool,
    url: String,
    fetched: Result<Vec<u8>, FetchError>,
) -> Classification {
    match fetched {
        Result::Ok(b) => if regex_match(pattern, case_insensitive, b@) {
            Classification::Match(url)
        } else {
            Classification::NoMatch(url)
        },
        Result::Err(_) => Classification::Error(url),
    }
}

/// Runs the classifier over one fetch result and emits the task's
/// single completion signal.
pub fn classify_fetch(m: &Matcher, url: String, fetched: &Result<Vec<u8>, FetchError>) -> (r:
    Classification)
    ensures
        r == classification_of(m.spec_pattern(), m.spec_ci(), url, *fetched),
{
    match fetched {
        Result::Ok(b) => {
            if m.is_match(b.as_slice()) {
                Classification::Match(url)
            } else {
                Classification::NoMatch(url)
            }
        },
        Result::Err(_) => Classification::Error(url),
    }
}

/// The URLs of the signals classified as matches, in arrival order.
pub open spec fn matched_of(s: Seq<Classification>) -> Seq<String>
    decreases s.len(),
{
    if s.len() == 0 {
        Seq::empty()
    } else {
        let rest = matched_of(s.drop_last());
        match s.last() {
            Classification::Match(u) => rest.push(u),
            _ => rest,
        }
    }
}

/// The URLs of the signals classified as non-matches, in arrival order.
pub open spec fn no_matched_of(s: Seq<Classification>) -> Seq<String>
    decreases s.len(),
{
    if s.len() == 0 {
        Seq::empty()
    } else {
        let rest = no_matched_of(s.drop_last());
        match s.last() {
            Classification::NoMatch(u) => rest.push(u),
            _ => rest,
        }
    }
}

/// The URLs of the signals classified as errors, in arrival order.
pub open spec fn errored_of(s: Seq<Classification>) -> Seq<String>
    decreases s.len(),
{
    if s.len() == 0 {
        Seq::empty()
    } else {
        let rest = errored_of(s.drop_last());
        match s.last() {
            Classification::Error(u) => rest.push(u),
            _ => rest,
        }
    }
}

/// Every task contributes exactly one entry to exactly one bucket, so
/// the three buckets together hold as many entries as there were
/// dispatched tasks.
pub proof fn lemma_partition_total(s: Seq<Classification>)
    ensures
        matched_of(s).len() + no_matched_of(s).len() + errored_of(s).len() == s.len(),
    decreases s.len(),
{
    if s.len() > 0 {
        lemma_partition_total(s.drop_last());
    }
}

/// The three outcome buckets, each in arrival order, with no
/// deduplication: a URL submitted several times yields one independent
/// entry per attempt.
#[derive(Debug)]
pub struct ResultSet {
    pub matches: Vec<String>,
    pub no_matches: Vec<String>,
    pub errors: Vec<String>,
}

impl ResultSet {
    /// Three empty buckets.
    pub fn new() -> (r: ResultSet)
        ensures
            r.matches@ == Seq::<String>::empty(),
            r.no_matches@ == Seq::<String>::empty(),
            r.errors@ == Seq::<String>::empty(),
    {
        ResultSet { matches: Vec::new(), no_matches: Vec::new(), errors: Vec::new() }
    }

    /// Consumes one completion signal, appending its URL to the bucket
    /// its tag selects and leaving the other buckets unchanged.
    pub fn record(&mut self, c: Classification)
        ensures
            (match c {
                Classification::Match(u) => {
                    &&& final(self).matches@ == old(self).matches@.push(u)
                    &&& final(self).no_matches@ == old(self).no_matches@
                    &&& final(self).errors@ == old(self).errors@
                },
                Classification::NoMatch(u) => {
                    &&& final(self).no_matches@ == old(self).no_matches@.push(u)
                    &&& final(self).matches@ == old(self).matches@
                    &&& final(self).errors@ == old(self).errors@
                },
                Classification::Error(u) => {
                    &&& final(self).errors@ == old(self).errors@.push(u)
                    &&& final(self).matches@ == old(self).matches@
                    &&& final(self).no_matches@ == old(self).no_matches@
                },
            }),
    {
        match c {
            Classification::Match(u) => self.matches.push(u),
            Classification::NoMatch(u) => self.no_matches.push(u),
            Classification::Error(u) => self.errors.push(u),
        }
    }
}

/// Drains a whole run's completion signals, one per dispatched task,
/// and partitions them by tag into the three buckets.
pub fn partition(signals: &Vec<Classification>) -> (r: ResultSet)
    ensures
        r.matches@ == matched_of(signals@),
        r.no_matches@ == no_matched_of(signals@),
        r.errors@ == errored_of(signals@),
        r.matches@.len() + r.no_matches@.len() + r.errors@.len() == signals@.len(),
{
    let mut rs = ResultSet::new();
    let mut i: usize = 0;
    while i < signals.len()
        invariant
            i <= signals.len(),
            rs.matches@ == matched_of(signals@.take(i as int)),
            rs.no_matches@ == no_matched_of(signals@.take(i as int)),
            rs.errors@ == errored_of(signals@.take(i as int)),
        decreases signals.len() - i,
    {
        proof {
            assert(signals@.take(i + 1).drop_last() =~= signals@.take(i as int));
            assert(signals@.take(i + 1).last() == signals@[i as int]);
        }
        rs.record(signals[i].duplicate());
        i = i + 1;
    }
    proof {
        assert(signals@.take(signals@.len() as int) =~= signals@);
        lemma_partition_total(signals@);
    }
    rs
}

} // verus!
