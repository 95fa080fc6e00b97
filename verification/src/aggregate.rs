//! The destination aggregator: explicit command-line destinations, an
//! occurrence-counted synthesized default, and injected configuration
//! destinations become one deduplicated set of canonical paths.
//!
//! [`Aggregator::new`] lays the raw destinations out in resolution order and
//! synthesizes at most one default destination; the embedding binary then
//! resolves them one at a time (through the normalizer) and feeds each
//! result back with [`Aggregator::push_result`]. Deduplication is by
//! resolved canonical path, never by the raw text; the first failure aborts
//! the whole aggregation.

use vstd::prelude::*;
use crate::error::SetupError;
use crate::timestamp::{default_log_filename, synthesize_datetime_log_filename};

verus! {

/// A set of canonical paths: unique by value, in first-insertion order.
pub struct DestinationSet {
    paths: Vec<String>,
}

impl View for DestinationSet {
    type V = Seq<Seq<char>>;

    closed spec fn view(&self) -> Seq<Seq<char>> {
        self.paths.deep_view()
    }
}

impl DestinationSet {
    /// Well-formedness: a set never holds the same canonical path twice.
    /// Constructors establish this and `insert` preserves it.
    pub open spec fn wf(&self) -> bool {
        self@.no_duplicates()
    }

    /// The empty set.
    pub fn new() -> (s: DestinationSet)
        ensures
            s@ == Seq::<Seq<char>>::empty(),
            s.wf(),
    {
        let s = DestinationSet { paths: Vec::new() };
        proof {
            assert(s@ =~= Seq::<Seq<char>>::empty());
        }
        s
    }

    /// How many distinct canonical paths the set holds.
    pub fn len(&self) -> (n: usize)
        ensures
            n == self@.len(),
    {
        self.paths.len()
    }

    /// Whether the set holds no path.
    pub fn is_empty(&self) -> (b: bool)
        ensures
            b == (self@.len() == 0),
    {
        self.paths.len() == 0
    }

    /// Whether `p` is already in the set.
    pub fn contains_path(&self, p: &String) -> (b: bool)
        ensures
            b == self@.contains(p@),
    {
        let n = self.paths.len();
        let mut i: usize = 0;
        while i < n
            invariant
                i <= n == self@.len(),
                self@.len() == self.paths@.len(),
                forall|j: int| 0 <= j < i ==> self@[j] != p@,
            decreases n - i,
        {
            if self.paths[i] == *p {
                proof {
                    assert(self@[i as int] == p@);
                }
                return true;
            }
            i = i + 1;
        }
        false
    }

    /// Inserts a canonical path unless an equal one is already there.
    pub fn insert(&mut self, p: String)
        ensures
            final(self)@ == if old(self)@.contains(p@) {
                old(self)@
            } else {
                old(self)@.push(p@)
            },
            old(self).wf() ==> final(self).wf(),
            final(self)@.contains(p@),
    {
        let ghost pv = p@;
        if !self.contains_path(&p) {
            self.paths.push(p);
            proof {
                assert(self@ =~~= old(self)@.push(pv));
            }
        }
        proof {
            if old(self)@.contains(pv) {
                let i = choose|i: int| 0 <= i < old(self)@.len() && old(self)@[i] == pv;
                assert(self@[i] == pv);
            } else {
                assert(self@[self@.len() - 1] == pv);
            }
        }
    }

    /// The path at insertion position `i`.
    pub fn path_at(&self, i: usize) -> (r: &String)
        requires
            i < self@.len(),
        ensures
            r@ == self@[i as int],
    {
        &self.paths[i]
    }
}

/// How often `p` occurs in `v`.
pub open spec fn count_matches(v: Seq<Seq<char>>, p: Seq<char>) -> int
    decreases v.len(),
{
    if v.len() == 0 {
        0
    } else {
        count_matches(v.drop_last(), p) + if v.last() == p {
            1int
        } else {
            0int
        }
    }
}

/// Cross-source deduplication: however many raw destinations resolved to a
/// canonical path, a duplicate-free sequence, such as a [`DestinationSet`]
/// always is, holds exactly one entry for it.
pub proof fn lemma_cross_source_dedup(v: Seq<Seq<char>>, p: Seq<char>)
    requires
        v.no_duplicates(),
    ensures
        count_matches(v, p) == if v.contains(p) {
            1int
        } else {
            0int
        },
    decreases v.len(),
{
    if v.len() > 0 {
        let d = v.drop_last();
        assert(d.no_duplicates());
        lemma_cross_source_dedup(d, p);
        if v.last() == p {
            assert(!d.contains(p)) by {
                if d.contains(p) {
                    let i = choose|i: int| 0 <= i < d.len() && d[i] == p;
                    assert(v[i] == v[v.len() - 1]);
                }
            }
        } else {
            if d.contains(p) {
                let i = choose|i: int| 0 <= i < d.len() && d[i] == p;
                assert(v[i] == p);
            }
            if v.contains(p) {
                let i = choose|i: int| 0 <= i < v.len() && v[i] == p;
                assert(i < v.len() - 1);
                assert(d[i] == p);
            }
        }
    }
}

/// The raw destinations one aggregation resolves, in order: the explicit
/// values first, then exactly one synthesized default destination when the
/// flag occurred more often than it carried values, then the injected
/// destinations.
pub open spec fn planned_raws(
    explicit: Seq<Seq<char>>,
    occurrence_count: int,
    injected: Seq<Seq<char>>,
    ts: Seq<char>,
) -> Seq<Seq<char>> {
    if occurrence_count > explicit.len() {
        explicit.push(default_log_filename(ts)) + injected
    } else {
        explicit + injected
    }
}

/// Default-synthesis counting: the aggregation gains exactly one
/// synthesized default destination when the flag occurred more often than
/// it carried explicit values, and none otherwise, however large the
/// difference is.
pub proof fn lemma_default_synthesis_counting(
    explicit: Seq<Seq<char>>,
    k1: int,
    k2: int,
    injected: Seq<Seq<char>>,
    ts: Seq<char>,
)
    ensures
        k1 <= explicit.len() ==> planned_raws(explicit, k1, injected, ts).len() == explicit.len()
            + injected.len(),
        k1 > explicit.len() ==> planned_raws(explicit, k1, injected, ts).len() == explicit.len() + 1
            + injected.len() && planned_raws(explicit, k1, injected, ts)[explicit.len() as int]
            == default_log_filename(ts),
        k1 > explicit.len() && k2 > explicit.len() ==> planned_raws(explicit, k1, injected, ts)
            == planned_raws(explicit, k2, injected, ts),
{
}

/// One aggregation run: the planned raw destinations, how far resolution
/// has come, the canonical paths resolved so far, and the first failure if
/// one occurred.
pub struct Aggregator {
    raws: Vec<String>,
    next: usize,
    resolved: DestinationSet,
    failure: Option<SetupError>,
}

impl Aggregator {
    /// The planned raw destinations, in resolution order.
    pub closed spec fn raws(&self) -> Seq<Seq<char>> {
        self.raws.deep_view()
    }

    /// How many raw destinations have been resolved.
    pub closed spec fn next_index(&self) -> int {
        self.next as int
    }

    /// The canonical paths resolved so far, deduplicated.
    pub closed spec fn resolved_paths(&self) -> Seq<Seq<char>> {
        self.resolved@
    }

    /// The first failure, if resolution has failed.
    pub closed spec fn failure_err(&self) -> Option<SetupError> {
        self.failure
    }

    /// Whether the run is over: every entry resolved, or one failed.
    pub open spec fn done(&self) -> bool {
        self.failure_err() is Some || self.next_index() == self.raws().len()
    }

    /// Well-formedness: resolution never runs past the plan, and the
    /// resolved paths stay duplicate-free. `new` establishes this and
    /// `push_result` preserves it.
    pub open spec fn wf(&self) -> bool {
        &&& self.next_index() <= self.raws().len()
        &&& self.resolved_paths().no_duplicates()
    }

    /// Lays out one aggregation run. The explicit values come first; when
    /// the flag occurred more often than it carried values, exactly one
    /// synthesized default destination follows, never more; the injected
    /// destinations come last.
    pub fn new(
        explicit: Vec<String>,
        occurrence_count: u64,
        injected: Vec<String>,
        datetime: &str,
    ) -> (a: Aggregator)
        ensures
            a.raws() == planned_raws(
                explicit.deep_view(),
                occurrence_count as int,
                injected.deep_view(),
                datetime@,
            ),
            a.next_index() == 0,
            a.resolved_paths() == Seq::<Seq<char>>::empty(),
            a.failure_err() is None,
            a.wf(),
    {
        let ghost evs = explicit.deep_view();
        let ghost ivs = injected.deep_view();
        let mut raws = explicit;
        if (raws.len() as u64) < occurrence_count {
            raws.push(synthesize_datetime_log_filename(datetime));
        }
        let ghost base_v: Seq<String> = raws@;
        let n = injected.len();
        let mut k: usize = 0;
        proof {
            assert(base_v + injected@.take(0) =~= base_v);
        }
        while k < n
            invariant
                k <= n == injected@.len(),
                raws@ == base_v + injected@.take(k as int),
            decreases n - k,
        {
            raws.push(injected[k].clone());
            k = k + 1;
            proof {
                assert(raws@ =~= base_v + injected@.take(k as int));
            }
        }
        proof {
            assert(injected@.take(n as int) =~= injected@);
            let goal = planned_raws(evs, occurrence_count as int, ivs, datetime@);
            assert forall|i: int| 0 <= i < raws@.len() implies #[trigger] raws.deep_view()[i]
                == raws@[i]@ by {}
            assert forall|i: int| 0 <= i < injected@.len() implies #[trigger] ivs[i]
                == injected@[i]@ by {}
            assert(raws.deep_view() =~~= goal);
        }
        Aggregator { raws, next: 0, resolved: DestinationSet::new(), failure: None }
    }

    /// The next raw destination to resolve, or `None` when the run is over.
    pub fn peek_next(&self) -> (r: Option<String>)
        requires
            self.wf(),
        ensures
            match r {
                Some(s) => !self.done() && s@ == self.raws()[self.next_index()],
                None => self.done(),
            },
    {
        if self.failure.is_some() {
            return None;
        }
        if self.next < self.raws.len() {
            Some(self.raws[self.next].clone())
        } else {
            None
        }
    }

    /// Records the resolution of the current raw destination. A canonical
    /// path joins the set unless an equal one is already there; an error
    /// aborts the run, and the first error is kept.
    pub fn push_result(&mut self, r: Result<String, SetupError>)
        requires
            !old(self).done(),
            old(self).wf(),
        ensures
            final(self).raws() == old(self).raws(),
            final(self).wf(),
            match r {
                Ok(c) => {
                    &&& final(self).next_index() == old(self).next_index() + 1
                    &&& final(self).failure_err() is None
                    &&& final(self).resolved_paths() == if old(self).resolved_paths().contains(c@) {
                        old(self).resolved_paths()
                    } else {
                        old(self).resolved_paths().push(c@)
                    }
                    &&& final(self).resolved_paths().contains(c@)
                },
                Err(e) => {
                    &&& final(self).failure_err() == Some(e)
                    &&& final(self).next_index() == old(self).next_index()
                    &&& final(self).resolved_paths() == old(self).resolved_paths()
                },
            },
    {
        match r {
            Ok(c) => {
                let planned = self.raws.len();
                self.resolved.insert(c);
                if self.next < planned {
                    self.next = self.next + 1;
                }
            },
            Err(e) => {
                self.failure = Some(e);
            },
        }
    }

    /// The aggregation's outcome: the deduplicated destination set, or the
    /// first error. Partial results are never handed out.
    pub fn into_destinations(self) -> (r: Result<DestinationSet, SetupError>)
        ensures
            match self.failure_err() {
                Some(e) => r matches Err(e2) && e2 == e,
                None => r matches Ok(d) && d@ == self.resolved_paths() && (self.wf() ==> d.wf()),
            },
    {
        match self.failure {
            Some(e) => Err(e),
            None => Ok(self.resolved),
        }
    }
}

} // verus!
