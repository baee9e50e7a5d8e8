//! When the band-limiting filter cutoffs must be recomputed.
//!
//! The cutoffs are a function of the pitch ratio and the sample rate. The
//! schedule remembers the ratio, as the bit pattern of its `f64`, for which
//! the current cutoffs were computed; it is stale when it remembers none.
use vstd::prelude::*;

verus! {

/// Whether cutoffs computed for `cached` are wrong for the ratio `ratio`.
pub open spec fn is_stale(cached: Option<u64>, ratio: u64) -> bool {
    cached != Some(ratio)
}

/// How many recomputations a run of per-sample ratios causes, starting from `cached`.
pub open spec fn recomputations(cached: Option<u64>, ratios: Seq<u64>) -> nat
    decreases ratios.len(),
{
    if ratios.len() == 0 {
        0
    } else {
        (if is_stale(cached, ratios[0]) { 1nat } else { 0nat }) + recomputations(
            Some(ratios[0]),
            ratios.drop_first(),
        )
    }
}

/// The ratio for which the filter cutoffs are current, if any.
pub struct CutoffSchedule {
    cached: Option<u64>,
}

impl View for CutoffSchedule {
    type V = Option<u64>;

    closed spec fn view(&self) -> Option<u64> {
        self.cached
    }
}

impl CutoffSchedule {
    /// A schedule with no cutoffs yet, so that the first ratio recomputes.
    pub fn new() -> (r: Self)
        ensures
            r@ is None,
    {
        CutoffSchedule { cached: None }
    }

    /// Marks the cutoffs stale, as a change of sample rate must.
    pub fn invalidate(&mut self)
        ensures
            final(self)@ is None,
    {
        self.cached = None;
    }

    /// The ratio for which the cutoffs are current.
    pub fn cached_ratio(&self) -> (r: Option<u64>)
        ensures
            r == self@,
    {
        self.cached
    }

    /// Whether the cutoffs must be recomputed for `ratio`.
    pub fn is_stale(&self, ratio: u64) -> (r: bool)
        ensures
            r == is_stale(self@, ratio),
    {
        match self.cached {
            Some(c) => c != ratio,
            None => true,
        }
    }

    /// Records `ratio` as current and says whether the cutoffs must be
    /// recomputed for it.
    pub fn update(&mut self, ratio: u64) -> (recompute: bool)
        ensures
            recompute == is_stale(old(self)@, ratio),
            final(self)@ == Some(ratio),
    {
        let recompute = self.is_stale(ratio);
        self.cached = Some(ratio);
        recompute
    }
}

/// Holding the ratio constant over any run of samples recomputes the cutoffs
/// at most once, and not at all when they are already current for it.
pub proof fn lemma_constant_ratio_recomputes_at_most_once(
    cached: Option<u64>,
    ratio: u64,
    ratios: Seq<u64>,
)
    requires
        forall|i: int| 0 <= i < ratios.len() ==> ratios[i] == ratio,
    ensures
        recomputations(cached, ratios) <= 1,
        cached == Some(ratio) ==> recomputations(cached, ratios) == 0,
    decreases ratios.len(),
{
    if ratios.len() > 0 {
        let rest = ratios.drop_first();
        assert forall|i: int| 0 <= i < rest.len() implies rest[i] == ratio by {
            assert(rest[i] == ratios[i + 1]);
        }
        lemma_constant_ratio_recomputes_at_most_once(Some(ratio), ratio, rest);
    }
}

} // verus!
