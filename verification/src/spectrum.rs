use vstd::prelude::*;

verus! {

/// A magnitude spectrum: one non-negative magnitude per frequency bin, where
/// bin `i` corresponds approximately to `i * sample_rate / clip_length` Hz.
///
/// Magnitudes are carried as fixed-point integers (the caller scales the
/// transform's real magnitudes by a constant factor before wrapping them
/// here); the estimator only compares bins against each other, so any common
/// positive scale gives the same result.
pub struct Spectrum {
    bins: Vec<u64>,
}

impl View for Spectrum {
    type V = Seq<u64>;

    closed spec fn view(&self) -> Seq<u64> {
        self.bins@
    }
}

impl Spectrum {
    /// Wraps a sequence of per-bin magnitudes.
    pub fn new(bins: Vec<u64>) -> (s: Self)
        ensures
            s@ == bins@,
    {
        Spectrum { bins }
    }

    /// Number of frequency bins.
    pub fn len(&self) -> (n: usize)
        ensures
            n == self@.len(),
    {
        self.bins.len()
    }

    /// Magnitude of bin `i`.
    pub fn bin(&self, i: usize) -> (m: u64)
        requires
            i < self@.len(),
        ensures
            m == self@[i as int],
    {
        self.bins[i]
    }
}

} // verus!
