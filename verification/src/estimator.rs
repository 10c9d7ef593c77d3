use vstd::prelude::*;

use crate::notes::lemma_note_frequency_range;
use crate::notes::note_frequency;
use crate::notes::Note;
use crate::spectrum::Spectrum;

verus! {

/// Fixed margin, in bins, subtracted from twice the target frequency. The
/// scan stays strictly below the second harmonic of the target note, so that
/// overtone energy cannot win over the fundamental when the string is already
/// close to pitch.
pub const HARMONIC_GUARD: u32 = 20;

/// Exclusive upper bound on the bin indices a scan for `target` under margin
/// `guard` may select.
pub open spec fn search_limit(target: Note, guard: u32) -> int {
    2 * note_frequency(target) - guard
}

/// Length of the scanned prefix of the spectrum: the search limit, capped by
/// the number of bins actually present.
pub open spec fn window_len(s: Seq<u64>, limit: int) -> int {
    if limit <= s.len() {
        limit
    } else {
        s.len() as int
    }
}

/// The bin the scan selects among the first `wl` bins of `s`: the first index
/// holding the greatest magnitude, or 0 when the window is empty or all zero
/// (the "no energy found" answer, which the caller must treat as unreliable).
pub open spec fn peak_of(s: Seq<u64>, wl: int) -> int
    decreases wl,
{
    if wl <= 1 {
        0
    } else {
        let p = peak_of(s, wl - 1);
        if s[wl - 1] > s[p] {
            wl - 1
        } else {
            p
        }
    }
}

/// What characterizes the selected bin `r` among the first `wl` bins of `s`:
/// it lies in the window, no bin of the window exceeds it, and every earlier
/// bin is strictly smaller (ties resolve to the lowest index). An empty
/// window selects 0.
pub open spec fn is_selected_peak(s: Seq<u64>, wl: int, r: int) -> bool {
    if wl <= 0 {
        r == 0
    } else {
        &&& 0 <= r < wl
        &&& forall|j: int| 0 <= j < wl ==> s[j] <= s[r]
        &&& forall|j: int| 0 <= j < r ==> s[j] < s[r]
    }
}

/// Bin index the estimator reports for spectrum `s` and note `target` under
/// the built-in harmonic guard.
pub open spec fn estimated_bin(s: Seq<u64>, target: Note) -> int {
    peak_of(s, window_len(s, search_limit(target, HARMONIC_GUARD)))
}

/// The selected bin is never negative, and lies inside the window whenever
/// the window is non-empty.
pub proof fn lemma_peak_of_in_window(s: Seq<u64>, wl: int)
    ensures
        0 <= peak_of(s, wl),
        wl >= 1 ==> peak_of(s, wl) < wl,
    decreases wl,
{
    if wl > 1 {
        lemma_peak_of_in_window(s, wl - 1);
    }
}

/// The scan's answer satisfies the selection predicate: it is a greatest bin
/// of the window, and the first such bin.
pub proof fn lemma_peak_of_selected(s: Seq<u64>, wl: int)
    requires
        wl <= s.len(),
    ensures
        is_selected_peak(s, wl, peak_of(s, wl)),
    decreases wl,
{
    if wl > 1 {
        lemma_peak_of_selected(s, wl - 1);
        lemma_peak_of_in_window(s, wl - 1);
    }
}

/// Determinism of the estimation stage: the selection predicate pins a single
/// index, so identical spectra scanned over identical windows always yield
/// identical estimates.
pub proof fn lemma_selected_peak_unique(s: Seq<u64>, wl: int, r1: int, r2: int)
    requires
        is_selected_peak(s, wl, r1),
        is_selected_peak(s, wl, r2),
    ensures
        r1 == r2,
{
    if wl > 0 {
        if r1 < r2 {
            assert(s[r1] < s[r2]);
            assert(s[r2] <= s[r1]);
        } else if r2 < r1 {
            assert(s[r2] < s[r1]);
            assert(s[r1] <= s[r2]);
        }
    }
}

/// Harmonic-guard law: whatever the magnitudes, the estimator never selects a
/// bin index at or beyond `target * 2 - HARMONIC_GUARD` — even a global
/// maximum placed there is passed over.
pub proof fn lemma_harmonic_guard(s: Seq<u64>, target: Note)
    ensures
        0 <= estimated_bin(s, target) < search_limit(target, HARMONIC_GUARD),
{
    lemma_note_frequency_range(target);
    let limit = search_limit(target, HARMONIC_GUARD);
    let wl = window_len(s, limit);
    lemma_peak_of_in_window(s, wl);
}

/// Pure-tone recovery at the logic level: when a single bin inside the search
/// window strictly dominates every other bin of the window, the estimator
/// returns exactly that bin. A noiseless tone below the search limit, whose
/// transform concentrates its energy in one bin, is therefore recovered.
pub proof fn lemma_dominant_bin_recovered(s: Seq<u64>, target: Note, b: int)
    requires
        0 <= b < window_len(s, search_limit(target, HARMONIC_GUARD)),
        forall|j: int|
            0 <= j < window_len(s, search_limit(target, HARMONIC_GUARD)) && j != b ==> s[j] < s[b],
    ensures
        estimated_bin(s, target) == b,
{
    let wl = window_len(s, search_limit(target, HARMONIC_GUARD));
    lemma_peak_of_selected(s, wl);
    assert(is_selected_peak(s, wl, b));
    lemma_selected_peak_unique(s, wl, estimated_bin(s, target), b);
}

/// Scans a magnitude spectrum for the fundamental of a target note, searching
/// only below the second harmonic of the target.
pub struct FundamentalEstimator {
    /// Margin, in bins, kept below the target's second harmonic.
    pub guard: u32,
}

impl FundamentalEstimator {
    /// An estimator with the given harmonic-guard margin.
    pub fn new(guard: u32) -> (e: Self)
        ensures
            e.guard == guard,
    {
        FundamentalEstimator { guard }
    }

    /// Returns the index of the first greatest-magnitude bin among the bins
    /// strictly below `target * 2 - guard`, or 0 when no bin in that window
    /// holds positive magnitude (an empty or silent spectrum is an unreliable
    /// estimate, not a measurement). The caller interprets the index directly
    /// as a frequency in Hz, which assumes bins of about 1 Hz (a one-second
    /// clip).
    pub fn estimate(&self, spectrum: &Spectrum, target: Note) -> (index: usize)
        requires
            self.guard < 2 * note_frequency(target),
        ensures
            index == peak_of(spectrum@, window_len(spectrum@, search_limit(target, self.guard))),
            index < search_limit(target, self.guard),
    {
        proof {
            lemma_note_frequency_range(target);
        }
        let f = target.frequency();
        let limit_hz: u32 = 2 * f - self.guard;
        let limit = limit_hz as usize;
        let n = spectrum.len();
        let wl = if limit < n {
            limit
        } else {
            n
        };
        let mut index: usize = 0;
        let mut greatest: u64 = 0;
        let mut i: usize = 0;
        while i < wl
            invariant
                wl == window_len(spectrum@, limit as int),
                limit as int == search_limit(target, self.guard),
                1 <= limit,
                wl <= spectrum@.len(),
                wl <= limit,
                i <= wl,
                index == peak_of(spectrum@, i as int),
                i == 0 ==> index == 0 && greatest == 0,
                i > 0 ==> index < i && greatest == spectrum@[index as int],
            decreases wl - i,
        {
            let x = spectrum.bin(i);
            if x > greatest {
                greatest = x;
                index = i;
            }
            i += 1;
        }
        index
    }
}

/// Finds the bin with the greatest magnitude among the bins strictly below
/// `target_note * 2 - HARMONIC_GUARD`, and returns its index; index 0 with no
/// energy found when the window is empty or silent.
pub fn find_greatest(data: Vec<u64>, target_note: Note) -> (index: usize)
    ensures
        index == estimated_bin(data@, target_note),
        index < search_limit(target_note, HARMONIC_GUARD),
{
    proof {
        lemma_note_frequency_range(target_note);
    }
    let estimator = FundamentalEstimator::new(HARMONIC_GUARD);
    let spectrum = Spectrum::new(data);
    estimator.estimate(&spectrum, target_note)
}

} // verus!
