use vstd::prelude::*;

use crate::comparator::classify;
use crate::comparator::compare;
use crate::comparator::report_seq;
use crate::estimator::estimated_bin;
use crate::estimator::find_greatest;
use crate::estimator::lemma_harmonic_guard;
use crate::notes::lemma_note_frequency_range;
use crate::notes::note_frequency;
use crate::notes::Note;

verus! {

/// The report line produced for a magnitude spectrum and a target note: the
/// estimated bin (read as whole Hz) compared against the note's frequency.
pub open spec fn tuning_report(s: Seq<u64>, note: Note) -> Seq<char> {
    report_seq(
        note_frequency(note),
        estimated_bin(s, note) as u32,
        classify(note_frequency(note), estimated_bin(s, note) as u32),
    )
}

/// Runs the analysis half of one "tune this string" request: estimates the
/// fundamental from an already-computed magnitude spectrum, compares it to
/// the target note, and renders the report line. Recording the clip and
/// transforming it into the spectrum are the caller's side of the split; this
/// function owns every decision made after the transform.
pub fn tune_by_recording(spectrum: Vec<u64>, note: Note) -> (result: String)
    ensures
        result@ == tuning_report(spectrum@, note),
{
    proof {
        lemma_note_frequency_range(note);
        lemma_harmonic_guard(spectrum@, note);
    }
    let index = find_greatest(spectrum, note);
    let outcome = compare(note, index as u32);
    outcome.report()
}

} // verus!
