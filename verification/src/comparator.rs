use vstd::prelude::*;

use crate::decimal::decimal_seq;
use crate::decimal::push_decimal;
use crate::notes::note_frequency;
use crate::notes::Note;

verus! {

/// How the estimate stands relative to the target frequency: strictly below,
/// strictly above, or exactly at it.
#[derive(Copy, Clone, PartialEq, Eq, Structural, Debug)]
pub enum TuningClassification {
    TooLow,
    TooHigh,
    InTune,
}

/// The comparator's classification: a strict comparison with no tolerance
/// band.
pub open spec fn classify(target_hz: u32, estimate_hz: u32) -> TuningClassification {
    if estimate_hz < target_hz {
        TuningClassification::TooLow
    } else if target_hz < estimate_hz {
        TuningClassification::TooHigh
    } else {
        TuningClassification::InTune
    }
}

/// Verdict text shown for a classification. The advice keeps the direction
/// the tuner has always shown: an estimate above the target answers "loosen",
/// one below answers "tighten".
pub open spec fn verdict_seq(c: TuningClassification) -> Seq<char> {
    match c {
        TuningClassification::TooLow => "\"You should tighten your string!\""@,
        TuningClassification::TooHigh => "\"You should loosen your string!\""@,
        TuningClassification::InTune => "\"Perfect!\""@,
    }
}

/// The single report line handed to the caller for display.
pub open spec fn report_seq(target_hz: u32, estimate_hz: u32, c: TuningClassification) -> Seq<
    char,
> {
    "Result: (Target Pitch: "@ + decimal_seq(target_hz as nat) + " Hz Recorded Pitch: "@
        + decimal_seq(estimate_hz as nat) + " Hz): "@ + verdict_seq(c)
}

/// Outcome of one comparison: the target's frequency, the estimate (a bin
/// index read as whole Hz), and the classification.
#[derive(Copy, Clone, PartialEq, Eq, Structural, Debug)]
pub struct TuningResult {
    pub target_hz: u32,
    pub estimate_hz: u32,
    pub classification: TuningClassification,
}

impl TuningResult {
    /// A result is well formed when its classification agrees with its two
    /// frequencies.
    pub open spec fn wf(self) -> bool {
        self.classification == classify(self.target_hz, self.estimate_hz)
    }

    /// Verdict text for this result's classification.
    pub fn verdict(&self) -> (v: &str)
        ensures
            v@ == verdict_seq(self.classification),
    {
        match self.classification {
            TuningClassification::TooLow => "\"You should tighten your string!\"",
            TuningClassification::TooHigh => "\"You should loosen your string!\"",
            TuningClassification::InTune => "\"Perfect!\"",
        }
    }

    /// Renders the report line:
    /// `Result: (Target Pitch: <N> Hz Recorded Pitch: <M> Hz): "<verdict>"`.
    pub fn report(&self) -> (s: String)
        ensures
            s@ == report_seq(self.target_hz, self.estimate_hz, self.classification),
    {
        let mut s = String::from_str("Result: (Target Pitch: ");
        push_decimal(&mut s, self.target_hz);
        s.append(" Hz Recorded Pitch: ");
        push_decimal(&mut s, self.estimate_hz);
        s.append(" Hz): ");
        s.append(self.verdict());
        s
    }
}

/// Compares the estimated frequency to the target note's frequency. Purely
/// comparative and always succeeds: it never rejects an estimate, it only
/// classifies it.
pub fn compare(target: Note, estimate_hz: u32) -> (r: TuningResult)
    ensures
        r.target_hz == note_frequency(target),
        r.estimate_hz == estimate_hz,
        r.wf(),
{
    let target_hz = target.frequency();
    let classification = if estimate_hz < target_hz {
        TuningClassification::TooLow
    } else if target_hz < estimate_hz {
        TuningClassification::TooHigh
    } else {
        TuningClassification::InTune
    };
    TuningResult { target_hz, estimate_hz, classification }
}

/// Classification law, boundary cases included: an estimate strictly below
/// the target classifies as too low and answers "tighten", one strictly above
/// classifies as too high and answers "loosen", and exact equality answers
/// "Perfect!".
pub proof fn lemma_comparator_classification(target_hz: u32, estimate_hz: u32)
    ensures
        estimate_hz < target_hz ==> classify(target_hz, estimate_hz)
            == TuningClassification::TooLow,
        estimate_hz > target_hz ==> classify(target_hz, estimate_hz)
            == TuningClassification::TooHigh,
        estimate_hz == target_hz ==> classify(target_hz, estimate_hz)
            == TuningClassification::InTune,
        estimate_hz < target_hz ==> verdict_seq(classify(target_hz, estimate_hz))
            == "\"You should tighten your string!\""@,
        estimate_hz > target_hz ==> verdict_seq(classify(target_hz, estimate_hz))
            == "\"You should loosen your string!\""@,
        estimate_hz == target_hz ==> verdict_seq(classify(target_hz, estimate_hz))
            == "\"Perfect!\""@,
{
}

} // verus!
