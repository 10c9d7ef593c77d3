use guitar_tools::comparator::compare;
use guitar_tools::comparator::TuningClassification;
use guitar_tools::estimator::find_greatest;
use guitar_tools::estimator::FundamentalEstimator;
use guitar_tools::estimator::HARMONIC_GUARD;
use guitar_tools::pipeline::tune_by_recording;
use guitar_tools::spectrum::Spectrum;
use guitar_tools::Note;

#[test]
fn note_frequency_table() {
    assert_eq!(Note::E2.frequency(), 82);
    assert_eq!(Note::A2.frequency(), 110);
    assert_eq!(Note::D3.frequency(), 147);
    assert_eq!(Note::G3.frequency(), 196);
    assert_eq!(Note::B3.frequency(), 247);
    assert_eq!(Note::E4.frequency(), 330);
    assert_eq!(Note::E2F.frequency(), 78);
    assert_eq!(Note::D2.frequency(), 73);
    assert_eq!(Note::A3.frequency(), 220);
    assert_eq!(Note::G3S.frequency(), 208);
    assert_eq!(Note::B2.frequency(), 123);
}

#[test]
fn find_greatest_picks_peak_bin() {
    let mut bins = vec![0u64; 200];
    bins[82] = 5_000;
    bins[40] = 1_000;
    bins[110] = 4_999;
    assert_eq!(find_greatest(bins, Note::E2), 82);
}

#[test]
fn find_greatest_ties_resolve_to_first_index() {
    let bins = vec![0u64, 7, 7, 3];
    assert_eq!(find_greatest(bins, Note::E2), 1);
}

#[test]
fn find_greatest_empty_spectrum_returns_zero() {
    let bins: Vec<u64> = vec![];
    assert_eq!(find_greatest(bins, Note::E2), 0);
}

#[test]
fn find_greatest_all_zero_returns_zero() {
    let bins = vec![0u64; 300];
    assert_eq!(find_greatest(bins, Note::A2), 0);
}

#[test]
fn harmonic_guard_excludes_limit_and_beyond() {
    // Target E2: the window ends at 82 * 2 - 20 = 144. A global maximum at
    // the limit, and another beyond it, must both be passed over.
    assert_eq!(HARMONIC_GUARD, 20);
    let mut bins = vec![0u64; 200];
    bins[82] = 10;
    bins[144] = 1_000_000;
    bins[164] = 2_000_000;
    assert_eq!(find_greatest(bins, Note::E2), 82);
}

#[test]
fn harmonic_guard_with_no_energy_below_limit() {
    // All energy sits at or beyond the window: the estimator reports bin 0
    // (no energy found) rather than the out-of-window maximum.
    let mut bins = vec![0u64; 200];
    bins[150] = 5_000;
    assert_eq!(find_greatest(bins, Note::E2), 0);
}

#[test]
fn estimator_honors_custom_guard() {
    // Guard 40 on E2 ends the window at 124: bin 130 is out, bin 100 wins.
    let mut bins = vec![0u64; 200];
    bins[130] = 9_000;
    bins[100] = 1_000;
    let estimator = FundamentalEstimator::new(40);
    let spectrum = Spectrum::new(bins);
    assert_eq!(estimator.estimate(&spectrum, Note::E2), 100);
}

#[test]
fn estimator_identical_inputs_identical_outputs() {
    let mut bins = vec![0u64; 180];
    bins[82] = 700;
    bins[96] = 650;
    let estimator = FundamentalEstimator::new(HARMONIC_GUARD);
    let spectrum = Spectrum::new(bins);
    let first = estimator.estimate(&spectrum, Note::E2);
    let second = estimator.estimate(&spectrum, Note::E2);
    assert_eq!(first, second);
    assert_eq!(first, 82);
}

#[test]
fn comparator_boundary_below() {
    let r = compare(Note::E2, 81);
    assert_eq!(r.target_hz, 82);
    assert_eq!(r.estimate_hz, 81);
    assert_eq!(r.classification, TuningClassification::TooLow);
    assert_eq!(
        r.report(),
        "Result: (Target Pitch: 82 Hz Recorded Pitch: 81 Hz): \"You should tighten your string!\""
    );
}

#[test]
fn comparator_boundary_equal() {
    let r = compare(Note::E2, 82);
    assert_eq!(r.classification, TuningClassification::InTune);
    assert_eq!(
        r.report(),
        "Result: (Target Pitch: 82 Hz Recorded Pitch: 82 Hz): \"Perfect!\""
    );
}

#[test]
fn comparator_boundary_above() {
    let r = compare(Note::E2, 83);
    assert_eq!(r.classification, TuningClassification::TooHigh);
    assert_eq!(
        r.report(),
        "Result: (Target Pitch: 82 Hz Recorded Pitch: 83 Hz): \"You should loosen your string!\""
    );
}

#[test]
fn report_renders_multi_digit_and_zero() {
    let r = compare(Note::E4, 0);
    assert_eq!(
        r.report(),
        "Result: (Target Pitch: 330 Hz Recorded Pitch: 0 Hz): \"You should tighten your string!\""
    );
}

#[test]
fn tune_by_recording_synthetic_spectrum() {
    let mut bins = vec![0u64; 250];
    bins[110] = 80_000;
    bins[55] = 20_000;
    let report = tune_by_recording(bins, Note::A2);
    assert_eq!(
        report,
        "Result: (Target Pitch: 110 Hz Recorded Pitch: 110 Hz): \"Perfect!\""
    );
}
