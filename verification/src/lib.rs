//! Core of a guitar-tuning aid: a note catalog, a magnitude spectrum,
//! a harmonic-guarded fundamental-frequency estimator, and a comparator
//! that tells the player whether to loosen or tighten the string.

pub mod comparator;
pub mod decimal;
pub mod estimator;
pub mod notes;
pub mod pipeline;
pub mod spectrum;

pub use notes::Note;
