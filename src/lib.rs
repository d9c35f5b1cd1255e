//! Music-theory drills: note names, major scales and diatonic seventh chords,
//! the quizzes built from them, and the grading of submitted answers.
use vstd::prelude::*;

pub mod grading;
pub mod quiz;
pub mod theory;

pub use grading::{answers_match, Game, ScaleDictation};
pub use quiz::{
    chord_function_game, chord_function_test, draw_chord_function, draw_note, draw_scale,
    notes_to_italian_test, sheet_note_game, sheet_note_test,
};
pub use theory::{get_note_index, ChordFunction, MajorScale, Note};

verus! {

} // verus!
