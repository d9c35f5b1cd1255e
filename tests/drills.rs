use music_drill::{
    answers_match, chord_function_game, chord_function_test, draw_chord_function, draw_note,
    draw_scale, notes_to_italian_test, sheet_note_game, sheet_note_test, ChordFunction, Game,
    MajorScale, Note, ScaleDictation,
};

const NOTES: [Note; 7] = [Note::A, Note::B, Note::C, Note::D, Note::E, Note::F, Note::G];
const SCALES: [MajorScale; 7] = [
    MajorScale::A,
    MajorScale::B,
    MajorScale::C,
    MajorScale::D,
    MajorScale::E,
    MajorScale::F,
    MajorScale::G,
];
const FUNCTIONS: [ChordFunction; 7] = [
    ChordFunction::I,
    ChordFunction::II,
    ChordFunction::III,
    ChordFunction::IV,
    ChordFunction::V,
    ChordFunction::VI,
    ChordFunction::VII,
];

fn answered(submitted: &str, expected: &str) -> bool {
    let mut game = Game::new(expected);
    game.user_answer = Some(String::from(submitted));
    game.check_answer()
}

#[test]
fn italian_names_are_aligned_with_letters() {
    let expected = [("A", "La"), ("B", "Si"), ("C", "Do"), ("D", "Re"), ("E", "Mi"), ("F", "Fa"), ("G", "Sol")];
    for (letter, italian) in expected {
        let game = notes_to_italian_test(letter).unwrap();
        assert_eq!(game.correct_answer, italian);
        assert!(game.user_answer.is_none());
    }
}

#[test]
fn unknown_letter_has_no_italian_name() {
    assert!(notes_to_italian_test("H").is_none());
    assert!(notes_to_italian_test("").is_none());
    assert!(notes_to_italian_test("a").is_none());
    assert!(notes_to_italian_test("AB").is_none());
}

#[test]
fn code_and_note_convert_both_ways() {
    for (i, note) in NOTES.iter().enumerate() {
        assert_eq!(note.ordinal(), i);
        assert_eq!(Note::from_repr(i), Some(*note));
        assert_eq!(Note::code_to_note(note.note_to_code()), Some(*note));
    }
    assert_eq!(Note::from_repr(7), None);
    assert_eq!(Note::code_to_note("X"), None);
}

#[test]
fn every_scale_has_seven_degrees_starting_at_its_tonic() {
    for (i, scale) in SCALES.iter().enumerate() {
        let degrees = scale.get_major_scale();
        assert_eq!(degrees.len(), 7);
        assert_eq!(degrees[0], NOTES[i].note_to_code());
        assert_eq!(MajorScale::from_repr(i), Some(*scale));
    }
    assert_eq!(MajorScale::from_repr(7), None);
    assert_eq!(*MajorScale::F.get_major_scale(), ["F", "G", "A", "Bb", "C", "D", "E"]);
    assert_eq!(*MajorScale::E.get_major_scale(), ["E", "F#", "G#", "A", "B", "C#", "D#"]);
}

#[test]
fn chord_qualities_follow_the_major_harmonisation() {
    let qualities = ["maj7", "m7", "m7", "maj7", "7", "m7", "m7b5"];
    for (i, f) in FUNCTIONS.iter().enumerate() {
        assert_eq!(f.chord_quality(), qualities[i]);
        assert_eq!(f.ordinal(), i);
        assert_eq!(ChordFunction::from_repr(i), Some(*f));
    }
    assert_eq!(ChordFunction::from_repr(9), None);
}

#[test]
fn chord_answers_join_root_and_quality() {
    assert_eq!(chord_function_game(MajorScale::A, ChordFunction::II).correct_answer, "Bm7");
    assert_eq!(chord_function_game(MajorScale::E, ChordFunction::III).correct_answer, "G#m7");
    assert_eq!(chord_function_game(MajorScale::F, ChordFunction::IV).correct_answer, "Bbmaj7");
    assert_eq!(chord_function_game(MajorScale::G, ChordFunction::V).correct_answer, "D7");
    assert_eq!(chord_function_game(MajorScale::B, ChordFunction::VII).correct_answer, "A#m7b5");
    assert_eq!(chord_function_game(MajorScale::D, ChordFunction::VII).correct_answer, "C#m7b5");
    assert_eq!(chord_function_game(MajorScale::C, ChordFunction::I).correct_answer, "Cmaj7");
    assert!(chord_function_game(MajorScale::C, ChordFunction::I).user_answer.is_none());
}

#[test]
fn single_function_filters_give_their_quality() {
    let roots: Vec<&str> = vec!["A", "B", "C", "D", "E", "F", "G", "A#", "C#", "D#", "F#", "G#", "Bb"];
    for _ in 0..50 {
        let tonic = chord_function_test(vec![0]).correct_answer;
        assert!(roots.iter().any(|r| tonic == format!("{}maj7", r)), "{}", tonic);
        let dominant = chord_function_test(vec![4]).correct_answer;
        assert!(roots.iter().any(|r| dominant == format!("{}7", r)), "{}", dominant);
        let leading = chord_function_test(vec![6]).correct_answer;
        assert!(roots.iter().any(|r| leading == format!("{}m7b5", r)), "{}", leading);
    }
}

#[test]
fn two_five_filter_never_gives_other_qualities() {
    for _ in 0..100 {
        let answer = chord_function_test(vec![1, 4]).correct_answer;
        assert!(!answer.ends_with("maj7"), "{}", answer);
        assert!(!answer.ends_with("m7b5"), "{}", answer);
        let from_two_or_five = SCALES.iter().any(|s| {
            chord_function_game(*s, ChordFunction::II).correct_answer == answer
                || chord_function_game(*s, ChordFunction::V).correct_answer == answer
        });
        assert!(from_two_or_five, "{}", answer);
    }
}

#[test]
fn filter_entries_out_of_range_are_ignored() {
    for _ in 0..30 {
        assert_eq!(draw_chord_function(&vec![9, 4, 12]), ChordFunction::V);
    }
}

#[test]
fn grading_ignores_case_and_surrounding_space() {
    assert!(answered(" do ", "Do"));
    assert!(answers_match(" do ", "Do"));
    assert!(answers_match("SOL", "sol"));
    assert!(answers_match("c#M7\n", "C#m7"));
}

#[test]
fn grading_is_not_prefix_tolerant() {
    assert!(!answered("D", "Do"));
    assert!(!answers_match("D", "Do"));
    assert!(!answers_match("Dom", "Do"));
    assert!(!answers_match("", "Do"));
}

#[test]
fn dictation_stops_at_first_wrong_degree() {
    let mut d = ScaleDictation::new(MajorScale::C);
    assert_eq!(d.expected(), "C");
    assert_eq!(d.answer("C"), Some(true));
    assert_eq!(d.expected(), "D");
    assert_eq!(d.answer("D"), Some(true));
    assert!(!d.is_over());
    assert_eq!(d.expected(), "E");
    assert_eq!(d.answer("X"), Some(false));
    assert!(d.is_over());
    assert_eq!(d.position(), 2);
    assert_eq!(d.expected(), "E");
}

#[test]
fn dictation_skips_empty_answers() {
    let mut d = ScaleDictation::new(MajorScale::F);
    assert_eq!(d.answer(""), None);
    assert_eq!(d.position(), 1);
    assert!(!d.is_over());
    assert_eq!(d.answer(" g "), Some(true));
    assert_eq!(d.answer(""), None);
    assert_eq!(d.answer("bb"), Some(true));
    assert_eq!(d.answer(""), None);
    assert_eq!(d.answer(""), None);
    assert_eq!(d.answer("E"), Some(true));
    assert!(d.is_over());
    assert_eq!(d.position(), 7);
    assert_eq!(d.scale(), MajorScale::F);
}

#[test]
fn sheet_note_questions_expect_the_letter() {
    assert_eq!(sheet_note_game(Note::E).correct_answer, "E");
    for _ in 0..30 {
        let game = sheet_note_test();
        assert!(Note::code_to_note(&game.correct_answer).is_some());
    }
}

#[test]
fn draws_stay_in_range() {
    for _ in 0..50 {
        assert!(draw_note().ordinal() < 7);
        let s = draw_scale();
        assert_eq!(s.get_major_scale().len(), 7);
    }
}

#[test]
fn each_note_has_its_own_drawing() {
    for (i, a) in NOTES.iter().enumerate() {
        for b in NOTES.iter().skip(i + 1) {
            assert_ne!(a.get_ascii_art(), b.get_ascii_art());
        }
        assert!(a.get_ascii_art().contains('O'));
    }
}
