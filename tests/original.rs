use music_drill::{chord_function_test, get_note_index, Game, Note};
use regex::Regex;

fn italian_at(index: usize) -> &'static str {
    Note::from_repr(index).unwrap().to_italian()
}

#[test]
fn test_get_note_index() {
    assert_eq!(get_note_index("A"), Some(0));
    assert_eq!(get_note_index("B"), Some(1));
    assert_eq!(get_note_index("C"), Some(2));
    assert_eq!(get_note_index("D"), Some(3));
    assert_eq!(get_note_index("E"), Some(4));
    assert_eq!(get_note_index("F"), Some(5));
    assert_eq!(get_note_index("G"), Some(6));
    assert_eq!(get_note_index("H"), None);
}

#[test]
fn test_notes_to_italian1() {
    let index = get_note_index("C").unwrap();
    let italian = italian_at(index);
    let game = Game {
        user_answer: Some(String::from(italian)),
        correct_answer: String::from("Do"),
    };
    assert_eq!(game.check_answer(), true);
}

#[test]
fn test_notes_to_italian2() {
    let index = get_note_index("D").unwrap();
    let italian = italian_at(index);
    let game = Game {
        user_answer: Some(String::from(italian)),
        correct_answer: String::from("Re"),
    };
    assert_eq!(game.check_answer(), true);
}

#[test]
fn test_notes_to_italian3() {
    let index = get_note_index("G").unwrap();
    let italian = italian_at(index);
    let game = Game {
        user_answer: Some(String::from(italian)),
        correct_answer: String::from("sol"),
    };
    assert_eq!(game.check_answer(), true);
}

#[test]
fn test_chord_function_game_1() {
    let game = chord_function_test(vec![0]);
    let pattern = Regex::new(r"[A-Gb#]maj7").unwrap();
    assert!(pattern.is_match(&game.correct_answer), "correct answer '{}' doesn't match pattern", game.correct_answer);
}

#[test]
fn test_chord_function_game_2() {
    let game = chord_function_test(vec![1]);
    let pattern = Regex::new(r"[A-Gb#]m7").unwrap();
    assert!(pattern.is_match(&game.correct_answer), "correct answer '{}' doesn't match pattern", game.correct_answer);
}

#[test]
fn test_chord_function_game_3() {
    let game = chord_function_test(vec![2]);
    let pattern = Regex::new(r"[A-Gb#]m7").unwrap();
    assert!(pattern.is_match(&game.correct_answer), "correct answer '{}' doesn't match pattern", game.correct_answer);
}

#[test]
fn test_chord_function_game_4() {
    let game = chord_function_test(vec![3]);
    let pattern = Regex::new(r"[A-Gb#]maj7").unwrap();
    assert!(pattern.is_match(&game.correct_answer), "correct answer '{}' doesn't match pattern", game.correct_answer);
}

#[test]
fn test_chord_function_game_5() {
    let game = chord_function_test(vec![4]);
    let pattern = Regex::new(r"[A-Gb#]7").unwrap();
    assert!(pattern.is_match(&game.correct_answer), "correct answer '{}' doesn't match pattern", game.correct_answer);
}

#[test]
fn test_chord_function_game_6() {
    let game = chord_function_test(vec![5]);
    let pattern = Regex::new(r"[A-Gb#]m7").unwrap();
    assert!(pattern.is_match(&game.correct_answer), "correct answer '{}' doesn't match pattern", game.correct_answer);
}
