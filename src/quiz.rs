//! The question generators: each draws its subject at random and builds the
//! question that expects the matching answer.
use vstd::prelude::*;

use crate::grading::Game;
use crate::theory::{chord_answer, is_spelling, lemma_scale_tonic, note_named, ChordFunction, MajorScale, Note, DEGREE_COUNT};

verus! {

/// Relies on rand's `SampleRange::sample_single` for `Range<usize>`, drawn with
/// `thread_rng`: a value of `[min, max)`. It panics on an empty range.
#[verifier::external_body]
fn random_usize(min: usize, max: usize) -> (r: usize)
    requires
        min < max,
    ensures
        min <= r < max,
{
    rand::distributions::uniform::SampleRange::sample_single(min..max, &mut rand::thread_rng())
}

/// A note drawn at random.
pub fn draw_note() -> (r: Note) {
    match Note::from_repr(random_usize(0, DEGREE_COUNT)) {
        Some(n) => n,
        None => Note::A,
    }
}

/// A major key drawn at random.
pub fn draw_scale() -> (r: MajorScale) {
    match MajorScale::from_repr(random_usize(0, DEGREE_COUNT)) {
        Some(s) => s,
        None => MajorScale::A,
    }
}

/// Whether `filter` lets chord function `f` be asked.
pub open spec fn allowed(filter: Seq<usize>, f: ChordFunction) -> bool {
    filter.contains(f.index() as usize)
}

/// Whether `filter` lets at least one chord function be asked.
pub open spec fn filter_admits_some(filter: Seq<usize>) -> bool {
    exists|j: int| 0 <= j < filter.len() && filter[j] < 7
}

/// Whether `x` occurs in `v`.
fn holds(v: &Vec<usize>, x: usize) -> (r: bool)
    ensures
        r == v@.contains(x),
{
    let mut i: usize = 0;
    while i < v.len()
        invariant
            i <= v@.len(),
            forall|j: int| 0 <= j < i ==> v@[j] != x,
        decreases v@.len() - i,
    {
        if v[i] == x {
            assert(v@[i as int] == x);
            return true;
        }
        i = i + 1;
    }
    false
}

/// The chord functions that `filter` allows, in scale order.
pub fn allowed_functions(filter: &Vec<usize>) -> (r: Vec<ChordFunction>)
    ensures
        forall|k: int| 0 <= k < r@.len() ==> allowed(filter@, #[trigger] r@[k]),
        filter_admits_some(filter@) ==> r@.len() > 0,
{
    let mut r: Vec<ChordFunction> = Vec::new();
    let mut i: usize = 0;
    while i < DEGREE_COUNT
        invariant
            i <= 7,
            forall|k: int| 0 <= k < r@.len() ==> allowed(filter@, #[trigger] r@[k]),
            r@.len() == 0 ==> forall|x: usize| x < i ==> !(#[trigger] filter@.contains(x)),
        decreases 7 - i,
    {
        if holds(filter, i) {
            if let Some(f) = ChordFunction::from_repr(i) {
                r.push(f);
            }
        }
        i = i + 1;
    }
    if r.len() == 0 {
        assert(!filter_admits_some(filter@)) by {
            assert forall|j: int| 0 <= j < filter@.len() implies filter@[j] >= 7 by {
                if filter@[j] < 7 {
                    assert(filter@.contains(filter@[j]));
                }
            }
        }
    }
    r
}

/// A chord function drawn at random among those that `filter` allows, each as
/// likely as the others. Called with a filter that allows none, the draw could
/// never end: such a filter is refused beforehand.
pub fn draw_chord_function(filter: &Vec<usize>) -> (r: ChordFunction)
    requires
        filter_admits_some(filter@),
    ensures
        allowed(filter@, r),
{
    let choices = allowed_functions(filter);
    let k = random_usize(0, choices.len());
    choices[k]
}

/// The question "which note is this?" about `note`: it expects the note's letter.
pub fn sheet_note_game(note: Note) -> (r: Game)
    ensures
        r.user_answer is None,
        r.correct_answer@ == note.letter(),
{
    Game::new(note.note_to_code())
}

/// A note-identification question about a note drawn at random.
pub fn sheet_note_test() -> (r: Game)
    ensures
        r.user_answer is None,
        exists|n: Note| r.correct_answer@ == n.letter(),
{
    sheet_note_game(draw_note())
}

/// The question "what is the Italian name of `note`?": it expects the Italian name
/// of the note whose letter is `note`, and there is none for any other text.
pub fn notes_to_italian_test(note: &str) -> (r: Option<Game>)
    ensures
        r is Some <==> note_named(note@) is Some,
        r is Some ==> r->0.user_answer is None,
        r is Some ==> r->0.correct_answer@ == note_named(note@)->0.italian(),
{
    match Note::code_to_note(note) {
        Some(n) => Some(Game::new(n.to_italian())),
        None => None,
    }
}

/// The question "what is the chord on degree `function` of `scale`?": it expects
/// the root spelling followed by the chord's quality, as `C#m7`.
pub fn chord_function_game(scale: MajorScale, function: ChordFunction) -> (r: Game)
    ensures
        r.user_answer is None,
        r.correct_answer@ == chord_answer(scale, function),
{
    let degrees = scale.get_major_scale();
    let root = degrees[function.ordinal()];
    let mut answer = String::from_str(root);
    answer.append(function.chord_quality());
    Game { user_answer: None, correct_answer: answer }
}

/// Whether `answer` is the chord on some degree that `filter` allows, in some key.
pub open spec fn answer_allowed(filter: Seq<usize>, answer: Seq<char>) -> bool {
    exists|s: MajorScale, f: ChordFunction| allowed(filter, f) && answer == chord_answer(s, f)
}

/// A chord question on a key and a degree drawn at random, the degree among
/// those that `filter` allows.
pub fn chord_function_test(filter: Vec<usize>) -> (r: Game)
    requires
        filter_admits_some(filter@),
    ensures
        r.user_answer is None,
        answer_allowed(filter@, r.correct_answer@),
{
    let scale = draw_scale();
    let function = draw_chord_function(&filter);
    chord_function_game(scale, function)
}

/// Whether `a` ends with `suffix`.
pub open spec fn ends_with(a: Seq<char>, suffix: Seq<char>) -> bool {
    a.len() >= suffix.len() && a.subrange(a.len() - suffix.len(), a.len() as int) == suffix
}

/// A degree is known by its place in the scale.
proof fn lemma_function_index_injective(f: ChordFunction, g: ChordFunction)
    requires
        f.index() == g.index(),
    ensures
        f == g,
{
}

/// With a single chord function allowed, every chord asked is a note spelling
/// followed by that function's quality: `maj7` for `I`, `7` for `V`, `m7b5` for
/// `VII`.
pub proof fn lemma_single_function_answers(f: ChordFunction, answer: Seq<char>)
    requires
        answer_allowed(seq![f.index() as usize], answer),
    ensures
        exists|sp: Seq<char>| is_spelling(sp) && answer == sp + f.quality(),
{
    let filter = seq![f.index() as usize];
    let (s, g) = choose|s: MajorScale, g: ChordFunction|
        allowed(filter, g) && answer == chord_answer(s, g);
    let k = choose|k: int| 0 <= k < filter.len() && filter[k] == g.index() as usize;
    assert(k == 0);
    lemma_function_index_injective(f, g);
    lemma_scale_tonic(s);
    let sp = s.degrees()[g.index() as int];
    assert(is_spelling(sp) && answer == sp + f.quality());
}

/// With only `II` and `V` allowed, no chord asked ends in `maj7` or `m7b5`: each
/// is the chord on `II` or on `V` of some key.
pub proof fn lemma_two_five_answers(answer: Seq<char>)
    requires
        answer_allowed(seq![1usize, 4usize], answer),
    ensures
        !ends_with(answer, "maj7"@),
        !ends_with(answer, "m7b5"@),
        exists|s: MajorScale, g: ChordFunction|
            (g == ChordFunction::II || g == ChordFunction::V) && answer == chord_answer(s, g),
{
    let filter = seq![1usize, 4usize];
    let (s, g) = choose|s: MajorScale, g: ChordFunction|
        allowed(filter, g) && answer == chord_answer(s, g);
    let k = choose|k: int| 0 <= k < filter.len() && filter[k] == g.index() as usize;
    assert(g == ChordFunction::II || g == ChordFunction::V);
    lemma_scale_tonic(s);
    let sp = s.degrees()[g.index() as int];
    assert(is_spelling(sp));
    reveal_strlit("m7");
    reveal_strlit("7");
    reveal_strlit("maj7");
    reveal_strlit("m7b5");
    let n = answer.len();
    assert(answer == sp + g.quality());
    assert(n >= 2);
    assert(answer[n - 1] == '7');
    assert(answer[n - 2] != 'j');
    if ends_with(answer, "maj7"@) {
        assert(answer.subrange(n - 4, n as int)[2] == answer[n - 2]);
    }
    if ends_with(answer, "m7b5"@) {
        assert(answer.subrange(n - 4, n as int)[3] == answer[n - 1]);
    }
}

} // verus!
