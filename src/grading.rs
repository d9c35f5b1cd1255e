//! Grading of submitted answers: one answer against one expected answer, and
//! the degree-by-degree dictation of a major scale.
use vstd::prelude::*;

use crate::theory::MajorScale;

verus! {

/// What `str::trim` leaves of a text: it drops leading and trailing white space.
pub uninterp spec fn trim_of(s: Seq<char>) -> Seq<char>;

/// What `str::to_lowercase` makes of a text: its lowercase form under Unicode's rules.
pub uninterp spec fn lower_of(s: Seq<char>) -> Seq<char>;

/// Relies on `str::trim`: the slice of `s` without leading and trailing white space,
/// which depends on the characters of `s` alone.
#[verifier::external_body]
fn trim_text(s: &str) -> (r: &str)
    ensures
        r@ == trim_of(s@),
{
    s.trim()
}

/// Relies on `str::to_lowercase`: the lowercase form of `s`, which depends on the
/// characters of `s` alone.
#[verifier::external_body]
fn lowercase_text(s: &str) -> (r: String)
    ensures
        r@ == lower_of(s@),
{
    s.to_lowercase()
}

/// The form in which answers are compared: trimmed, then lower-cased.
pub open spec fn normal_form(s: Seq<char>) -> Seq<char> {
    lower_of(trim_of(s))
}

/// Whether `submitted` counts as the answer `expected`: equal once both are
/// trimmed and lower-cased. A longer or shorter text is no match.
pub open spec fn answers_agree(submitted: Seq<char>, expected: Seq<char>) -> bool {
    normal_form(submitted) == normal_form(expected)
}

/// Grades `submitted` against `expected`, ignoring case and surrounding white space.
pub fn answers_match(submitted: &str, expected: &str) -> (r: bool)
    ensures
        r == answers_agree(submitted@, expected@),
{
    let s = lowercase_text(trim_text(submitted));
    let e = lowercase_text(trim_text(expected));
    s == e
}

/// One question: the answer it expects and, once given, the answer submitted.
#[derive(Debug)]
pub struct Game {
    pub user_answer: Option<String>,
    pub correct_answer: String,
}

impl Game {
    /// A question expecting `correct_answer`, not yet answered.
    pub fn new(correct_answer: &str) -> (r: Game)
        ensures
            r.user_answer is None,
            r.correct_answer@ == correct_answer@,
    {
        Game { user_answer: None, correct_answer: String::from_str(correct_answer) }
    }

    /// Whether the submitted answer matches the expected one. Grading a question
    /// that has not been answered is a usage error.
    pub fn check_answer(&self) -> (r: bool)
        requires
            self.user_answer is Some,
        ensures
            r == answers_agree(self.user_answer->0@, self.correct_answer@),
    {
        match &self.user_answer {
            Some(a) => answers_match(a.as_str(), self.correct_answer.as_str()),
            None => false,
        }
    }
}

/// Dictation of a major scale: the seven degrees are asked in order, an empty
/// answer skips a degree, and the first wrong answer ends the dictation.
pub struct ScaleDictation {
    scale: MajorScale,
    position: usize,
    stopped: bool,
}

impl ScaleDictation {
    /// The key being dictated.
    pub closed spec fn key(&self) -> MajorScale {
        self.scale
    }

    /// How many degrees have been asked and passed (answered right or skipped).
    pub closed spec fn done(&self) -> nat {
        self.position as nat
    }

    /// Whether a wrong answer has ended the dictation.
    pub closed spec fn failed(&self) -> bool {
        self.stopped
    }

    /// The count of passed degrees never exceeds the seven degrees of the key.
    pub closed spec fn wf(&self) -> bool {
        self.position <= 7
    }

    /// No degree is left to ask: a wrong answer came, or all seven were passed.
    pub open spec fn over(&self) -> bool {
        self.failed() || self.done() >= 7
    }

    /// The spelling of the degree being asked, the first one not yet passed.
    pub open spec fn current(&self) -> Seq<char> {
        self.key().degrees()[self.done() as int]
    }

    /// A dictation of `scale`, at its tonic.
    pub fn new(scale: MajorScale) -> (r: ScaleDictation)
        ensures
            r.wf(),
            r.key() == scale,
            r.done() == 0,
            !r.failed(),
    {
        ScaleDictation { scale, position: 0, stopped: false }
    }

    /// The key being dictated.
    pub fn scale(&self) -> (r: MajorScale)
        ensures
            r == self.key(),
    {
        self.scale
    }

    /// How many degrees have been passed.
    pub fn position(&self) -> (r: usize)
        ensures
            r as nat == self.done(),
    {
        self.position
    }

    /// Whether no degree is left to ask.
    pub fn is_over(&self) -> (r: bool)
        requires
            self.wf(),
        ensures
            r == self.over(),
    {
        self.stopped || self.position >= 7
    }

    /// The spelling that the degree being asked expects; after a wrong answer,
    /// the one that was missed.
    pub fn expected(&self) -> (r: &'static str)
        requires
            self.wf(),
            self.done() < 7,
        ensures
            r@ == self.current(),
    {
        let degrees = self.scale.get_major_scale();
        degrees[self.position]
    }

    /// Grades `submitted` for the degree being asked. An empty answer gives no
    /// verdict and moves on; a right one gives `Some(true)` and moves on; a wrong
    /// one gives `Some(false)` and ends the dictation.
    pub fn answer(&mut self, submitted: &str) -> (r: Option<bool>)
        requires
            old(self).wf(),
            !old(self).over(),
        ensures
            final(self).wf(),
            final(self).key() == old(self).key(),
            submitted@.len() == 0 ==> r is None,
            submitted@.len() > 0 ==> r == Some(answers_agree(submitted@, old(self).current())),
            r != Some(false) ==> final(self).done() == old(self).done() + 1 && !final(self).failed(),
            r == Some(false) ==> final(self).done() == old(self).done() && final(self).failed(),
    {
        let expected = self.expected();
        if submitted.is_empty() {
            self.position = self.position + 1;
            return None;
        }
        if answers_match(submitted, expected) {
            self.position = self.position + 1;
            Some(true)
        } else {
            self.stopped = true;
            Some(false)
        }
    }
}

} // verus!
