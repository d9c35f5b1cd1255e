//! The fixed tables of the drills: note letters, Italian names, major-scale
//! spellings and the quality of the seventh chord on each scale degree.
use vstd::prelude::*;

verus! {

/// Number of note letters, of major scales and of chord functions.
pub const DEGREE_COUNT: usize = 7;

/// Treble staff with the note A on it.
pub const A_ASCII: &'static str = "-------------\n             \n-------------\n             \n-------------\n      O      \n-------------\n             \n-------------";

/// Treble staff with the note B on it.
pub const B_ASCII: &'static str = "-------------\n             \n-------------\n             \n------O------\n             \n-------------\n             \n-------------";

/// Treble staff with the note C on it.
pub const C_ASCII: &'static str = "-------------\n             \n-------------\n      O      \n-------------\n             \n-------------\n             \n-------------";

/// Treble staff with the note D on it.
pub const D_ASCII: &'static str = "-------------\n             \n------O------\n             \n-------------\n             \n-------------\n             \n-------------";

/// Treble staff with the note E on it.
pub const E_ASCII: &'static str = "-------------\n             \n-------------\n             \n-------------\n             \n-------------\n             \n------O------";

/// Treble staff with the note F on it.
pub const F_ASCII: &'static str = "-------------\n             \n-------------\n             \n-------------\n             \n-------------\n      O      \n-------------";

/// Treble staff with the note G on it.
pub const G_ASCII: &'static str = "-------------\n             \n-------------\n             \n-------------\n             \n------O------\n             \n-------------";

/// A note letter, ordered by its place in the alphabet `A..G`.
#[derive(Clone, Copy, Debug, PartialEq, Eq, Structural)]
pub enum Note {
    A,
    B,
    C,
    D,
    E,
    F,
    G,
}

impl Note {
    /// Place of the note in `A..G`.
    pub open spec fn index(self) -> nat {
        match self {
            Note::A => 0,
            Note::B => 1,
            Note::C => 2,
            Note::D => 3,
            Note::E => 4,
            Note::F => 5,
            Note::G => 6,
        }
    }

    /// The note at place `i` of `A..G`.
    pub open spec fn at(i: nat) -> Note
        recommends
            i < 7,
    {
        if i == 0 {
            Note::A
        } else if i == 1 {
            Note::B
        } else if i == 2 {
            Note::C
        } else if i == 3 {
            Note::D
        } else if i == 4 {
            Note::E
        } else if i == 5 {
            Note::F
        } else {
            Note::G
        }
    }

    /// The letter that names the note.
    pub open spec fn letter(self) -> Seq<char> {
        match self {
            Note::A => "A"@,
            Note::B => "B"@,
            Note::C => "C"@,
            Note::D => "D"@,
            Note::E => "E"@,
            Note::F => "F"@,
            Note::G => "G"@,
        }
    }

    /// The Italian (solfège) name of the note.
    pub open spec fn italian(self) -> Seq<char> {
        match self {
            Note::A => "La"@,
            Note::B => "Si"@,
            Note::C => "Do"@,
            Note::D => "Re"@,
            Note::E => "Mi"@,
            Note::F => "Fa"@,
            Note::G => "Sol"@,
        }
    }

    /// The drawing of the note on a treble staff.
    pub open spec fn drawing(self) -> Seq<char> {
        match self {
            Note::A => A_ASCII@,
            Note::B => B_ASCII@,
            Note::C => C_ASCII@,
            Note::D => D_ASCII@,
            Note::E => E_ASCII@,
            Note::F => F_ASCII@,
            Note::G => G_ASCII@,
        }
    }

    /// The drawing of the note on a treble staff.
    pub fn get_ascii_art(&self) -> (r: &'static str)
        ensures
            r@ == self.drawing(),
    {
        match self {
            Note::A => A_ASCII,
            Note::B => B_ASCII,
            Note::C => C_ASCII,
            Note::D => D_ASCII,
            Note::E => E_ASCII,
            Note::F => F_ASCII,
            Note::G => G_ASCII,
        }
    }

    /// The note at place `i` of `A..G`, if there is one.
    pub fn from_repr(i: usize) -> (r: Option<Note>)
        ensures
            i < 7 ==> r == Some(Note::at(i as nat)),
            i >= 7 ==> r is None,
    {
        if i == 0 {
            Some(Note::A)
        } else if i == 1 {
            Some(Note::B)
        } else if i == 2 {
            Some(Note::C)
        } else if i == 3 {
            Some(Note::D)
        } else if i == 4 {
            Some(Note::E)
        } else if i == 5 {
            Some(Note::F)
        } else if i == 6 {
            Some(Note::G)
        } else {
            None
        }
    }

    /// Place of the note in `A..G`.
    pub fn ordinal(&self) -> (r: usize)
        ensures
            r as nat == self.index(),
    {
        match self {
            Note::A => 0,
            Note::B => 1,
            Note::C => 2,
            Note::D => 3,
            Note::E => 4,
            Note::F => 5,
            Note::G => 6,
        }
    }

    /// The letter that names the note.
    pub fn note_to_code(&self) -> (r: &'static str)
        ensures
            r@ == self.letter(),
    {
        match self {
            Note::A => "A",
            Note::B => "B",
            Note::C => "C",
            Note::D => "D",
            Note::E => "E",
            Note::F => "F",
            Note::G => "G",
        }
    }

    /// The Italian name of the note.
    pub fn to_italian(&self) -> (r: &'static str)
        ensures
            r@ == self.italian(),
    {
        match self {
            Note::A => "La",
            Note::B => "Si",
            Note::C => "Do",
            Note::D => "Re",
            Note::E => "Mi",
            Note::F => "Fa",
            Note::G => "Sol",
        }
    }
}

/// The note whose letter is `s`, if any.
pub open spec fn note_named(s: Seq<char>) -> Option<Note> {
    if s == "A"@ {
        Some(Note::A)
    } else if s == "B"@ {
        Some(Note::B)
    } else if s == "C"@ {
        Some(Note::C)
    } else if s == "D"@ {
        Some(Note::D)
    } else if s == "E"@ {
        Some(Note::E)
    } else if s == "F"@ {
        Some(Note::F)
    } else if s == "G"@ {
        Some(Note::G)
    } else {
        None
    }
}

/// Whether two strings hold the same characters.
pub fn same_text(a: &str, b: &str) -> (r: bool)
    ensures
        r == (a@ == b@),
{
    a.to_owned() == b.to_owned()
}

/// Place in `A..G` of the note whose letter is `note`; `None` for any other text.
pub fn get_note_index(note: &str) -> (r: Option<usize>)
    ensures
        r == (match note_named(note@) {
            Some(n) => Some(n.index() as usize),
            None => None,
        }),
{
    let mut i: usize = 0;
    while i < DEGREE_COUNT
        invariant
            i <= 7,
            forall|j: nat| j < i ==> Note::at(j).letter() != note@,
        decreases 7 - i,
    {
        let n = match Note::from_repr(i) {
            Some(n) => n,
            None => { return None; },
        };
        if same_text(n.note_to_code(), note) {
            assert(0 < i ==> Note::at(0).letter() != note@);
            assert(1 < i ==> Note::at(1).letter() != note@);
            assert(2 < i ==> Note::at(2).letter() != note@);
            assert(3 < i ==> Note::at(3).letter() != note@);
            assert(4 < i ==> Note::at(4).letter() != note@);
            assert(5 < i ==> Note::at(5).letter() != note@);
            return Some(i);
        }
        i = i + 1;
    }
    assert(Note::at(0).letter() != note@);
    assert(Note::at(1).letter() != note@);
    assert(Note::at(2).letter() != note@);
    assert(Note::at(3).letter() != note@);
    assert(Note::at(4).letter() != note@);
    assert(Note::at(5).letter() != note@);
    assert(Note::at(6).letter() != note@);
    None
}

impl Note {
    /// The note whose letter is `code`; `None` for any other text.
    pub fn code_to_note(code: &str) -> (r: Option<Note>)
        ensures
            r == note_named(code@),
    {
        match get_note_index(code) {
            Some(i) => Note::from_repr(i),
            None => None,
        }
    }
}

/// A major key, named by its tonic letter.
#[derive(Clone, Copy, Debug, PartialEq, Eq, Structural)]
pub enum MajorScale {
    A,
    B,
    C,
    D,
    E,
    F,
    G,
}

impl MajorScale {
    /// Place of the key's tonic in `A..G`.
    pub open spec fn index(self) -> nat {
        match self {
            MajorScale::A => 0,
            MajorScale::B => 1,
            MajorScale::C => 2,
            MajorScale::D => 3,
            MajorScale::E => 4,
            MajorScale::F => 5,
            MajorScale::G => 6,
        }
    }

    /// The key whose tonic sits at place `i` of `A..G`.
    pub open spec fn at(i: nat) -> MajorScale
        recommends
            i < 7,
    {
        if i == 0 {
            MajorScale::A
        } else if i == 1 {
            MajorScale::B
        } else if i == 2 {
            MajorScale::C
        } else if i == 3 {
            MajorScale::D
        } else if i == 4 {
            MajorScale::E
        } else if i == 5 {
            MajorScale::F
        } else {
            MajorScale::G
        }
    }

    /// The tonic of the key.
    pub open spec fn tonic(self) -> Note {
        Note::at(self.index())
    }

    /// The spellings of the seven degrees of the key, tonic first.
    pub open spec fn degrees(self) -> Seq<Seq<char>> {
        match self {
            MajorScale::A => seq!["A"@, "B"@, "C#"@, "D"@, "E"@, "F#"@, "G#"@],
            MajorScale::B => seq!["B"@, "C#"@, "D#"@, "E"@, "F#"@, "G#"@, "A#"@],
            MajorScale::C => seq!["C"@, "D"@, "E"@, "F"@, "G"@, "A"@, "B"@],
            MajorScale::D => seq!["D"@, "E"@, "F#"@, "G"@, "A"@, "B"@, "C#"@],
            MajorScale::E => seq!["E"@, "F#"@, "G#"@, "A"@, "B"@, "C#"@, "D#"@],
            MajorScale::F => seq!["F"@, "G"@, "A"@, "Bb"@, "C"@, "D"@, "E"@],
            MajorScale::G => seq!["G"@, "A"@, "B"@, "C"@, "D"@, "E"@, "F#"@],
        }
    }

    /// The key whose tonic sits at place `i` of `A..G`, if there is one.
    pub fn from_repr(i: usize) -> (r: Option<MajorScale>)
        ensures
            i < 7 ==> r == Some(MajorScale::at(i as nat)),
            i >= 7 ==> r is None,
    {
        if i == 0 {
            Some(MajorScale::A)
        } else if i == 1 {
            Some(MajorScale::B)
        } else if i == 2 {
            Some(MajorScale::C)
        } else if i == 3 {
            Some(MajorScale::D)
        } else if i == 4 {
            Some(MajorScale::E)
        } else if i == 5 {
            Some(MajorScale::F)
        } else if i == 6 {
            Some(MajorScale::G)
        } else {
            None
        }
    }

    /// The spellings of the seven degrees of the key, tonic first.
    pub fn get_major_scale(&self) -> (r: &'static [&'static str; 7])
        ensures
            r@.len() == 7,
            forall|i: int| 0 <= i < 7 ==> (#[trigger] r@[i])@ == self.degrees()[i],
    {
        match self {
            MajorScale::A => &["A", "B", "C#", "D", "E", "F#", "G#"],
            MajorScale::B => &["B", "C#", "D#", "E", "F#", "G#", "A#"],
            MajorScale::C => &["C", "D", "E", "F", "G", "A", "B"],
            MajorScale::D => &["D", "E", "F#", "G", "A", "B", "C#"],
            MajorScale::E => &["E", "F#", "G#", "A", "B", "C#", "D#"],
            MajorScale::F => &["F", "G", "A", "Bb", "C", "D", "E"],
            MajorScale::G => &["G", "A", "B", "C", "D", "E", "F#"],
        }
    }
}

/// A diatonic scale degree, named by its Roman numeral, `I` being the tonic.
#[derive(Clone, Copy, Debug, PartialEq, Eq, Structural)]
pub enum ChordFunction {
    I,
    II,
    III,
    IV,
    V,
    VI,
    VII,
}

impl ChordFunction {
    /// Place of the degree in the scale, the tonic at 0.
    pub open spec fn index(self) -> nat {
        match self {
            ChordFunction::I => 0,
            ChordFunction::II => 1,
            ChordFunction::III => 2,
            ChordFunction::IV => 3,
            ChordFunction::V => 4,
            ChordFunction::VI => 5,
            ChordFunction::VII => 6,
        }
    }

    /// The degree at place `i` of the scale.
    pub open spec fn at(i: nat) -> ChordFunction
        recommends
            i < 7,
    {
        if i == 0 {
            ChordFunction::I
        } else if i == 1 {
            ChordFunction::II
        } else if i == 2 {
            ChordFunction::III
        } else if i == 3 {
            ChordFunction::IV
        } else if i == 4 {
            ChordFunction::V
        } else if i == 5 {
            ChordFunction::VI
        } else {
            ChordFunction::VII
        }
    }

    /// Quality of the seventh chord that the major scale builds on this degree.
    pub open spec fn quality(self) -> Seq<char> {
        match self {
            ChordFunction::I => "maj7"@,
            ChordFunction::II => "m7"@,
            ChordFunction::III => "m7"@,
            ChordFunction::IV => "maj7"@,
            ChordFunction::V => "7"@,
            ChordFunction::VI => "m7"@,
            ChordFunction::VII => "m7b5"@,
        }
    }

    /// The degree at place `i` of the scale, if there is one.
    pub fn from_repr(i: usize) -> (r: Option<ChordFunction>)
        ensures
            i < 7 ==> r == Some(ChordFunction::at(i as nat)),
            i >= 7 ==> r is None,
    {
        if i == 0 {
            Some(ChordFunction::I)
        } else if i == 1 {
            Some(ChordFunction::II)
        } else if i == 2 {
            Some(ChordFunction::III)
        } else if i == 3 {
            Some(ChordFunction::IV)
        } else if i == 4 {
            Some(ChordFunction::V)
        } else if i == 5 {
            Some(ChordFunction::VI)
        } else if i == 6 {
            Some(ChordFunction::VII)
        } else {
            None
        }
    }

    /// Place of the degree in the scale, the tonic at 0.
    pub fn ordinal(&self) -> (r: usize)
        ensures
            r as nat == self.index(),
    {
        match self {
            ChordFunction::I => 0,
            ChordFunction::II => 1,
            ChordFunction::III => 2,
            ChordFunction::IV => 3,
            ChordFunction::V => 4,
            ChordFunction::VI => 5,
            ChordFunction::VII => 6,
        }
    }

    /// Quality of the seventh chord that the major scale builds on this degree.
    pub fn chord_quality(&self) -> (r: &'static str)
        ensures
            r@ == self.quality(),
    {
        match self {
            ChordFunction::I => "maj7",
            ChordFunction::II => "m7",
            ChordFunction::III => "m7",
            ChordFunction::IV => "maj7",
            ChordFunction::V => "7",
            ChordFunction::VI => "m7",
            ChordFunction::VII => "m7b5",
        }
    }
}

/// Name of the seventh chord on degree `f` of `scale`: root spelling, then quality.
pub open spec fn chord_answer(scale: MajorScale, f: ChordFunction) -> Seq<char> {
    scale.degrees()[f.index() as int] + f.quality()
}

/// Whether `sp` spells a note: a letter `A..G`, then at most one `#` or `b`.
pub open spec fn is_spelling(sp: Seq<char>) -> bool {
    &&& 1 <= sp.len() <= 2
    &&& 'A' <= sp[0] <= 'G'
    &&& sp.len() == 2 ==> (sp[1] == '#' || sp[1] == 'b')
}

/// The Italian name of the note whose letter is `s`, if there is one.
pub open spec fn italian_of_code(s: Seq<char>) -> Option<Seq<char>> {
    match note_named(s) {
        Some(n) => Some(n.italian()),
        None => None,
    }
}

/// Each letter `A..G` has the Italian name at its own place (La, Si, Do, Re, Mi,
/// Fa, Sol), and any other text has none.
pub proof fn lemma_italian_alignment(s: Seq<char>)
    ensures
        italian_of_code("A"@) == Some("La"@),
        italian_of_code("B"@) == Some("Si"@),
        italian_of_code("C"@) == Some("Do"@),
        italian_of_code("D"@) == Some("Re"@),
        italian_of_code("E"@) == Some("Mi"@),
        italian_of_code("F"@) == Some("Fa"@),
        italian_of_code("G"@) == Some("Sol"@),
        italian_of_code(s) is None <==> !(exists|n: Note| n.letter() == s),
        forall|n: Note| #[trigger] italian_of_code(n.letter()) == Some(n.italian()),
{
    reveal_strlit("A");
    reveal_strlit("B");
    reveal_strlit("C");
    reveal_strlit("D");
    reveal_strlit("E");
    reveal_strlit("F");
    reveal_strlit("G");
    assert("B"@[0] != "A"@[0]);
    assert("C"@[0] != "A"@[0]);
    assert("C"@[0] != "B"@[0]);
    assert("D"@[0] != "A"@[0]);
    assert("D"@[0] != "B"@[0]);
    assert("D"@[0] != "C"@[0]);
    assert("E"@[0] != "A"@[0]);
    assert("E"@[0] != "B"@[0]);
    assert("E"@[0] != "C"@[0]);
    assert("E"@[0] != "D"@[0]);
    assert("F"@[0] != "A"@[0]);
    assert("F"@[0] != "B"@[0]);
    assert("F"@[0] != "C"@[0]);
    assert("F"@[0] != "D"@[0]);
    assert("F"@[0] != "E"@[0]);
    assert("G"@[0] != "A"@[0]);
    assert("G"@[0] != "B"@[0]);
    assert("G"@[0] != "C"@[0]);
    assert("G"@[0] != "D"@[0]);
    assert("G"@[0] != "E"@[0]);
    assert("G"@[0] != "F"@[0]);
    if italian_of_code(s) is Some {
        let n = note_named(s)->0;
        assert(n.letter() == s);
    }
}

/// Every major key has seven degrees, each spelled as a note, the first being
/// the key's own tonic letter.
pub proof fn lemma_scale_tonic(s: MajorScale)
    ensures
        s.degrees().len() == 7,
        s.degrees()[0] == s.tonic().letter(),
        forall|i: int| 0 <= i < 7 ==> is_spelling(#[trigger] s.degrees()[i]),
{
    reveal_strlit("A");
    reveal_strlit("B");
    reveal_strlit("C");
    reveal_strlit("D");
    reveal_strlit("E");
    reveal_strlit("F");
    reveal_strlit("G");
    reveal_strlit("A#");
    reveal_strlit("C#");
    reveal_strlit("D#");
    reveal_strlit("F#");
    reveal_strlit("G#");
    reveal_strlit("Bb");
}

} // verus!
