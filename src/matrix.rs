//! The fixed, ordered matrix of cases that a run drives through shaping and layout.
use vstd::prelude::*;

verus! {

/// Where a line may break.
#[derive(Clone, Copy, Debug, PartialEq, Eq, Structural)]
pub enum WrapPolicy {
    /// No wrapping: one line whatever the width.
    NoWrap,
    /// A break at any glyph boundary once the width is exceeded.
    Glyph,
    /// Breaks at word boundaries only; a word wider than the line overflows.
    Word,
    /// Word boundaries first, glyph boundaries for a word that cannot fit.
    WordOrGlyph,
}

/// One case of the matrix. Sizes are held in millionths of a pixel.
#[derive(Clone, Copy, Debug)]
pub struct ParityCase {
    /// Key that joins every record of the case.
    pub id: &'static str,
    pub text: &'static str,
    pub family: &'static str,
    pub font_size_micros: u64,
    pub wrap: WrapPolicy,
    /// Line width; absent for an unconstrained line.
    pub width_micros: Option<u64>,
}

impl ParityCase {
    /// The font size and a width, where one is given, are positive.
    pub open spec fn wf(&self) -> bool {
        &&& self.font_size_micros > 0
        &&& (self.width_micros matches Some(w) ==> w > 0)
    }
}

/// Texts of the cases.
pub const MOUSE_SENTENCE: &'static str = "Move the mouse to see the circle follow your cursor.";
pub const TABBED_LETTERS: &'static str = "A\tB\tC";
pub const BIDI_SENTENCE_HEBREW: &'static str = "Many computer programs fail to display bidirectional text correctly: שרה";
pub const ARABIC_IN_LATIN: &'static str = "I like to render اللغة العربية in Rust!";
pub const LOREM_IPSUM: &'static str = "Lorem ipsum dolor sit amet, qui minim labore adipisicing minim sint cillum sint consectetur cupidatat.";
pub const HEBREW_THEN_LATIN: &'static str = "אב abc def";
pub const HEBREW_WORD: &'static str = "בדיקה";
pub const HEBREW_PARAGRAPH: &'static str = "השועל החום המהיר קופץ מעל הכלב העצלן";
pub const BIDI_PARAGRAPH_HEBREW: &'static str = "Many computer programs fail to display bidirectional text correctly. For example, this page is mostly LTR English script, and here is the RTL Hebrew name Sarah: שרה, spelled sin (ש) on the right, resh (ר) in the middle, and heh (ה) on the left.";
pub const ARABIC_WORD: &'static str = "خالصة";
pub const ARABIC_PARAGRAPH: &'static str = "الثعلب البني السريع يقفز فوق الكلب الكسول";
pub const EMPTY: &'static str = "";
pub const ONE_SPACE: &'static str = " ";
pub const SEVEN_SPACES: &'static str = "       ";
pub const HELLO_WORLD: &'static str = "hello world";
pub const HEBREW_POINTED: &'static str = "שָׁלוֹם עָלֵיכֶם";
pub const ARABIC_VOWELLED: &'static str = "السَّلَامُ عَلَيْكُمْ";
pub const THREE_SPACES: &'static str = "   ";
pub const THREE_TABS: &'static str = "\t\t\t";

/// Number of cases in the matrix.
pub const CASE_COUNT: usize = 48;

/// The case with these fields.
pub open spec fn parity_case(
    id: &'static str,
    text: &'static str,
    family: &'static str,
    font_size_micros: u64,
    wrap: WrapPolicy,
    width_micros: Option<u64>,
) -> ParityCase {
    ParityCase { id, text, family, font_size_micros, wrap, width_micros }
}

fn new_case(
    id: &'static str,
    text: &'static str,
    family: &'static str,
    font_size_micros: u64,
    wrap: WrapPolicy,
    width_micros: Option<u64>,
) -> (r: ParityCase)
    ensures
        r == parity_case(id, text, family, font_size_micros, wrap, width_micros),
{
    ParityCase { id, text, family, font_size_micros, wrap, width_micros }
}

/// The cases of the matrix, in the order in which a run processes them.
pub open spec fn parity_cases() -> Seq<ParityCase> {
    seq![
        parity_case("ascii_sentence", MOUSE_SENTENCE, "Inter", 16_000_000, WrapPolicy::NoWrap, None),
        parity_case("ascii_tabs", TABBED_LETTERS, "Inter", 16_000_000, WrapPolicy::NoWrap, None),
        parity_case("mix_hebrew", BIDI_SENTENCE_HEBREW, "Inter", 16_000_000, WrapPolicy::NoWrap, None),
        parity_case("mix_arabic", ARABIC_IN_LATIN, "Inter", 16_000_000, WrapPolicy::NoWrap, None),
        parity_case("wrap_word_or_glyph", LOREM_IPSUM, "Inter", 16_000_000, WrapPolicy::WordOrGlyph, Some(50_000_000)),
        parity_case("wrap_word", HEBREW_THEN_LATIN, "Inter", 16_000_000, WrapPolicy::Word, Some(30_000_000)),
        parity_case("hebrew_word_noto", HEBREW_WORD, "Noto Sans", 36_000_000, WrapPolicy::NoWrap, None),
        parity_case("hebrew_paragraph_noto", HEBREW_PARAGRAPH, "Noto Sans", 36_000_000, WrapPolicy::WordOrGlyph, Some(210_000_000)),
        parity_case("english_hebrew_paragraph_noto", BIDI_PARAGRAPH_HEBREW, "Noto Sans", 16_000_000, WrapPolicy::WordOrGlyph, Some(200_000_000)),
        parity_case("arabic_word_noto", ARABIC_WORD, "Noto Sans", 36_000_000, WrapPolicy::NoWrap, None),
        parity_case("arabic_paragraph_noto", ARABIC_PARAGRAPH, "Noto Sans", 36_000_000, WrapPolicy::WordOrGlyph, Some(210_000_000)),
        parity_case("english_arabic_paragraph_noto", ARABIC_IN_LATIN, "Noto Sans", 36_000_000, WrapPolicy::WordOrGlyph, Some(190_000_000)),
        parity_case("stability_empty_wordorglyph_none", EMPTY, "Inter", 18_000_000, WrapPolicy::WordOrGlyph, None),
        parity_case("stability_space_wordorglyph_none", ONE_SPACE, "Inter", 18_000_000, WrapPolicy::WordOrGlyph, None),
        parity_case("stability_space_wordorglyph_4", ONE_SPACE, "Inter", 18_000_000, WrapPolicy::WordOrGlyph, Some(4_000_000)),
        parity_case("stability_spaces7_wordorglyph_4", SEVEN_SPACES, "Inter", 18_000_000, WrapPolicy::WordOrGlyph, Some(4_000_000)),
        parity_case("stability_hello_word_word_80", HELLO_WORLD, "Inter", 18_000_000, WrapPolicy::Word, Some(80_000_000)),
        parity_case("stability_long_latin_wordorglyph_80", LOREM_IPSUM, "Inter", 18_000_000, WrapPolicy::WordOrGlyph, Some(80_000_000)),
        parity_case("stability_long_latin_glyph_20", LOREM_IPSUM, "Inter", 18_000_000, WrapPolicy::Glyph, Some(20_000_000)),
        parity_case("stability_hebrew_wordorglyph_none", HEBREW_POINTED, "Inter", 18_000_000, WrapPolicy::WordOrGlyph, None),
        parity_case("stability_hebrew_wordorglyph_80", HEBREW_POINTED, "Inter", 18_000_000, WrapPolicy::WordOrGlyph, Some(80_000_000)),
        parity_case("stability_arabic_wordorglyph_none", ARABIC_VOWELLED, "Inter", 18_000_000, WrapPolicy::WordOrGlyph, None),
        parity_case("stability_arabic_wordorglyph_80", ARABIC_VOWELLED, "Inter", 18_000_000, WrapPolicy::WordOrGlyph, Some(80_000_000)),
        parity_case("stability_mix_arabic_wordorglyph_80", ARABIC_IN_LATIN, "Inter", 18_000_000, WrapPolicy::WordOrGlyph, Some(80_000_000)),
        parity_case("stability_mix_arabic_word_80", ARABIC_IN_LATIN, "Inter", 18_000_000, WrapPolicy::Word, Some(80_000_000)),
        parity_case("stability_mix_arabic_word_198", ARABIC_IN_LATIN, "Inter", 18_000_000, WrapPolicy::Word, Some(198_213_200)),
        parity_case("stability_hebrew_wordorglyph_40", HEBREW_POINTED, "Inter", 18_000_000, WrapPolicy::WordOrGlyph, Some(40_000_000)),
        parity_case("stability_hebrew_wordorglyph_20", HEBREW_POINTED, "Inter", 18_000_000, WrapPolicy::WordOrGlyph, Some(20_000_000)),
        parity_case("stability_hebrew_word_80", HEBREW_POINTED, "Inter", 18_000_000, WrapPolicy::Word, Some(80_000_000)),
        parity_case("stability_hebrew_glyph_20", HEBREW_POINTED, "Inter", 18_000_000, WrapPolicy::Glyph, Some(20_000_000)),
        parity_case("stability_arabic_wordorglyph_40", ARABIC_VOWELLED, "Inter", 18_000_000, WrapPolicy::WordOrGlyph, Some(40_000_000)),
        parity_case("stability_arabic_wordorglyph_20", ARABIC_VOWELLED, "Inter", 18_000_000, WrapPolicy::WordOrGlyph, Some(20_000_000)),
        parity_case("stability_arabic_word_80", ARABIC_VOWELLED, "Inter", 18_000_000, WrapPolicy::Word, Some(80_000_000)),
        parity_case("stability_arabic_glyph_20", ARABIC_VOWELLED, "Inter", 18_000_000, WrapPolicy::Glyph, Some(20_000_000)),
        parity_case("stability_mix_arabic_wordorglyph_198", ARABIC_IN_LATIN, "Inter", 18_000_000, WrapPolicy::WordOrGlyph, Some(198_213_200)),
        parity_case("stability_mix_arabic_wordorglyph_20", ARABIC_IN_LATIN, "Inter", 18_000_000, WrapPolicy::WordOrGlyph, Some(20_000_000)),
        parity_case("stability_mix_arabic_glyph_20", ARABIC_IN_LATIN, "Inter", 18_000_000, WrapPolicy::Glyph, Some(20_000_000)),
        parity_case("stability_mix_arabic_none", ARABIC_IN_LATIN, "Inter", 18_000_000, WrapPolicy::NoWrap, None),
        parity_case("stability_long_latin_none", LOREM_IPSUM, "Inter", 18_000_000, WrapPolicy::NoWrap, None),
        parity_case("stability_long_latin_word_80", LOREM_IPSUM, "Inter", 18_000_000, WrapPolicy::Word, Some(80_000_000)),
        parity_case("stability_long_latin_word_20", LOREM_IPSUM, "Inter", 18_000_000, WrapPolicy::Word, Some(20_000_000)),
        parity_case("stability_long_latin_wordorglyph_20", LOREM_IPSUM, "Inter", 18_000_000, WrapPolicy::WordOrGlyph, Some(20_000_000)),
        parity_case("stability_spaces7_word_4", SEVEN_SPACES, "Inter", 18_000_000, WrapPolicy::Word, Some(4_000_000)),
        parity_case("stability_spaces3_word_5", THREE_SPACES, "Inter", 18_000_000, WrapPolicy::Word, Some(5_000_000)),
        parity_case("stability_spaces3_wordorglyph_5", THREE_SPACES, "Inter", 18_000_000, WrapPolicy::WordOrGlyph, Some(5_000_000)),
        parity_case("stability_spaces7_glyph_4", SEVEN_SPACES, "Inter", 18_000_000, WrapPolicy::Glyph, Some(4_000_000)),
        parity_case("stability_tabs_glyph_20", TABBED_LETTERS, "Inter", 18_000_000, WrapPolicy::Glyph, Some(20_000_000)),
        parity_case("stability_tabs3_wordorglyph_none", THREE_TABS, "Inter", 18_000_000, WrapPolicy::WordOrGlyph, None),
    ]
}

/// The family of every case is Inter or Noto Sans.
pub open spec fn known_family(c: ParityCase) -> bool {
    c.family@ == "Inter"@ || c.family@ == "Noto Sans"@
}

/// No two cases of the matrix share an id, and every case is well formed
/// and names a known family.
pub proof fn lemma_parity_cases_valid()
    ensures
        parity_cases().len() == CASE_COUNT,
        forall|i: int| 0 <= i < CASE_COUNT ==> (#[trigger] parity_cases()[i]).wf(),
        forall|i: int| 0 <= i < CASE_COUNT ==> known_family(#[trigger] parity_cases()[i]),
        forall|i: int, j: int|
            0 <= i < j < CASE_COUNT ==> (#[trigger] parity_cases()[i]).id@ != (
            #[trigger] parity_cases()[j]).id@,
{
    let cs = parity_cases();
    assert forall|i: int, j: int| 0 <= i < j < CASE_COUNT implies #[trigger] cs[i].id@ != #[trigger] cs[j].id@ by {
        lemma_case_position(i);
        lemma_case_position(j);
    }
}

/// Position in the matrix of the case with id `id`, or -1 where no case has
/// it. Ids are told apart by length first.
pub open spec fn case_position(id: Seq<char>) -> int {
    if id.len() == 9 {
        if id == "wrap_word"@ {
            5
        } else {
            -1
        }
    } else if id.len() == 10 {
        if id == "ascii_tabs"@ {
            1
        } else if id == "mix_hebrew"@ {
            2
        } else if id == "mix_arabic"@ {
            3
        } else {
            -1
        }
    } else if id.len() == 14 {
        if id == "ascii_sentence"@ {
            0
        } else {
            -1
        }
    } else if id.len() == 16 {
        if id == "hebrew_word_noto"@ {
            6
        } else if id == "arabic_word_noto"@ {
            9
        } else {
            -1
        }
    } else if id.len() == 18 {
        if id == "wrap_word_or_glyph"@ {
            4
        } else {
            -1
        }
    } else if id.len() == 21 {
        if id == "hebrew_paragraph_noto"@ {
            7
        } else if id == "arabic_paragraph_noto"@ {
            10
        } else {
            -1
        }
    } else if id.len() == 23 {
        if id == "stability_tabs_glyph_20"@ {
            46
        } else {
            -1
        }
    } else if id.len() == 24 {
        if id == "stability_hebrew_word_80"@ {
            28
        } else if id == "stability_arabic_word_80"@ {
            32
        } else if id == "stability_spaces7_word_4"@ {
            42
        } else if id == "stability_spaces3_word_5"@ {
            43
        } else {
            -1
        }
    } else if id.len() == 25 {
        if id == "stability_hebrew_glyph_20"@ {
            29
        } else if id == "stability_arabic_glyph_20"@ {
            33
        } else if id == "stability_mix_arabic_none"@ {
            37
        } else if id == "stability_long_latin_none"@ {
            38
        } else if id == "stability_spaces7_glyph_4"@ {
            45
        } else {
            -1
        }
    } else if id.len() == 28 {
        if id == "stability_hello_word_word_80"@ {
            16
        } else if id == "stability_mix_arabic_word_80"@ {
            24
        } else if id == "stability_long_latin_word_80"@ {
            39
        } else if id == "stability_long_latin_word_20"@ {
            40
        } else {
            -1
        }
    } else if id.len() == 29 {
        if id == "english_hebrew_paragraph_noto"@ {
            8
        } else if id == "english_arabic_paragraph_noto"@ {
            11
        } else if id == "stability_space_wordorglyph_4"@ {
            14
        } else if id == "stability_long_latin_glyph_20"@ {
            18
        } else if id == "stability_mix_arabic_word_198"@ {
            25
        } else if id == "stability_mix_arabic_glyph_20"@ {
            36
        } else {
            -1
        }
    } else if id.len() == 31 {
        if id == "stability_spaces7_wordorglyph_4"@ {
            15
        } else if id == "stability_hebrew_wordorglyph_80"@ {
            20
        } else if id == "stability_arabic_wordorglyph_80"@ {
            22
        } else if id == "stability_hebrew_wordorglyph_40"@ {
            26
        } else if id == "stability_hebrew_wordorglyph_20"@ {
            27
        } else if id == "stability_arabic_wordorglyph_40"@ {
            30
        } else if id == "stability_arabic_wordorglyph_20"@ {
            31
        } else if id == "stability_spaces3_wordorglyph_5"@ {
            44
        } else {
            -1
        }
    } else if id.len() == 32 {
        if id == "stability_empty_wordorglyph_none"@ {
            12
        } else if id == "stability_space_wordorglyph_none"@ {
            13
        } else if id == "stability_tabs3_wordorglyph_none"@ {
            47
        } else {
            -1
        }
    } else if id.len() == 33 {
        if id == "stability_hebrew_wordorglyph_none"@ {
            19
        } else if id == "stability_arabic_wordorglyph_none"@ {
            21
        } else {
            -1
        }
    } else if id.len() == 35 {
        if id == "stability_long_latin_wordorglyph_80"@ {
            17
        } else if id == "stability_mix_arabic_wordorglyph_80"@ {
            23
        } else if id == "stability_mix_arabic_wordorglyph_20"@ {
            35
        } else if id == "stability_long_latin_wordorglyph_20"@ {
            41
        } else {
            -1
        }
    } else if id.len() == 36 {
        if id == "stability_mix_arabic_wordorglyph_198"@ {
            34
        } else {
            -1
        }
    } else {
        -1
    }
}

/// Each case's id leads back to that case's own position.
#[verifier::spinoff_prover]
#[verifier::rlimit(100)]
proof fn lemma_case_position(i: int)
    requires
        0 <= i < CASE_COUNT,
    ensures
        case_position(parity_cases()[i].id@) == i,
{
    if i == 0 {
        reveal_strlit("ascii_sentence");
        assert(parity_cases()[0].id@ == "ascii_sentence"@);
    } else if i == 1 {
        reveal_strlit("ascii_tabs");
        reveal_strlit("mix_hebrew");
        assert("ascii_tabs"@[0] != "mix_hebrew"@[0]);
        reveal_strlit("mix_arabic");
        assert("ascii_tabs"@[0] != "mix_arabic"@[0]);
        assert(parity_cases()[1].id@ == "ascii_tabs"@);
    } else if i == 2 {
        reveal_strlit("mix_hebrew");
        reveal_strlit("ascii_tabs");
        assert("mix_hebrew"@[0] != "ascii_tabs"@[0]);
        reveal_strlit("mix_arabic");
        assert("mix_hebrew"@[4] != "mix_arabic"@[4]);
        assert(parity_cases()[2].id@ == "mix_hebrew"@);
    } else if i == 3 {
        reveal_strlit("mix_arabic");
        reveal_strlit("ascii_tabs");
        assert("mix_arabic"@[0] != "ascii_tabs"@[0]);
        reveal_strlit("mix_hebrew");
        assert("mix_arabic"@[4] != "mix_hebrew"@[4]);
        assert(parity_cases()[3].id@ == "mix_arabic"@);
    } else if i == 4 {
        reveal_strlit("wrap_word_or_glyph");
        assert(parity_cases()[4].id@ == "wrap_word_or_glyph"@);
    } else if i == 5 {
        reveal_strlit("wrap_word");
        assert(parity_cases()[5].id@ == "wrap_word"@);
    } else if i == 6 {
        reveal_strlit("hebrew_word_noto");
        reveal_strlit("arabic_word_noto");
        assert("hebrew_word_noto"@[0] != "arabic_word_noto"@[0]);
        assert(parity_cases()[6].id@ == "hebrew_word_noto"@);
    } else if i == 7 {
        reveal_strlit("hebrew_paragraph_noto");
        reveal_strlit("arabic_paragraph_noto");
        assert("hebrew_paragraph_noto"@[0] != "arabic_paragraph_noto"@[0]);
        assert(parity_cases()[7].id@ == "hebrew_paragraph_noto"@);
    } else if i == 8 {
        reveal_strlit("english_hebrew_paragraph_noto");
        reveal_strlit("english_arabic_paragraph_noto");
        assert("english_hebrew_paragraph_noto"@[8] != "english_arabic_paragraph_noto"@[8]);
        reveal_strlit("stability_space_wordorglyph_4");
        assert("english_hebrew_paragraph_noto"@[0] != "stability_space_wordorglyph_4"@[0]);
        reveal_strlit("stability_long_latin_glyph_20");
        assert("english_hebrew_paragraph_noto"@[0] != "stability_long_latin_glyph_20"@[0]);
        reveal_strlit("stability_mix_arabic_word_198");
        assert("english_hebrew_paragraph_noto"@[0] != "stability_mix_arabic_word_198"@[0]);
        reveal_strlit("stability_mix_arabic_glyph_20");
        assert("english_hebrew_paragraph_noto"@[0] != "stability_mix_arabic_glyph_20"@[0]);
        assert(parity_cases()[8].id@ == "english_hebrew_paragraph_noto"@);
    } else if i == 9 {
        reveal_strlit("arabic_word_noto");
        reveal_strlit("hebrew_word_noto");
        assert("arabic_word_noto"@[0] != "hebrew_word_noto"@[0]);
        assert(parity_cases()[9].id@ == "arabic_word_noto"@);
    } else if i == 10 {
        reveal_strlit("arabic_paragraph_noto");
        reveal_strlit("hebrew_paragraph_noto");
        assert("arabic_paragraph_noto"@[0] != "hebrew_paragraph_noto"@[0]);
        assert(parity_cases()[10].id@ == "arabic_paragraph_noto"@);
    } else if i == 11 {
        reveal_strlit("english_arabic_paragraph_noto");
        reveal_strlit("english_hebrew_paragraph_noto");
        assert("english_arabic_paragraph_noto"@[8] != "english_hebrew_paragraph_noto"@[8]);
        reveal_strlit("stability_space_wordorglyph_4");
        assert("english_arabic_paragraph_noto"@[0] != "stability_space_wordorglyph_4"@[0]);
        reveal_strlit("stability_long_latin_glyph_20");
        assert("english_arabic_paragraph_noto"@[0] != "stability_long_latin_glyph_20"@[0]);
        reveal_strlit("stability_mix_arabic_word_198");
        assert("english_arabic_paragraph_noto"@[0] != "stability_mix_arabic_word_198"@[0]);
        reveal_strlit("stability_mix_arabic_glyph_20");
        assert("english_arabic_paragraph_noto"@[0] != "stability_mix_arabic_glyph_20"@[0]);
        assert(parity_cases()[11].id@ == "english_arabic_paragraph_noto"@);
    } else if i == 12 {
        reveal_strlit("stability_empty_wordorglyph_none");
        reveal_strlit("stability_space_wordorglyph_none");
        assert("stability_empty_wordorglyph_none"@[10] != "stability_space_wordorglyph_none"@[10]);
        reveal_strlit("stability_tabs3_wordorglyph_none");
        assert("stability_empty_wordorglyph_none"@[10] != "stability_tabs3_wordorglyph_none"@[10]);
        assert(parity_cases()[12].id@ == "stability_empty_wordorglyph_none"@);
    } else if i == 13 {
        reveal_strlit("stability_space_wordorglyph_none");
        reveal_strlit("stability_empty_wordorglyph_none");
        assert("stability_space_wordorglyph_none"@[10] != "stability_empty_wordorglyph_none"@[10]);
        reveal_strlit("stability_tabs3_wordorglyph_none");
        assert("stability_space_wordorglyph_none"@[10] != "stability_tabs3_wordorglyph_none"@[10]);
        assert(parity_cases()[13].id@ == "stability_space_wordorglyph_none"@);
    } else if i == 14 {
        reveal_strlit("stability_space_wordorglyph_4");
        reveal_strlit("english_hebrew_paragraph_noto");
        assert("stability_space_wordorglyph_4"@[0] != "english_hebrew_paragraph_noto"@[0]);
        reveal_strlit("english_arabic_paragraph_noto");
        assert("stability_space_wordorglyph_4"@[0] != "english_arabic_paragraph_noto"@[0]);
        reveal_strlit("stability_long_latin_glyph_20");
        assert("stability_space_wordorglyph_4"@[10] != "stability_long_latin_glyph_20"@[10]);
        reveal_strlit("stability_mix_arabic_word_198");
        assert("stability_space_wordorglyph_4"@[10] != "stability_mix_arabic_word_198"@[10]);
        reveal_strlit("stability_mix_arabic_glyph_20");
        assert("stability_space_wordorglyph_4"@[10] != "stability_mix_arabic_glyph_20"@[10]);
        assert(parity_cases()[14].id@ == "stability_space_wordorglyph_4"@);
    } else if i == 15 {
        reveal_strlit("stability_spaces7_wordorglyph_4");
        reveal_strlit("stability_hebrew_wordorglyph_80");
        assert("stability_spaces7_wordorglyph_4"@[10] != "stability_hebrew_wordorglyph_80"@[10]);
        reveal_strlit("stability_arabic_wordorglyph_80");
        assert("stability_spaces7_wordorglyph_4"@[10] != "stability_arabic_wordorglyph_80"@[10]);
        reveal_strlit("stability_hebrew_wordorglyph_40");
        assert("stability_spaces7_wordorglyph_4"@[10] != "stability_hebrew_wordorglyph_40"@[10]);
        reveal_strlit("stability_hebrew_wordorglyph_20");
        assert("stability_spaces7_wordorglyph_4"@[10] != "stability_hebrew_wordorglyph_20"@[10]);
        reveal_strlit("stability_arabic_wordorglyph_40");
        assert("stability_spaces7_wordorglyph_4"@[10] != "stability_arabic_wordorglyph_40"@[10]);
        reveal_strlit("stability_arabic_wordorglyph_20");
        assert("stability_spaces7_wordorglyph_4"@[10] != "stability_arabic_wordorglyph_20"@[10]);
        reveal_strlit("stability_spaces3_wordorglyph_5");
        assert("stability_spaces7_wordorglyph_4"@[16] != "stability_spaces3_wordorglyph_5"@[16]);
        assert(parity_cases()[15].id@ == "stability_spaces7_wordorglyph_4"@);
    } else if i == 16 {
        reveal_strlit("stability_hello_word_word_80");
        reveal_strlit("stability_mix_arabic_word_80");
        assert("stability_hello_word_word_80"@[10] != "stability_mix_arabic_word_80"@[10]);
        reveal_strlit("stability_long_latin_word_80");
        assert("stability_hello_word_word_80"@[10] != "stability_long_latin_word_80"@[10]);
        reveal_strlit("stability_long_latin_word_20");
        assert("stability_hello_word_word_80"@[10] != "stability_long_latin_word_20"@[10]);
        assert(parity_cases()[16].id@ == "stability_hello_word_word_80"@);
    } else if i == 17 {
        reveal_strlit("stability_long_latin_wordorglyph_80");
        reveal_strlit("stability_mix_arabic_wordorglyph_80");
        assert("stability_long_latin_wordorglyph_80"@[10] != "stability_mix_arabic_wordorglyph_80"@[10]);
        reveal_strlit("stability_mix_arabic_wordorglyph_20");
        assert("stability_long_latin_wordorglyph_80"@[10] != "stability_mix_arabic_wordorglyph_20"@[10]);
        reveal_strlit("stability_long_latin_wordorglyph_20");
        assert("stability_long_latin_wordorglyph_80"@[33] != "stability_long_latin_wordorglyph_20"@[33]);
        assert(parity_cases()[17].id@ == "stability_long_latin_wordorglyph_80"@);
    } else if i == 18 {
        reveal_strlit("stability_long_latin_glyph_20");
        reveal_strlit("english_hebrew_paragraph_noto");
        assert("stability_long_latin_glyph_20"@[0] != "english_hebrew_paragraph_noto"@[0]);
        reveal_strlit("english_arabic_paragraph_noto");
        assert("stability_long_latin_glyph_20"@[0] != "english_arabic_paragraph_noto"@[0]);
        reveal_strlit("stability_space_wordorglyph_4");
        assert("stability_long_latin_glyph_20"@[10] != "stability_space_wordorglyph_4"@[10]);
        reveal_strlit("stability_mix_arabic_word_198");
        assert("stability_long_latin_glyph_20"@[10] != "stability_mix_arabic_word_198"@[10]);
        reveal_strlit("stability_mix_arabic_glyph_20");
        assert("stability_long_latin_glyph_20"@[10] != "stability_mix_arabic_glyph_20"@[10]);
        assert(parity_cases()[18].id@ == "stability_long_latin_glyph_20"@);
    } else if i == 19 {
        reveal_strlit("stability_hebrew_wordorglyph_none");
        reveal_strlit("stability_arabic_wordorglyph_none");
        assert("stability_hebrew_wordorglyph_none"@[10] != "stability_arabic_wordorglyph_none"@[10]);
        assert(parity_cases()[19].id@ == "stability_hebrew_wordorglyph_none"@);
    } else if i == 20 {
        reveal_strlit("stability_hebrew_wordorglyph_80");
        reveal_strlit("stability_spaces7_wordorglyph_4");
        assert("stability_hebrew_wordorglyph_80"@[10] != "stability_spaces7_wordorglyph_4"@[10]);
        reveal_strlit("stability_arabic_wordorglyph_80");
        assert("stability_hebrew_wordorglyph_80"@[10] != "stability_arabic_wordorglyph_80"@[10]);
        reveal_strlit("stability_hebrew_wordorglyph_40");
        assert("stability_hebrew_wordorglyph_80"@[29] != "stability_hebrew_wordorglyph_40"@[29]);
        reveal_strlit("stability_hebrew_wordorglyph_20");
        assert("stability_hebrew_wordorglyph_80"@[29] != "stability_hebrew_wordorglyph_20"@[29]);
        reveal_strlit("stability_arabic_wordorglyph_40");
        assert("stability_hebrew_wordorglyph_80"@[10] != "stability_arabic_wordorglyph_40"@[10]);
        reveal_strlit("stability_arabic_wordorglyph_20");
        assert("stability_hebrew_wordorglyph_80"@[10] != "stability_arabic_wordorglyph_20"@[10]);
        reveal_strlit("stability_spaces3_wordorglyph_5");
        assert("stability_hebrew_wordorglyph_80"@[10] != "stability_spaces3_wordorglyph_5"@[10]);
        assert(parity_cases()[20].id@ == "stability_hebrew_wordorglyph_80"@);
    } else if i == 21 {
        reveal_strlit("stability_arabic_wordorglyph_none");
        reveal_strlit("stability_hebrew_wordorglyph_none");
        assert("stability_arabic_wordorglyph_none"@[10] != "stability_hebrew_wordorglyph_none"@[10]);
        assert(parity_cases()[21].id@ == "stability_arabic_wordorglyph_none"@);
    } else if i == 22 {
        reveal_strlit("stability_arabic_wordorglyph_80");
        reveal_strlit("stability_spaces7_wordorglyph_4");
        assert("stability_arabic_wordorglyph_80"@[10] != "stability_spaces7_wordorglyph_4"@[10]);
        reveal_strlit("stability_hebrew_wordorglyph_80");
        assert("stability_arabic_wordorglyph_80"@[10] != "stability_hebrew_wordorglyph_80"@[10]);
        reveal_strlit("stability_hebrew_wordorglyph_40");
        assert("stability_arabic_wordorglyph_80"@[10] != "stability_hebrew_wordorglyph_40"@[10]);
        reveal_strlit("stability_hebrew_wordorglyph_20");
        assert("stability_arabic_wordorglyph_80"@[10] != "stability_hebrew_wordorglyph_20"@[10]);
        reveal_strlit("stability_arabic_wordorglyph_40");
        assert("stability_arabic_wordorglyph_80"@[29] != "stability_arabic_wordorglyph_40"@[29]);
        reveal_strlit("stability_arabic_wordorglyph_20");
        assert("stability_arabic_wordorglyph_80"@[29] != "stability_arabic_wordorglyph_20"@[29]);
        reveal_strlit("stability_spaces3_wordorglyph_5");
        assert("stability_arabic_wordorglyph_80"@[10] != "stability_spaces3_wordorglyph_5"@[10]);
        assert(parity_cases()[22].id@ == "stability_arabic_wordorglyph_80"@);
    } else if i == 23 {
        reveal_strlit("stability_mix_arabic_wordorglyph_80");
        reveal_strlit("stability_long_latin_wordorglyph_80");
        assert("stability_mix_arabic_wordorglyph_80"@[10] != "stability_long_latin_wordorglyph_80"@[10]);
        reveal_strlit("stability_mix_arabic_wordorglyph_20");
        assert("stability_mix_arabic_wordorglyph_80"@[33] != "stability_mix_arabic_wordorglyph_20"@[33]);
        reveal_strlit("stability_long_latin_wordorglyph_20");
        assert("stability_mix_arabic_wordorglyph_80"@[10] != "stability_long_latin_wordorglyph_20"@[10]);
        assert(parity_cases()[23].id@ == "stability_mix_arabic_wordorglyph_80"@);
    } else if i == 24 {
        reveal_strlit("stability_mix_arabic_word_80");
        reveal_strlit("stability_hello_word_word_80");
        assert("stability_mix_arabic_word_80"@[10] != "stability_hello_word_word_80"@[10]);
        reveal_strlit("stability_long_latin_word_80");
        assert("stability_mix_arabic_word_80"@[10] != "stability_long_latin_word_80"@[10]);
        reveal_strlit("stability_long_latin_word_20");
        assert("stability_mix_arabic_word_80"@[10] != "stability_long_latin_word_20"@[10]);
        assert(parity_cases()[24].id@ == "stability_mix_arabic_word_80"@);
    } else if i == 25 {
        reveal_strlit("stability_mix_arabic_word_198");
        reveal_strlit("english_hebrew_paragraph_noto");
        assert("stability_mix_arabic_word_198"@[0] != "english_hebrew_paragraph_noto"@[0]);
        reveal_strlit("english_arabic_paragraph_noto");
        assert("stability_mix_arabic_word_198"@[0] != "english_arabic_paragraph_noto"@[0]);
        reveal_strlit("stability_space_wordorglyph_4");
        assert("stability_mix_arabic_word_198"@[10] != "stability_space_wordorglyph_4"@[10]);
        reveal_strlit("stability_long_latin_glyph_20");
        assert("stability_mix_arabic_word_198"@[10] != "stability_long_latin_glyph_20"@[10]);
        reveal_strlit("stability_mix_arabic_glyph_20");
        assert("stability_mix_arabic_word_198"@[21] != "stability_mix_arabic_glyph_20"@[21]);
        assert(parity_cases()[25].id@ == "stability_mix_arabic_word_198"@);
    } else if i == 26 {
        reveal_strlit("stability_hebrew_wordorglyph_40");
        reveal_strlit("stability_spaces7_wordorglyph_4");
        assert("stability_hebrew_wordorglyph_40"@[10] != "stability_spaces7_wordorglyph_4"@[10]);
        reveal_strlit("stability_hebrew_wordorglyph_80");
        assert("stability_hebrew_wordorglyph_40"@[29] != "stability_hebrew_wordorglyph_80"@[29]);
        reveal_strlit("stability_arabic_wordorglyph_80");
        assert("stability_hebrew_wordorglyph_40"@[10] != "stability_arabic_wordorglyph_80"@[10]);
        reveal_strlit("stability_hebrew_wordorglyph_20");
        assert("stability_hebrew_wordorglyph_40"@[29] != "stability_hebrew_wordorglyph_20"@[29]);
        reveal_strlit("stability_arabic_wordorglyph_40");
        assert("stability_hebrew_wordorglyph_40"@[10] != "stability_arabic_wordorglyph_40"@[10]);
        reveal_strlit("stability_arabic_wordorglyph_20");
        assert("stability_hebrew_wordorglyph_40"@[10] != "stability_arabic_wordorglyph_20"@[10]);
        reveal_strlit("stability_spaces3_wordorglyph_5");
        assert("stability_hebrew_wordorglyph_40"@[10] != "stability_spaces3_wordorglyph_5"@[10]);
        assert(parity_cases()[26].id@ == "stability_hebrew_wordorglyph_40"@);
    } else if i == 27 {
        reveal_strlit("stability_hebrew_wordorglyph_20");
        reveal_strlit("stability_spaces7_wordorglyph_4");
        assert("stability_hebrew_wordorglyph_20"@[10] != "stability_spaces7_wordorglyph_4"@[10]);
        reveal_strlit("stability_hebrew_wordorglyph_80");
        assert("stability_hebrew_wordorglyph_20"@[29] != "stability_hebrew_wordorglyph_80"@[29]);
        reveal_strlit("stability_arabic_wordorglyph_80");
        assert("stability_hebrew_wordorglyph_20"@[10] != "stability_arabic_wordorglyph_80"@[10]);
        reveal_strlit("stability_hebrew_wordorglyph_40");
        assert("stability_hebrew_wordorglyph_20"@[29] != "stability_hebrew_wordorglyph_40"@[29]);
        reveal_strlit("stability_arabic_wordorglyph_40");
        assert("stability_hebrew_wordorglyph_20"@[10] != "stability_arabic_wordorglyph_40"@[10]);
        reveal_strlit("stability_arabic_wordorglyph_20");
        assert("stability_hebrew_wordorglyph_20"@[10] != "stability_arabic_wordorglyph_20"@[10]);
        reveal_strlit("stability_spaces3_wordorglyph_5");
        assert("stability_hebrew_wordorglyph_20"@[10] != "stability_spaces3_wordorglyph_5"@[10]);
        assert(parity_cases()[27].id@ == "stability_hebrew_wordorglyph_20"@);
    } else if i == 28 {
        reveal_strlit("stability_hebrew_word_80");
        reveal_strlit("stability_arabic_word_80");
        assert("stability_hebrew_word_80"@[10] != "stability_arabic_word_80"@[10]);
        reveal_strlit("stability_spaces7_word_4");
        assert("stability_hebrew_word_80"@[10] != "stability_spaces7_word_4"@[10]);
        reveal_strlit("stability_spaces3_word_5");
        assert("stability_hebrew_word_80"@[10] != "stability_spaces3_word_5"@[10]);
        assert(parity_cases()[28].id@ == "stability_hebrew_word_80"@);
    } else if i == 29 {
        reveal_strlit("stability_hebrew_glyph_20");
        reveal_strlit("stability_arabic_glyph_20");
        assert("stability_hebrew_glyph_20"@[10] != "stability_arabic_glyph_20"@[10]);
        reveal_strlit("stability_mix_arabic_none");
        assert("stability_hebrew_glyph_20"@[10] != "stability_mix_arabic_none"@[10]);
        reveal_strlit("stability_long_latin_none");
        assert("stability_hebrew_glyph_20"@[10] != "stability_long_latin_none"@[10]);
        reveal_strlit("stability_spaces7_glyph_4");
        assert("stability_hebrew_glyph_20"@[10] != "stability_spaces7_glyph_4"@[10]);
        assert(parity_cases()[29].id@ == "stability_hebrew_glyph_20"@);
    } else if i == 30 {
        reveal_strlit("stability_arabic_wordorglyph_40");
        reveal_strlit("stability_spaces7_wordorglyph_4");
        assert("stability_arabic_wordorglyph_40"@[10] != "stability_spaces7_wordorglyph_4"@[10]);
        reveal_strlit("stability_hebrew_wordorglyph_80");
        assert("stability_arabic_wordorglyph_40"@[10] != "stability_hebrew_wordorglyph_80"@[10]);
        reveal_strlit("stability_arabic_wordorglyph_80");
        assert("stability_arabic_wordorglyph_40"@[29] != "stability_arabic_wordorglyph_80"@[29]);
        reveal_strlit("stability_hebrew_wordorglyph_40");
        assert("stability_arabic_wordorglyph_40"@[10] != "stability_hebrew_wordorglyph_40"@[10]);
        reveal_strlit("stability_hebrew_wordorglyph_20");
        assert("stability_arabic_wordorglyph_40"@[10] != "stability_hebrew_wordorglyph_20"@[10]);
        reveal_strlit("stability_arabic_wordorglyph_20");
        assert("stability_arabic_wordorglyph_40"@[29] != "stability_arabic_wordorglyph_20"@[29]);
        reveal_strlit("stability_spaces3_wordorglyph_5");
        assert("stability_arabic_wordorglyph_40"@[10] != "stability_spaces3_wordorglyph_5"@[10]);
        assert(parity_cases()[30].id@ == "stability_arabic_wordorglyph_40"@);
    } else if i == 31 {
        reveal_strlit("stability_arabic_wordorglyph_20");
        reveal_strlit("stability_spaces7_wordorglyph_4");
        assert("stability_arabic_wordorglyph_20"@[10] != "stability_spaces7_wordorglyph_4"@[10]);
        reveal_strlit("stability_hebrew_wordorglyph_80");
        assert("stability_arabic_wordorglyph_20"@[10] != "stability_hebrew_wordorglyph_80"@[10]);
        reveal_strlit("stability_arabic_wordorglyph_80");
        assert("stability_arabic_wordorglyph_20"@[29] != "stability_arabic_wordorglyph_80"@[29]);
        reveal_strlit("stability_hebrew_wordorglyph_40");
        assert("stability_arabic_wordorglyph_20"@[10] != "stability_hebrew_wordorglyph_40"@[10]);
        reveal_strlit("stability_hebrew_wordorglyph_20");
        assert("stability_arabic_wordorglyph_20"@[10] != "stability_hebrew_wordorglyph_20"@[10]);
        reveal_strlit("stability_arabic_wordorglyph_40");
        assert("stability_arabic_wordorglyph_20"@[29] != "stability_arabic_wordorglyph_40"@[29]);
        reveal_strlit("stability_spaces3_wordorglyph_5");
        assert("stability_arabic_wordorglyph_20"@[10] != "stability_spaces3_wordorglyph_5"@[10]);
        assert(parity_cases()[31].id@ == "stability_arabic_wordorglyph_20"@);
    } else if i == 32 {
        reveal_strlit("stability_arabic_word_80");
        reveal_strlit("stability_hebrew_word_80");
        assert("stability_arabic_word_80"@[10] != "stability_hebrew_word_80"@[10]);
        reveal_strlit("stability_spaces7_word_4");
        assert("stability_arabic_word_80"@[10] != "stability_spaces7_word_4"@[10]);
        reveal_strlit("stability_spaces3_word_5");
        assert("stability_arabic_word_80"@[10] != "stability_spaces3_word_5"@[10]);
        assert(parity_cases()[32].id@ == "stability_arabic_word_80"@);
    } else if i == 33 {
        reveal_strlit("stability_arabic_glyph_20");
        reveal_strlit("stability_hebrew_glyph_20");
        assert("stability_arabic_glyph_20"@[10] != "stability_hebrew_glyph_20"@[10]);
        reveal_strlit("stability_mix_arabic_none");
        assert("stability_arabic_glyph_20"@[10] != "stability_mix_arabic_none"@[10]);
        reveal_strlit("stability_long_latin_none");
        assert("stability_arabic_glyph_20"@[10] != "stability_long_latin_none"@[10]);
        reveal_strlit("stability_spaces7_glyph_4");
        assert("stability_arabic_glyph_20"@[10] != "stability_spaces7_glyph_4"@[10]);
        assert(parity_cases()[33].id@ == "stability_arabic_glyph_20"@);
    } else if i == 34 {
        reveal_strlit("stability_mix_arabic_wordorglyph_198");
        assert(parity_cases()[34].id@ == "stability_mix_arabic_wordorglyph_198"@);
    } else if i == 35 {
        reveal_strlit("stability_mix_arabic_wordorglyph_20");
        reveal_strlit("stability_long_latin_wordorglyph_80");
        assert("stability_mix_arabic_wordorglyph_20"@[10] != "stability_long_latin_wordorglyph_80"@[10]);
        reveal_strlit("stability_mix_arabic_wordorglyph_80");
        assert("stability_mix_arabic_wordorglyph_20"@[33] != "stability_mix_arabic_wordorglyph_80"@[33]);
        reveal_strlit("stability_long_latin_wordorglyph_20");
        assert("stability_mix_arabic_wordorglyph_20"@[10] != "stability_long_latin_wordorglyph_20"@[10]);
        assert(parity_cases()[35].id@ == "stability_mix_arabic_wordorglyph_20"@);
    } else if i == 36 {
        reveal_strlit("stability_mix_arabic_glyph_20");
        reveal_strlit("english_hebrew_paragraph_noto");
        assert("stability_mix_arabic_glyph_20"@[0] != "english_hebrew_paragraph_noto"@[0]);
        reveal_strlit("english_arabic_paragraph_noto");
        assert("stability_mix_arabic_glyph_20"@[0] != "english_arabic_paragraph_noto"@[0]);
        reveal_strlit("stability_space_wordorglyph_4");
        assert("stability_mix_arabic_glyph_20"@[10] != "stability_space_wordorglyph_4"@[10]);
        reveal_strlit("stability_long_latin_glyph_20");
        assert("stability_mix_arabic_glyph_20"@[10] != "stability_long_latin_glyph_20"@[10]);
        reveal_strlit("stability_mix_arabic_word_198");
        assert("stability_mix_arabic_glyph_20"@[21] != "stability_mix_arabic_word_198"@[21]);
        assert(parity_cases()[36].id@ == "stability_mix_arabic_glyph_20"@);
    } else if i == 37 {
        reveal_strlit("stability_mix_arabic_none");
        reveal_strlit("stability_hebrew_glyph_20");
        assert("stability_mix_arabic_none"@[10] != "stability_hebrew_glyph_20"@[10]);
        reveal_strlit("stability_arabic_glyph_20");
        assert("stability_mix_arabic_none"@[10] != "stability_arabic_glyph_20"@[10]);
        reveal_strlit("stability_long_latin_none");
        assert("stability_mix_arabic_none"@[10] != "stability_long_latin_none"@[10]);
        reveal_strlit("stability_spaces7_glyph_4");
        assert("stability_mix_arabic_none"@[10] != "stability_spaces7_glyph_4"@[10]);
        assert(parity_cases()[37].id@ == "stability_mix_arabic_none"@);
    } else if i == 38 {
        reveal_strlit("stability_long_latin_none");
        reveal_strlit("stability_hebrew_glyph_20");
        assert("stability_long_latin_none"@[10] != "stability_hebrew_glyph_20"@[10]);
        reveal_strlit("stability_arabic_glyph_20");
        assert("stability_long_latin_none"@[10] != "stability_arabic_glyph_20"@[10]);
        reveal_strlit("stability_mix_arabic_none");
        assert("stability_long_latin_none"@[10] != "stability_mix_arabic_none"@[10]);
        reveal_strlit("stability_spaces7_glyph_4");
        assert("stability_long_latin_none"@[10] != "stability_spaces7_glyph_4"@[10]);
        assert(parity_cases()[38].id@ == "stability_long_latin_none"@);
    } else if i == 39 {
        reveal_strlit("stability_long_latin_word_80");
        reveal_strlit("stability_hello_word_word_80");
        assert("stability_long_latin_word_80"@[10] != "stability_hello_word_word_80"@[10]);
        reveal_strlit("stability_mix_arabic_word_80");
        assert("stability_long_latin_word_80"@[10] != "stability_mix_arabic_word_80"@[10]);
        reveal_strlit("stability_long_latin_word_20");
        assert("stability_long_latin_word_80"@[26] != "stability_long_latin_word_20"@[26]);
        assert(parity_cases()[39].id@ == "stability_long_latin_word_80"@);
    } else if i == 40 {
        reveal_strlit("stability_long_latin_word_20");
        reveal_strlit("stability_hello_word_word_80");
        assert("stability_long_latin_word_20"@[10] != "stability_hello_word_word_80"@[10]);
        reveal_strlit("stability_mix_arabic_word_80");
        assert("stability_long_latin_word_20"@[10] != "stability_mix_arabic_word_80"@[10]);
        reveal_strlit("stability_long_latin_word_80");
        assert("stability_long_latin_word_20"@[26] != "stability_long_latin_word_80"@[26]);
        assert(parity_cases()[40].id@ == "stability_long_latin_word_20"@);
    } else if i == 41 {
        reveal_strlit("stability_long_latin_wordorglyph_20");
        reveal_strlit("stability_long_latin_wordorglyph_80");
        assert("stability_long_latin_wordorglyph_20"@[33] != "stability_long_latin_wordorglyph_80"@[33]);
        reveal_strlit("stability_mix_arabic_wordorglyph_80");
        assert("stability_long_latin_wordorglyph_20"@[10] != "stability_mix_arabic_wordorglyph_80"@[10]);
        reveal_strlit("stability_mix_arabic_wordorglyph_20");
        assert("stability_long_latin_wordorglyph_20"@[10] != "stability_mix_arabic_wordorglyph_20"@[10]);
        assert(parity_cases()[41].id@ == "stability_long_latin_wordorglyph_20"@);
    } else if i == 42 {
        reveal_strlit("stability_spaces7_word_4");
        reveal_strlit("stability_hebrew_word_80");
        assert("stability_spaces7_word_4"@[10] != "stability_hebrew_word_80"@[10]);
        reveal_strlit("stability_arabic_word_80");
        assert("stability_spaces7_word_4"@[10] != "stability_arabic_word_80"@[10]);
        reveal_strlit("stability_spaces3_word_5");
        assert("stability_spaces7_word_4"@[16] != "stability_spaces3_word_5"@[16]);
        assert(parity_cases()[42].id@ == "stability_spaces7_word_4"@);
    } else if i == 43 {
        reveal_strlit("stability_spaces3_word_5");
        reveal_strlit("stability_hebrew_word_80");
        assert("stability_spaces3_word_5"@[10] != "stability_hebrew_word_80"@[10]);
        reveal_strlit("stability_arabic_word_80");
        assert("stability_spaces3_word_5"@[10] != "stability_arabic_word_80"@[10]);
        reveal_strlit("stability_spaces7_word_4");
        assert("stability_spaces3_word_5"@[16] != "stability_spaces7_word_4"@[16]);
        assert(parity_cases()[43].id@ == "stability_spaces3_word_5"@);
    } else if i == 44 {
        reveal_strlit("stability_spaces3_wordorglyph_5");
        reveal_strlit("stability_spaces7_wordorglyph_4");
        assert("stability_spaces3_wordorglyph_5"@[16] != "stability_spaces7_wordorglyph_4"@[16]);
        reveal_strlit("stability_hebrew_wordorglyph_80");
        assert("stability_spaces3_wordorglyph_5"@[10] != "stability_hebrew_wordorglyph_80"@[10]);
        reveal_strlit("stability_arabic_wordorglyph_80");
        assert("stability_spaces3_wordorglyph_5"@[10] != "stability_arabic_wordorglyph_80"@[10]);
        reveal_strlit("stability_hebrew_wordorglyph_40");
        assert("stability_spaces3_wordorglyph_5"@[10] != "stability_hebrew_wordorglyph_40"@[10]);
        reveal_strlit("stability_hebrew_wordorglyph_20");
        assert("stability_spaces3_wordorglyph_5"@[10] != "stability_hebrew_wordorglyph_20"@[10]);
        reveal_strlit("stability_arabic_wordorglyph_40");
        assert("stability_spaces3_wordorglyph_5"@[10] != "stability_arabic_wordorglyph_40"@[10]);
        reveal_strlit("stability_arabic_wordorglyph_20");
        assert("stability_spaces3_wordorglyph_5"@[10] != "stability_arabic_wordorglyph_20"@[10]);
        assert(parity_cases()[44].id@ == "stability_spaces3_wordorglyph_5"@);
    } else if i == 45 {
        reveal_strlit("stability_spaces7_glyph_4");
        reveal_strlit("stability_hebrew_glyph_20");
        assert("stability_spaces7_glyph_4"@[10] != "stability_hebrew_glyph_20"@[10]);
        reveal_strlit("stability_arabic_glyph_20");
        assert("stability_spaces7_glyph_4"@[10] != "stability_arabic_glyph_20"@[10]);
        reveal_strlit("stability_mix_arabic_none");
        assert("stability_spaces7_glyph_4"@[10] != "stability_mix_arabic_none"@[10]);
        reveal_strlit("stability_long_latin_none");
        assert("stability_spaces7_glyph_4"@[10] != "stability_long_latin_none"@[10]);
        assert(parity_cases()[45].id@ == "stability_spaces7_glyph_4"@);
    } else if i == 46 {
        reveal_strlit("stability_tabs_glyph_20");
        assert(parity_cases()[46].id@ == "stability_tabs_glyph_20"@);
    } else if i == 47 {
        reveal_strlit("stability_tabs3_wordorglyph_none");
        reveal_strlit("stability_empty_wordorglyph_none");
        assert("stability_tabs3_wordorglyph_none"@[10] != "stability_empty_wordorglyph_none"@[10]);
        reveal_strlit("stability_space_wordorglyph_none");
        assert("stability_tabs3_wordorglyph_none"@[10] != "stability_space_wordorglyph_none"@[10]);
        assert(parity_cases()[47].id@ == "stability_tabs3_wordorglyph_none"@);
    } else {
    }
}

/// The case matrix, in the order in which a run processes it.
pub fn mk_cases() -> (r: Vec<ParityCase>)
    ensures
        r@ == parity_cases(),
        r.len() == CASE_COUNT,
        forall|i: int| 0 <= i < r.len() ==> (#[trigger] r[i]).wf(),
        forall|i: int| 0 <= i < r.len() ==> known_family(#[trigger] r[i]),
        forall|i: int, j: int| 0 <= i < j < r.len() ==> r[i].id@ != r[j].id@,
{
    proof {
        lemma_parity_cases_valid();
    }
    let r = vec![
        new_case("ascii_sentence", MOUSE_SENTENCE, "Inter", 16_000_000, WrapPolicy::NoWrap, None),
        new_case("ascii_tabs", TABBED_LETTERS, "Inter", 16_000_000, WrapPolicy::NoWrap, None),
        new_case("mix_hebrew", BIDI_SENTENCE_HEBREW, "Inter", 16_000_000, WrapPolicy::NoWrap, None),
        new_case("mix_arabic", ARABIC_IN_LATIN, "Inter", 16_000_000, WrapPolicy::NoWrap, None),
        new_case("wrap_word_or_glyph", LOREM_IPSUM, "Inter", 16_000_000, WrapPolicy::WordOrGlyph, Some(50_000_000)),
        new_case("wrap_word", HEBREW_THEN_LATIN, "Inter", 16_000_000, WrapPolicy::Word, Some(30_000_000)),
        new_case("hebrew_word_noto", HEBREW_WORD, "Noto Sans", 36_000_000, WrapPolicy::NoWrap, None),
        new_case("hebrew_paragraph_noto", HEBREW_PARAGRAPH, "Noto Sans", 36_000_000, WrapPolicy::WordOrGlyph, Some(210_000_000)),
        new_case("english_hebrew_paragraph_noto", BIDI_PARAGRAPH_HEBREW, "Noto Sans", 16_000_000, WrapPolicy::WordOrGlyph, Some(200_000_000)),
        new_case("arabic_word_noto", ARABIC_WORD, "Noto Sans", 36_000_000, WrapPolicy::NoWrap, None),
        new_case("arabic_paragraph_noto", ARABIC_PARAGRAPH, "Noto Sans", 36_000_000, WrapPolicy::WordOrGlyph, Some(210_000_000)),
        new_case("english_arabic_paragraph_noto", ARABIC_IN_LATIN, "Noto Sans", 36_000_000, WrapPolicy::WordOrGlyph, Some(190_000_000)),
        new_case("stability_empty_wordorglyph_none", EMPTY, "Inter", 18_000_000, WrapPolicy::WordOrGlyph, None),
        new_case("stability_space_wordorglyph_none", ONE_SPACE, "Inter", 18_000_000, WrapPolicy::WordOrGlyph, None),
        new_case("stability_space_wordorglyph_4", ONE_SPACE, "Inter", 18_000_000, WrapPolicy::WordOrGlyph, Some(4_000_000)),
        new_case("stability_spaces7_wordorglyph_4", SEVEN_SPACES, "Inter", 18_000_000, WrapPolicy::WordOrGlyph, Some(4_000_000)),
        new_case("stability_hello_word_word_80", HELLO_WORLD, "Inter", 18_000_000, WrapPolicy::Word, Some(80_000_000)),
        new_case("stability_long_latin_wordorglyph_80", LOREM_IPSUM, "Inter", 18_000_000, WrapPolicy::WordOrGlyph, Some(80_000_000)),
        new_case("stability_long_latin_glyph_20", LOREM_IPSUM, "Inter", 18_000_000, WrapPolicy::Glyph, Some(20_000_000)),
        new_case("stability_hebrew_wordorglyph_none", HEBREW_POINTED, "Inter", 18_000_000, WrapPolicy::WordOrGlyph, None),
        new_case("stability_hebrew_wordorglyph_80", HEBREW_POINTED, "Inter", 18_000_000, WrapPolicy::WordOrGlyph, Some(80_000_000)),
        new_case("stability_arabic_wordorglyph_none", ARABIC_VOWELLED, "Inter", 18_000_000, WrapPolicy::WordOrGlyph, None),
        new_case("stability_arabic_wordorglyph_80", ARABIC_VOWELLED, "Inter", 18_000_000, WrapPolicy::WordOrGlyph, Some(80_000_000)),
        new_case("stability_mix_arabic_wordorglyph_80", ARABIC_IN_LATIN, "Inter", 18_000_000, WrapPolicy::WordOrGlyph, Some(80_000_000)),
        new_case("stability_mix_arabic_word_80", ARABIC_IN_LATIN, "Inter", 18_000_000, WrapPolicy::Word, Some(80_000_000)),
        new_case("stability_mix_arabic_word_198", ARABIC_IN_LATIN, "Inter", 18_000_000, WrapPolicy::Word, Some(198_213_200)),
        new_case("stability_hebrew_wordorglyph_40", HEBREW_POINTED, "Inter", 18_000_000, WrapPolicy::WordOrGlyph, Some(40_000_000)),
        new_case("stability_hebrew_wordorglyph_20", HEBREW_POINTED, "Inter", 18_000_000, WrapPolicy::WordOrGlyph, Some(20_000_000)),
        new_case("stability_hebrew_word_80", HEBREW_POINTED, "Inter", 18_000_000, WrapPolicy::Word, Some(80_000_000)),
        new_case("stability_hebrew_glyph_20", HEBREW_POINTED, "Inter", 18_000_000, WrapPolicy::Glyph, Some(20_000_000)),
        new_case("stability_arabic_wordorglyph_40", ARABIC_VOWELLED, "Inter", 18_000_000, WrapPolicy::WordOrGlyph, Some(40_000_000)),
        new_case("stability_arabic_wordorglyph_20", ARABIC_VOWELLED, "Inter", 18_000_000, WrapPolicy::WordOrGlyph, Some(20_000_000)),
        new_case("stability_arabic_word_80", ARABIC_VOWELLED, "Inter", 18_000_000, WrapPolicy::Word, Some(80_000_000)),
        new_case("stability_arabic_glyph_20", ARABIC_VOWELLED, "Inter", 18_000_000, WrapPolicy::Glyph, Some(20_000_000)),
        new_case("stability_mix_arabic_wordorglyph_198", ARABIC_IN_LATIN, "Inter", 18_000_000, WrapPolicy::WordOrGlyph, Some(198_213_200)),
        new_case("stability_mix_arabic_wordorglyph_20", ARABIC_IN_LATIN, "Inter", 18_000_000, WrapPolicy::WordOrGlyph, Some(20_000_000)),
        new_case("stability_mix_arabic_glyph_20", ARABIC_IN_LATIN, "Inter", 18_000_000, WrapPolicy::Glyph, Some(20_000_000)),
        new_case("stability_mix_arabic_none", ARABIC_IN_LATIN, "Inter", 18_000_000, WrapPolicy::NoWrap, None),
        new_case("stability_long_latin_none", LOREM_IPSUM, "Inter", 18_000_000, WrapPolicy::NoWrap, None),
        new_case("stability_long_latin_word_80", LOREM_IPSUM, "Inter", 18_000_000, WrapPolicy::Word, Some(80_000_000)),
        new_case("stability_long_latin_word_20", LOREM_IPSUM, "Inter", 18_000_000, WrapPolicy::Word, Some(20_000_000)),
        new_case("stability_long_latin_wordorglyph_20", LOREM_IPSUM, "Inter", 18_000_000, WrapPolicy::WordOrGlyph, Some(20_000_000)),
        new_case("stability_spaces7_word_4", SEVEN_SPACES, "Inter", 18_000_000, WrapPolicy::Word, Some(4_000_000)),
        new_case("stability_spaces3_word_5", THREE_SPACES, "Inter", 18_000_000, WrapPolicy::Word, Some(5_000_000)),
        new_case("stability_spaces3_wordorglyph_5", THREE_SPACES, "Inter", 18_000_000, WrapPolicy::WordOrGlyph, Some(5_000_000)),
        new_case("stability_spaces7_glyph_4", SEVEN_SPACES, "Inter", 18_000_000, WrapPolicy::Glyph, Some(4_000_000)),
        new_case("stability_tabs_glyph_20", TABBED_LETTERS, "Inter", 18_000_000, WrapPolicy::Glyph, Some(20_000_000)),
        new_case("stability_tabs3_wordorglyph_none", THREE_TABS, "Inter", 18_000_000, WrapPolicy::WordOrGlyph, None),
    ];
    assert(r@ =~= parity_cases());
    r
}

} // verus!
