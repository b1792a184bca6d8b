use vstd::prelude::*;
use vstd::string::*;

use crate::unicode_character::UnicodeCharacter;

verus! {

/// The name of the Unicode block that every character of this table belongs to.
pub open spec fn arabic_block() -> Seq<char> {
    "Arabic"@
}

/// The metadata of one character: its Unicode name and scalar value.
///
/// The block is not stored: it is the same for every entry of the table.
#[derive(Clone, Copy, Debug)]
pub struct CharacterRecord {
    pub name: &'static str,
    pub scalar_value: char,
}

impl View for CharacterRecord {
    type V = (Seq<char>, char);

    open spec fn view(&self) -> (Seq<char>, char) {
        (self.name@, self.scalar_value)
    }
}

impl UnicodeCharacter for CharacterRecord {
    open spec fn spec_block(&self) -> Seq<char> {
        arabic_block()
    }

    open spec fn spec_name(&self) -> Seq<char> {
        self.name@
    }

    open spec fn spec_scalar_value(&self) -> char {
        self.scalar_value
    }

    fn block(&self) -> (r: &'static str) {
        "Arabic"
    }

    fn name(&self) -> (r: &'static str) {
        self.name
    }

    fn scalar_value(&self) -> (r: char) {
        self.scalar_value
    }
}

/// A character of the Arabic script.
///
/// A value is built by naming one of the variants (`ArabicCharacter::ArabicLetterDad`),
/// or from a `char` with `ArabicCharacter::try_from`, which fails on any scalar value
/// that is not one of the variants' own.
#[derive(Clone, Copy, Debug)]
pub enum ArabicCharacter {
    ArabicLetterHamza,
    ArabicLetterAlefWithMaddaAbove,
    ArabicLetterAlefWithHamzaAbove,
    ArabicLetterWawWithHamzaAbove,
    ArabicLetterAlefWithHamzaBelow,
    ArabicLetterYehWithHamzaAbove,
    ArabicLetterAlef,
    ArabicLetterBeh,
    ArabicLetterTehMarbuta,
    ArabicLetterTeh,
    ArabicLetterTheh,
    ArabicLetterJeem,
    ArabicLetterHah,
    ArabicLetterKhah,
    ArabicLetterDal,
    ArabicLetterThal,
    ArabicLetterReh,
    ArabicLetterZain,
    ArabicLetterSeen,
    ArabicLetterSheen,
    ArabicLetterSad,
    ArabicLetterDad,
    ArabicLetterTah,
    ArabicLetterZah,
    ArabicLetterAin,
    ArabicLetterGhain,
    ArabicTatweel,
    ArabicLetterFeh,
    ArabicLetterQaf,
    ArabicLetterKaf,
    ArabicLetterLam,
    ArabicLetterMeem,
    ArabicLetterNoon,
    ArabicLetterHeh,
    ArabicLetterWaw,
    ArabicLetterAlefMaksura,
    ArabicLetterYeh,
    ArabicFathatan,
    ArabicDammatan,
    ArabicKasratan,
    ArabicFatha,
    ArabicDamma,
    ArabicKasra,
    ArabicShadda,
    ArabicSukun,
}

impl ArabicCharacter {
    /// The Unicode name and scalar value of each variant.
    pub open spec fn spec_character(self) -> (Seq<char>, char) {
        match self {
            Self::ArabicLetterHamza => ("Arabic Letter Hamza"@, '\u{0621}'),
            Self::ArabicLetterAlefWithMaddaAbove => ("Arabic Letter Alef With Madda Above"@, '\u{0622}'),
            Self::ArabicLetterAlefWithHamzaAbove => ("Arabic Letter Alef With Hamza Above"@, '\u{0623}'),
            Self::ArabicLetterWawWithHamzaAbove => ("Arabic Letter Waw With Hamza Above"@, '\u{0624}'),
            Self::ArabicLetterAlefWithHamzaBelow => ("Arabic Letter Alef With Hamza Below"@, '\u{0625}'),
            Self::ArabicLetterYehWithHamzaAbove => ("Arabic Letter Yeh With Hamza Above"@, '\u{0626}'),
            Self::ArabicLetterAlef => ("Arabic Letter Alef"@, '\u{0627}'),
            Self::ArabicLetterBeh => ("Arabic Letter Beh"@, '\u{0628}'),
            Self::ArabicLetterTehMarbuta => ("Arabic Letter Teh Marbuta"@, '\u{0629}'),
            Self::ArabicLetterTeh => ("Arabic Letter Teh"@, '\u{062A}'),
            Self::ArabicLetterTheh => ("Arabic Letter Theh"@, '\u{062B}'),
            Self::ArabicLetterJeem => ("Arabic Letter Jeem"@, '\u{062C}'),
            Self::ArabicLetterHah => ("Arabic Letter Hah"@, '\u{062D}'),
            Self::ArabicLetterKhah => ("Arabic Letter Khah"@, '\u{062E}'),
            Self::ArabicLetterDal => ("Arabic Letter Dal"@, '\u{062F}'),
            Self::ArabicLetterThal => ("Arabic Letter Thal"@, '\u{0630}'),
            Self::ArabicLetterReh => ("Arabic Letter Reh"@, '\u{0631}'),
            Self::ArabicLetterZain => ("Arabic Letter Zain"@, '\u{0632}'),
            Self::ArabicLetterSeen => ("Arabic Letter Seen"@, '\u{0633}'),
            Self::ArabicLetterSheen => ("Arabic Letter Sheen"@, '\u{0634}'),
            Self::ArabicLetterSad => ("Arabic Letter Sad"@, '\u{0635}'),
            Self::ArabicLetterDad => ("Arabic Letter Dad"@, '\u{0636}'),
            Self::ArabicLetterTah => ("Arabic Letter Tah"@, '\u{0637}'),
            Self::ArabicLetterZah => ("Arabic Letter Zah"@, '\u{0638}'),
            Self::ArabicLetterAin => ("Arabic Letter Ain"@, '\u{0639}'),
            Self::ArabicLetterGhain => ("Arabic Letter Ghain"@, '\u{063A}'),
            Self::ArabicTatweel => ("Arabic Tatweel"@, '\u{0640}'),
            Self::ArabicLetterFeh => ("Arabic Letter Feh"@, '\u{0641}'),
            Self::ArabicLetterQaf => ("Arabic Letter Qaf"@, '\u{0642}'),
            Self::ArabicLetterKaf => ("Arabic Letter Kaf"@, '\u{0643}'),
            Self::ArabicLetterLam => ("Arabic Letter Lam"@, '\u{0644}'),
            Self::ArabicLetterMeem => ("Arabic Letter Meem"@, '\u{0645}'),
            Self::ArabicLetterNoon => ("Arabic Letter Noon"@, '\u{0646}'),
            Self::ArabicLetterHeh => ("Arabic Letter Heh"@, '\u{0647}'),
            Self::ArabicLetterWaw => ("Arabic Letter Waw"@, '\u{0648}'),
            Self::ArabicLetterAlefMaksura => ("Arabic Letter Alef Maksura"@, '\u{0649}'),
            Self::ArabicLetterYeh => ("Arabic Letter Yeh"@, '\u{064A}'),
            Self::ArabicFathatan => ("Arabic Fathatan"@, '\u{064B}'),
            Self::ArabicDammatan => ("Arabic Dammatan"@, '\u{064C}'),
            Self::ArabicKasratan => ("Arabic Kasratan"@, '\u{064D}'),
            Self::ArabicFatha => ("Arabic Fatha"@, '\u{064E}'),
            Self::ArabicDamma => ("Arabic Damma"@, '\u{064F}'),
            Self::ArabicKasra => ("Arabic Kasra"@, '\u{0650}'),
            Self::ArabicShadda => ("Arabic Shadda"@, '\u{0651}'),
            Self::ArabicSukun => ("Arabic Sukun"@, '\u{0652}'),
        }
    }

    /// Returns the metadata of the character: its name and scalar value.
    pub fn character(&self) -> (r: CharacterRecord)
        ensures
            r@ == self.spec_character(),
    {
        match self {
            Self::ArabicLetterHamza => CharacterRecord {
                name: "Arabic Letter Hamza",
                scalar_value: '\u{0621}',
            },
            Self::ArabicLetterAlefWithMaddaAbove => CharacterRecord {
                name: "Arabic Letter Alef With Madda Above",
                scalar_value: '\u{0622}',
            },
            Self::ArabicLetterAlefWithHamzaAbove => CharacterRecord {
                name: "Arabic Letter Alef With Hamza Above",
                scalar_value: '\u{0623}',
            },
            Self::ArabicLetterWawWithHamzaAbove => CharacterRecord {
                name: "Arabic Letter Waw With Hamza Above",
                scalar_value: '\u{0624}',
            },
            Self::ArabicLetterAlefWithHamzaBelow => CharacterRecord {
                name: "Arabic Letter Alef With Hamza Below",
                scalar_value: '\u{0625}',
            },
            Self::ArabicLetterYehWithHamzaAbove => CharacterRecord {
                name: "Arabic Letter Yeh With Hamza Above",
                scalar_value: '\u{0626}',
            },
            Self::ArabicLetterAlef => CharacterRecord {
                name: "Arabic Letter Alef",
                scalar_value: '\u{0627}',
            },
            Self::ArabicLetterBeh => CharacterRecord {
                name: "Arabic Letter Beh",
                scalar_value: '\u{0628}',
            },
            Self::ArabicLetterTehMarbuta => CharacterRecord {
                name: "Arabic Letter Teh Marbuta",
                scalar_value: '\u{0629}',
            },
            Self::ArabicLetterTeh => CharacterRecord {
                name: "Arabic Letter Teh",
                scalar_value: '\u{062A}',
            },
            Self::ArabicLetterTheh => CharacterRecord {
                name: "Arabic Letter Theh",
                scalar_value: '\u{062B}',
            },
            Self::ArabicLetterJeem => CharacterRecord {
                name: "Arabic Letter Jeem",
                scalar_value: '\u{062C}',
            },
            Self::ArabicLetterHah => CharacterRecord {
                name: "Arabic Letter Hah",
                scalar_value: '\u{062D}',
            },
            Self::ArabicLetterKhah => CharacterRecord {
                name: "Arabic Letter Khah",
                scalar_value: '\u{062E}',
            },
            Self::ArabicLetterDal => CharacterRecord {
                name: "Arabic Letter Dal",
                scalar_value: '\u{062F}',
            },
            Self::ArabicLetterThal => CharacterRecord {
                name: "Arabic Letter Thal",
                scalar_value: '\u{0630}',
            },
            Self::ArabicLetterReh => CharacterRecord {
                name: "Arabic Letter Reh",
                scalar_value: '\u{0631}',
            },
            Self::ArabicLetterZain => CharacterRecord {
                name: "Arabic Letter Zain",
                scalar_value: '\u{0632}',
            },
            Self::ArabicLetterSeen => CharacterRecord {
                name: "Arabic Letter Seen",
                scalar_value: '\u{0633}',
            },
            Self::ArabicLetterSheen => CharacterRecord {
                name: "Arabic Letter Sheen",
                scalar_value: '\u{0634}',
            },
            Self::ArabicLetterSad => CharacterRecord {
                name: "Arabic Letter Sad",
                scalar_value: '\u{0635}',
            },
            Self::ArabicLetterDad => CharacterRecord {
                name: "Arabic Letter Dad",
                scalar_value: '\u{0636}',
            },
            Self::ArabicLetterTah => CharacterRecord {
                name: "Arabic Letter Tah",
                scalar_value: '\u{0637}',
            },
            Self::ArabicLetterZah => CharacterRecord {
                name: "Arabic Letter Zah",
                scalar_value: '\u{0638}',
            },
            Self::ArabicLetterAin => CharacterRecord {
                name: "Arabic Letter Ain",
                scalar_value: '\u{0639}',
            },
            Self::ArabicLetterGhain => CharacterRecord {
                name: "Arabic Letter Ghain",
                scalar_value: '\u{063A}',
            },
            Self::ArabicTatweel => CharacterRecord {
                name: "Arabic Tatweel",
                scalar_value: '\u{0640}',
            },
            Self::ArabicLetterFeh => CharacterRecord {
                name: "Arabic Letter Feh",
                scalar_value: '\u{0641}',
            },
            Self::ArabicLetterQaf => CharacterRecord {
                name: "Arabic Letter Qaf",
                scalar_value: '\u{0642}',
            },
            Self::ArabicLetterKaf => CharacterRecord {
                name: "Arabic Letter Kaf",
                scalar_value: '\u{0643}',
            },
            Self::ArabicLetterLam => CharacterRecord {
                name: "Arabic Letter Lam",
                scalar_value: '\u{0644}',
            },
            Self::ArabicLetterMeem => CharacterRecord {
                name: "Arabic Letter Meem",
                scalar_value: '\u{0645}',
            },
            Self::ArabicLetterNoon => CharacterRecord {
                name: "Arabic Letter Noon",
                scalar_value: '\u{0646}',
            },
            Self::ArabicLetterHeh => CharacterRecord {
                name: "Arabic Letter Heh",
                scalar_value: '\u{0647}',
            },
            Self::ArabicLetterWaw => CharacterRecord {
                name: "Arabic Letter Waw",
                scalar_value: '\u{0648}',
            },
            Self::ArabicLetterAlefMaksura => CharacterRecord {
                name: "Arabic Letter Alef Maksura",
                scalar_value: '\u{0649}',
            },
            Self::ArabicLetterYeh => CharacterRecord {
                name: "Arabic Letter Yeh",
                scalar_value: '\u{064A}',
            },
            Self::ArabicFathatan => CharacterRecord {
                name: "Arabic Fathatan",
                scalar_value: '\u{064B}',
            },
            Self::ArabicDammatan => CharacterRecord {
                name: "Arabic Dammatan",
                scalar_value: '\u{064C}',
            },
            Self::ArabicKasratan => CharacterRecord {
                name: "Arabic Kasratan",
                scalar_value: '\u{064D}',
            },
            Self::ArabicFatha => CharacterRecord {
                name: "Arabic Fatha",
                scalar_value: '\u{064E}',
            },
            Self::ArabicDamma => CharacterRecord {
                name: "Arabic Damma",
                scalar_value: '\u{064F}',
            },
            Self::ArabicKasra => CharacterRecord {
                name: "Arabic Kasra",
                scalar_value: '\u{0650}',
            },
            Self::ArabicShadda => CharacterRecord {
                name: "Arabic Shadda",
                scalar_value: '\u{0651}',
            },
            Self::ArabicSukun => CharacterRecord {
                name: "Arabic Sukun",
                scalar_value: '\u{0652}',
            },
        }
    }
}

impl UnicodeCharacter for ArabicCharacter {
    open spec fn spec_block(&self) -> Seq<char> {
        arabic_block()
    }

    open spec fn spec_name(&self) -> Seq<char> {
        self.spec_character().0
    }

    open spec fn spec_scalar_value(&self) -> char {
        self.spec_character().1
    }

    fn block(&self) -> (r: &'static str)
        ensures
            r@ == arabic_block(),
    {
        self.character().block()
    }

    fn name(&self) -> (r: &'static str) {
        self.character().name()
    }

    fn scalar_value(&self) -> (r: char) {
        self.character().scalar_value()
    }
}

impl ArabicCharacter {
    /// The debug form of the character: its name, then its scalar value in braces.
    pub open spec fn spec_format_debug(self) -> Seq<char> {
        self.spec_name() + " { "@ + seq![self.spec_scalar_value()] + " }"@
    }

    /// Returns the debug form of the character, such as `"Arabic Letter Hamza { \u{0621} }"`.
    pub fn format_debug(&self) -> (r: String)
        ensures
            r@ == self.spec_format_debug(),
    {
        let mut s = String::from_str(self.name());
        s.append(" { ");
        let glyph = self.format_display();
        s.append(glyph.as_str());
        s.append(" }");
        s
    }

    /// Returns the display form of the character: its scalar value alone.
    pub fn format_display(&self) -> (r: String)
        ensures
            r@ == seq![self.spec_scalar_value()],
    {
        char_to_string(self.scalar_value())
    }
}

/// Relies on `String::from(char)`: a string that holds that one character.
#[verifier::external_body]
fn char_to_string(c: char) -> (r: String)
    ensures
        r@ == seq![c],
{
    String::from(c)
}

/// Whether `s` is the one-character string of `c`.
pub open spec fn is_string_of(s: Seq<char>, c: char) -> bool {
    s == seq![c]
}

/// Tests `s` against the one-character string of `c`.
fn str_is_string_of(s: &str, c: char) -> (r: bool)
    ensures
        r == is_string_of(s@, c),
{
    let r = s.unicode_len() == 1 && s.get_char(0) == c;
    proof {
        if r {
            assert(s@ =~= seq![c]);
        }
    }
    r
}

/// Two characters are equal when their blocks, names and scalar values are.
impl PartialEq for ArabicCharacter {
    fn eq(&self, other: &Self) -> (r: bool) {
        let r = self.scalar_value() == other.scalar_value();
        proof {
            if r && *self != *other {
                lemma_scalar_value_injective(*self, *other);
            }
        }
        r
    }
}

impl vstd::std_specs::cmp::PartialEqSpecImpl for ArabicCharacter {
    open spec fn obeys_eq_spec() -> bool {
        true
    }

    open spec fn eq_spec(&self, other: &Self) -> bool {
        &&& self.spec_block() == other.spec_block()
        &&& self.spec_name() == other.spec_name()
        &&& self.spec_scalar_value() == other.spec_scalar_value()
    }
}

/// A character equals a `char` when that is its scalar value.
impl PartialEq<char> for ArabicCharacter {
    fn eq(&self, other: &char) -> (r: bool) {
        self.scalar_value() == *other
    }
}

impl vstd::std_specs::cmp::PartialEqSpecImpl<char> for ArabicCharacter {
    open spec fn obeys_eq_spec() -> bool {
        true
    }

    open spec fn eq_spec(&self, other: &char) -> bool {
        self.spec_scalar_value() == *other
    }
}

/// A character equals a string slice that holds its scalar value and nothing else.
impl PartialEq<&str> for ArabicCharacter {
    fn eq(&self, other: &&str) -> (r: bool) {
        str_is_string_of(*other, self.scalar_value())
    }
}

impl vstd::std_specs::cmp::PartialEqSpecImpl<&str> for ArabicCharacter {
    open spec fn obeys_eq_spec() -> bool {
        true
    }

    open spec fn eq_spec(&self, other: &&str) -> bool {
        is_string_of((*other)@, self.spec_scalar_value())
    }
}

/// A character equals a string that holds its scalar value and nothing else.
impl PartialEq<String> for ArabicCharacter {
    fn eq(&self, other: &String) -> (r: bool) {
        str_is_string_of(other.as_str(), self.scalar_value())
    }
}

impl vstd::std_specs::cmp::PartialEqSpecImpl<String> for ArabicCharacter {
    open spec fn obeys_eq_spec() -> bool {
        true
    }

    open spec fn eq_spec(&self, other: &String) -> bool {
        is_string_of(other@, self.spec_scalar_value())
    }
}

/// The error of a conversion from a scalar value that no character of the table has.
#[derive(Clone, Copy, Debug, PartialEq, Eq, Structural)]
pub enum ConversionError {
    NotArabicScript,
}

/// Whether some character of the table has the scalar value `c`.
pub open spec fn is_arabic_scalar(c: char) -> bool {
    exists|v: ArabicCharacter| #[trigger] v.spec_scalar_value() == c
}

/// The result of converting the scalar value `c`: the character whose scalar value
/// is `c`, or `NotArabicScript` where there is none.
pub open spec fn spec_try_from(c: char) -> Result<ArabicCharacter, ConversionError> {
    if is_arabic_scalar(c) {
        Ok(choose|v: ArabicCharacter| #[trigger] v.spec_scalar_value() == c)
    } else {
        Err(ConversionError::NotArabicScript)
    }
}

impl TryFrom<char> for ArabicCharacter {
    type Error = ConversionError;

    /// Converts a scalar value into the character that has it.
    fn try_from(value: char) -> (r: Result<Self, Self::Error>)
        ensures
            r == spec_try_from(value),
            r is Ok <==> is_arabic_scalar(value),
            r is Ok <==> in_covered_ranges(value),
            r matches Ok(v) ==> v.spec_scalar_value() == value,
    {
        let r = match value {
            '\u{0621}' => Ok(Self::ArabicLetterHamza),
            '\u{0622}' => Ok(Self::ArabicLetterAlefWithMaddaAbove),
            '\u{0623}' => Ok(Self::ArabicLetterAlefWithHamzaAbove),
            '\u{0624}' => Ok(Self::ArabicLetterWawWithHamzaAbove),
            '\u{0625}' => Ok(Self::ArabicLetterAlefWithHamzaBelow),
            '\u{0626}' => Ok(Self::ArabicLetterYehWithHamzaAbove),
            '\u{0627}' => Ok(Self::ArabicLetterAlef),
            '\u{0628}' => Ok(Self::ArabicLetterBeh),
            '\u{0629}' => Ok(Self::ArabicLetterTehMarbuta),
            '\u{062A}' => Ok(Self::ArabicLetterTeh),
            '\u{062B}' => Ok(Self::ArabicLetterTheh),
            '\u{062C}' => Ok(Self::ArabicLetterJeem),
            '\u{062D}' => Ok(Self::ArabicLetterHah),
            '\u{062E}' => Ok(Self::ArabicLetterKhah),
            '\u{062F}' => Ok(Self::ArabicLetterDal),
            '\u{0630}' => Ok(Self::ArabicLetterThal),
            '\u{0631}' => Ok(Self::ArabicLetterReh),
            '\u{0632}' => Ok(Self::ArabicLetterZain),
            '\u{0633}' => Ok(Self::ArabicLetterSeen),
            '\u{0634}' => Ok(Self::ArabicLetterSheen),
            '\u{0635}' => Ok(Self::ArabicLetterSad),
            '\u{0636}' => Ok(Self::ArabicLetterDad),
            '\u{0637}' => Ok(Self::ArabicLetterTah),
            '\u{0638}' => Ok(Self::ArabicLetterZah),
            '\u{0639}' => Ok(Self::ArabicLetterAin),
            '\u{063A}' => Ok(Self::ArabicLetterGhain),
            '\u{0640}' => Ok(Self::ArabicTatweel),
            '\u{0641}' => Ok(Self::ArabicLetterFeh),
            '\u{0642}' => Ok(Self::ArabicLetterQaf),
            '\u{0643}' => Ok(Self::ArabicLetterKaf),
            '\u{0644}' => Ok(Self::ArabicLetterLam),
            '\u{0645}' => Ok(Self::ArabicLetterMeem),
            '\u{0646}' => Ok(Self::ArabicLetterNoon),
            '\u{0647}' => Ok(Self::ArabicLetterHeh),
            '\u{0648}' => Ok(Self::ArabicLetterWaw),
            '\u{0649}' => Ok(Self::ArabicLetterAlefMaksura),
            '\u{064A}' => Ok(Self::ArabicLetterYeh),
            '\u{064B}' => Ok(Self::ArabicFathatan),
            '\u{064C}' => Ok(Self::ArabicDammatan),
            '\u{064D}' => Ok(Self::ArabicKasratan),
            '\u{064E}' => Ok(Self::ArabicFatha),
            '\u{064F}' => Ok(Self::ArabicDamma),
            '\u{0650}' => Ok(Self::ArabicKasra),
            '\u{0651}' => Ok(Self::ArabicShadda),
            '\u{0652}' => Ok(Self::ArabicSukun),
            _ => Err(ConversionError::NotArabicScript),
        };
        proof {
            if let Ok(v) = r {
                lemma_round_trip(v);
            }
        }
        r
    }
}

impl vstd::std_specs::convert::TryFromSpecImpl<char> for ArabicCharacter {
    open spec fn obeys_try_from_spec() -> bool {
        true
    }

    open spec fn try_from_spec(v: char) -> Result<Self, Self::Error> {
        spec_try_from(v)
    }
}

/// No two characters share a scalar value.
pub proof fn lemma_scalar_value_injective(a: ArabicCharacter, b: ArabicCharacter)
    requires
        a != b,
    ensures
        a.spec_scalar_value() != b.spec_scalar_value(),
{
}

/// Converting the scalar value of a character gives that character back.
pub proof fn lemma_round_trip(v: ArabicCharacter)
    ensures
        spec_try_from(v.spec_scalar_value()) == Ok::<ArabicCharacter, ConversionError>(v),
{
    let c = v.spec_scalar_value();
    assert(is_arabic_scalar(c));
    let w = choose|w: ArabicCharacter| #[trigger] w.spec_scalar_value() == c;
    if w != v {
        lemma_scalar_value_injective(w, v);
    }
}

/// A scalar value that no character has is rejected with `NotArabicScript`.
pub proof fn lemma_rejects_other_scalars(c: char)
    requires
        forall|v: ArabicCharacter| #[trigger] v.spec_scalar_value() != c,
    ensures
        spec_try_from(c) == Err::<ArabicCharacter, ConversionError>(ConversionError::NotArabicScript),
{
}

/// Whether `c` lies in U+0621..=U+063A (the letters) or in U+0640..=U+0652 (the
/// tatweel and the harakat).
pub open spec fn in_covered_ranges(c: char) -> bool {
    ||| '\u{0621}' <= c <= '\u{063A}'
    ||| '\u{0640}' <= c <= '\u{0652}'
}

/// The scalar value of every character lies in the covered ranges.
pub proof fn lemma_scalar_value_range(v: ArabicCharacter)
    ensures
        in_covered_ranges(v.spec_scalar_value()),
{
}

} // verus!
