//! A typed table of the Arabic-script characters: the basic letters, the
//! hamza-seated forms, the tatweel, and the harakat (tanwin, short vowels,
//! shadda and sukun), each with its Unicode block, name and scalar value,
//! and a checked conversion from a scalar value.

pub mod arabic_character;
pub mod characters;
pub mod unicode_character;

pub use crate::arabic_character::ArabicCharacter;
pub use crate::arabic_character::ConversionError;
pub use crate::arabic_character::ArabicCharacter::ArabicDamma;
pub use crate::arabic_character::ArabicCharacter::ArabicDammatan;
pub use crate::arabic_character::ArabicCharacter::ArabicFatha;
pub use crate::arabic_character::ArabicCharacter::ArabicFathatan;
pub use crate::arabic_character::ArabicCharacter::ArabicKasra;
pub use crate::arabic_character::ArabicCharacter::ArabicKasratan;
pub use crate::arabic_character::ArabicCharacter::ArabicLetterAin;
pub use crate::arabic_character::ArabicCharacter::ArabicLetterAlef;
pub use crate::arabic_character::ArabicCharacter::ArabicLetterAlefMaksura;
pub use crate::arabic_character::ArabicCharacter::ArabicLetterAlefWithHamzaAbove;
pub use crate::arabic_character::ArabicCharacter::ArabicLetterAlefWithHamzaBelow;
pub use crate::arabic_character::ArabicCharacter::ArabicLetterAlefWithMaddaAbove;
pub use crate::arabic_character::ArabicCharacter::ArabicLetterBeh;
pub use crate::arabic_character::ArabicCharacter::ArabicLetterDad;
pub use crate::arabic_character::ArabicCharacter::ArabicLetterDal;
pub use crate::arabic_character::ArabicCharacter::ArabicLetterFeh;
pub use crate::arabic_character::ArabicCharacter::ArabicLetterGhain;
pub use crate::arabic_character::ArabicCharacter::ArabicLetterHah;
pub use crate::arabic_character::ArabicCharacter::ArabicLetterHamza;
pub use crate::arabic_character::ArabicCharacter::ArabicLetterHeh;
pub use crate::arabic_character::ArabicCharacter::ArabicLetterJeem;
pub use crate::arabic_character::ArabicCharacter::ArabicLetterKaf;
pub use crate::arabic_character::ArabicCharacter::ArabicLetterKhah;
pub use crate::arabic_character::ArabicCharacter::ArabicLetterLam;
pub use crate::arabic_character::ArabicCharacter::ArabicLetterMeem;
pub use crate::arabic_character::ArabicCharacter::ArabicLetterNoon;
pub use crate::arabic_character::ArabicCharacter::ArabicLetterQaf;
pub use crate::arabic_character::ArabicCharacter::ArabicLetterReh;
pub use crate::arabic_character::ArabicCharacter::ArabicLetterSad;
pub use crate::arabic_character::ArabicCharacter::ArabicLetterSeen;
pub use crate::arabic_character::ArabicCharacter::ArabicLetterSheen;
pub use crate::arabic_character::ArabicCharacter::ArabicLetterTah;
pub use crate::arabic_character::ArabicCharacter::ArabicLetterTeh;
pub use crate::arabic_character::ArabicCharacter::ArabicLetterTehMarbuta;
pub use crate::arabic_character::ArabicCharacter::ArabicLetterThal;
pub use crate::arabic_character::ArabicCharacter::ArabicLetterTheh;
pub use crate::arabic_character::ArabicCharacter::ArabicLetterWaw;
pub use crate::arabic_character::ArabicCharacter::ArabicLetterWawWithHamzaAbove;
pub use crate::arabic_character::ArabicCharacter::ArabicLetterYeh;
pub use crate::arabic_character::ArabicCharacter::ArabicLetterYehWithHamzaAbove;
pub use crate::arabic_character::ArabicCharacter::ArabicLetterZah;
pub use crate::arabic_character::ArabicCharacter::ArabicLetterZain;
pub use crate::arabic_character::ArabicCharacter::ArabicShadda;
pub use crate::arabic_character::ArabicCharacter::ArabicSukun;
pub use crate::arabic_character::ArabicCharacter::ArabicTatweel;
pub use crate::unicode_character::UnicodeCharacter;
