//! Characters of the Arabic script as types of their own.

use vstd::prelude::*;

use crate::arabic_character::ArabicCharacter;
use crate::unicode_character::UnicodeCharacter;

verus! {

/// Represents the Arabic Letter Alef With Hamza Below.
///
/// Its metadata is that of `ArabicCharacter::ArabicLetterAlefWithHamzaBelow`.
#[derive(Clone, Copy, Debug)]
pub struct ArabicLetterAlefWithHamzaBelow;

impl ArabicLetterAlefWithHamzaBelow {
    /// Returns a new instance of the Arabic Letter Alef With Hamza Below.
    pub fn new() -> (r: Self)
        ensures
            r.spec_name() == ArabicCharacter::ArabicLetterAlefWithHamzaBelow.spec_name(),
            r.spec_scalar_value() == ArabicCharacter::ArabicLetterAlefWithHamzaBelow.spec_scalar_value(),
    {
        Self
    }
}

impl UnicodeCharacter for ArabicLetterAlefWithHamzaBelow {
    open spec fn spec_block(&self) -> Seq<char> {
        ArabicCharacter::ArabicLetterAlefWithHamzaBelow.spec_block()
    }

    open spec fn spec_name(&self) -> Seq<char> {
        ArabicCharacter::ArabicLetterAlefWithHamzaBelow.spec_name()
    }

    open spec fn spec_scalar_value(&self) -> char {
        ArabicCharacter::ArabicLetterAlefWithHamzaBelow.spec_scalar_value()
    }

    fn block(&self) -> (r: &'static str) {
        ArabicCharacter::ArabicLetterAlefWithHamzaBelow.block()
    }

    fn name(&self) -> (r: &'static str) {
        ArabicCharacter::ArabicLetterAlefWithHamzaBelow.name()
    }

    fn scalar_value(&self) -> (r: char) {
        ArabicCharacter::ArabicLetterAlefWithHamzaBelow.scalar_value()
    }
}

} // verus!
