use vstd::prelude::*;

verus! {

/// A character that exposes its Unicode owning block, name, and scalar value.
///
/// The three spec functions are the mathematical identity of the character;
/// the executable methods return exactly them.
pub trait UnicodeCharacter {
    /// The name of the Unicode block that owns the character.
    spec fn spec_block(&self) -> Seq<char>;

    /// The Unicode name of the character.
    spec fn spec_name(&self) -> Seq<char>;

    /// The Unicode scalar value of the character.
    spec fn spec_scalar_value(&self) -> char;

    /// Returns the Unicode block of the character.
    fn block(&self) -> (r: &'static str)
        ensures
            r@ == self.spec_block(),
    ;

    /// Returns the Unicode name of the character.
    fn name(&self) -> (r: &'static str)
        ensures
            r@ == self.spec_name(),
    ;

    /// Returns the Unicode scalar value of the character, which is a Rust `char`.
    fn scalar_value(&self) -> (r: char)
        ensures
            r == self.spec_scalar_value(),
    ;
}

} // verus!
