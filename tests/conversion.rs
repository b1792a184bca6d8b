use arabic_script::characters::ArabicLetterAlefWithHamzaBelow;
use arabic_script::ArabicCharacter;
use arabic_script::ConversionError;
use arabic_script::UnicodeCharacter;
use arabic_script::{ArabicLetterDad, ArabicLetterHamza, ArabicSukun, ArabicTatweel};

fn every_character() -> Vec<ArabicCharacter> {
    vec![
        ArabicCharacter::ArabicLetterHamza,
        ArabicCharacter::ArabicLetterAlefWithMaddaAbove,
        ArabicCharacter::ArabicLetterAlefWithHamzaAbove,
        ArabicCharacter::ArabicLetterWawWithHamzaAbove,
        ArabicCharacter::ArabicLetterAlefWithHamzaBelow,
        ArabicCharacter::ArabicLetterYehWithHamzaAbove,
        ArabicCharacter::ArabicLetterAlef,
        ArabicCharacter::ArabicLetterBeh,
        ArabicCharacter::ArabicLetterTehMarbuta,
        ArabicCharacter::ArabicLetterTeh,
        ArabicCharacter::ArabicLetterTheh,
        ArabicCharacter::ArabicLetterJeem,
        ArabicCharacter::ArabicLetterHah,
        ArabicCharacter::ArabicLetterKhah,
        ArabicCharacter::ArabicLetterDal,
        ArabicCharacter::ArabicLetterThal,
        ArabicCharacter::ArabicLetterReh,
        ArabicCharacter::ArabicLetterZain,
        ArabicCharacter::ArabicLetterSeen,
        ArabicCharacter::ArabicLetterSheen,
        ArabicCharacter::ArabicLetterSad,
        ArabicCharacter::ArabicLetterDad,
        ArabicCharacter::ArabicLetterTah,
        ArabicCharacter::ArabicLetterZah,
        ArabicCharacter::ArabicLetterAin,
        ArabicCharacter::ArabicLetterGhain,
        ArabicCharacter::ArabicTatweel,
        ArabicCharacter::ArabicLetterFeh,
        ArabicCharacter::ArabicLetterQaf,
        ArabicCharacter::ArabicLetterKaf,
        ArabicCharacter::ArabicLetterLam,
        ArabicCharacter::ArabicLetterMeem,
        ArabicCharacter::ArabicLetterNoon,
        ArabicCharacter::ArabicLetterHeh,
        ArabicCharacter::ArabicLetterWaw,
        ArabicCharacter::ArabicLetterAlefMaksura,
        ArabicCharacter::ArabicLetterYeh,
        ArabicCharacter::ArabicFathatan,
        ArabicCharacter::ArabicDammatan,
        ArabicCharacter::ArabicKasratan,
        ArabicCharacter::ArabicFatha,
        ArabicCharacter::ArabicDamma,
        ArabicCharacter::ArabicKasra,
        ArabicCharacter::ArabicShadda,
        ArabicCharacter::ArabicSukun,
    ]
}

#[test]
fn every_character_round_trips_through_its_scalar_value() {
    for v in every_character() {
        assert_eq!(ArabicCharacter::try_from(v.scalar_value()), Ok(v));
    }
}

#[test]
fn distinct_characters_have_distinct_scalar_values() {
    let all = every_character();
    for (i, a) in all.iter().enumerate() {
        for (j, b) in all.iter().enumerate() {
            assert_eq!(i == j, a.scalar_value() == b.scalar_value());
            assert_eq!(i == j, a == b);
        }
    }
}

#[test]
fn distinct_characters_have_distinct_names() {
    let all = every_character();
    for (i, a) in all.iter().enumerate() {
        for (j, b) in all.iter().enumerate() {
            assert_eq!(i == j, a.name() == b.name());
        }
    }
}

#[test]
fn every_character_is_in_the_arabic_block() {
    for v in every_character() {
        assert_eq!(v.block(), "Arabic");
        assert_eq!(v.character().block(), "Arabic");
    }
}

#[test]
fn every_scalar_value_lies_in_the_covered_ranges() {
    for v in every_character() {
        let c = v.scalar_value() as u32;
        assert!((0x0621..=0x063A).contains(&c) || (0x0640..=0x0652).contains(&c));
    }
}

#[test]
fn rejects_a_latin_letter() {
    assert_eq!(
        ArabicCharacter::try_from('a'),
        Err(ConversionError::NotArabicScript)
    );
}

#[test]
fn rejects_an_arabic_indic_digit() {
    assert_eq!(
        ArabicCharacter::try_from('\u{0660}'),
        Err(ConversionError::NotArabicScript)
    );
}

#[test]
fn rejects_uncovered_scalars_inside_the_arabic_block() {
    for c in ['\u{0600}', '\u{0620}', '\u{063B}', '\u{063F}', '\u{0653}', '\u{06FF}'] {
        assert_eq!(
            ArabicCharacter::try_from(c),
            Err(ConversionError::NotArabicScript)
        );
    }
}

#[test]
fn accepts_exactly_the_covered_scalars_in_the_arabic_block() {
    for code in 0x0600u32..=0x06FF {
        let c = char::from_u32(code).unwrap();
        let covered = (0x0621..=0x063A).contains(&code) || (0x0640..=0x0652).contains(&code);
        assert_eq!(ArabicCharacter::try_from(c).is_ok(), covered);
    }
}

#[test]
fn converts_dad_from_its_scalar_value() {
    assert_eq!(ArabicCharacter::try_from('\u{0636}').unwrap(), ArabicLetterDad);
}

#[test]
fn first_and_last_covered_scalars_convert() {
    assert_eq!(ArabicCharacter::try_from('\u{0621}'), Ok(ArabicLetterHamza));
    assert_eq!(ArabicCharacter::try_from('\u{0640}'), Ok(ArabicTatweel));
    assert_eq!(ArabicCharacter::try_from('\u{0652}'), Ok(ArabicSukun));
}

#[test]
fn unequal_to_other_characters_and_scalars() {
    assert!(ArabicLetterHamza != ArabicLetterDad);
    assert!(ArabicLetterHamza != 'a');
    assert!(ArabicLetterHamza != '\u{0636}');
}

#[test]
fn unequal_to_strings_other_than_its_own_character() {
    assert!(ArabicLetterHamza != "");
    assert!(ArabicLetterHamza != "\u{0622}");
    assert!(ArabicLetterHamza != "\u{0621}\u{0621}");
    assert!(ArabicLetterHamza != "a\u{0621}");
    assert!(ArabicLetterHamza != String::new());
    assert!(ArabicLetterHamza != "\u{0621} ".to_string());
}

#[test]
fn display_form_is_the_scalar_value_alone() {
    assert_eq!(ArabicLetterDad.format_display(), "\u{0636}");
    assert_eq!(ArabicLetterDad.format_display().chars().count(), 1);
}

#[test]
fn debug_form_holds_name_and_scalar_value() {
    assert_eq!(ArabicLetterDad.format_debug(), "Arabic Letter Dad { \u{0636} }");
    assert_eq!(ArabicTatweel.format_debug(), "Arabic Tatweel { \u{0640} }");
}

#[test]
fn record_carries_the_name_and_scalar_value() {
    let r = ArabicLetterHamza.character();
    assert_eq!(r.name, "Arabic Letter Hamza");
    assert_eq!(r.scalar_value, '\u{0621}');
    assert_eq!(r.name(), "Arabic Letter Hamza");
    assert_eq!(r.scalar_value(), '\u{0621}');
}

#[test]
fn alef_with_hamza_below_type_matches_its_variant() {
    let c = ArabicLetterAlefWithHamzaBelow::new();
    assert_eq!(c.block(), "Arabic");
    assert_eq!(c.name(), "Arabic Letter Alef With Hamza Below");
    assert_eq!(c.scalar_value(), '\u{0625}');
    assert_eq!(c.name(), ArabicCharacter::ArabicLetterAlefWithHamzaBelow.name());
}
