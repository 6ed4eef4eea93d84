//! Concrete checks of the laws the table promises: totality and
//! determinism over the whole ASCII range, case symmetry across every
//! letter pair, the exact extent of the whitespace, macro-character,
//! alphabetic and invalid rows, and the non-ASCII policy.

use char_syntax::character_types::AlphadigitExt;
use char_syntax::character_types::Character;
use char_syntax::character_types::ConsTrait;
use char_syntax::character_types::MacroCharKind;
use char_syntax::character_types::SyntaxType;

#[test]
fn classification_is_total_and_deterministic_over_ascii() {
    for code in 0u32..=0x7F {
        let c = char::from_u32(code).unwrap();
        let first = c.syntax_type();
        let second = c.syntax_type();
        assert_eq!(first, second);
    }
}

#[test]
fn case_symmetry_over_every_letter() {
    for lower in 'a'..='z' {
        let upper = lower.to_ascii_uppercase();
        assert_eq!(lower.syntax_type(), upper.syntax_type());
    }
}

#[test]
fn every_letter_and_digit_is_an_alphadigit_constituent() {
    let exponent_markers = ['d', 'e', 'f', 'l', 's', 'D', 'E', 'F', 'L', 'S'];
    let letters = ('a'..='z').chain('A'..='Z').chain('0'..='9');
    for c in letters {
        let expected = if exponent_markers.contains(&c) {
            SyntaxType::Constituent {
                traits: ConsTrait::Alphadigit { ext: Some(AlphadigitExt::ExponentMarker) },
            }
        } else {
            SyntaxType::Constituent { traits: ConsTrait::Alphadigit { ext: None } }
        };
        assert_eq!(c.syntax_type(), expected);
    }
}

#[test]
fn plain_alphabetic_row_is_exact() {
    for c in [
        '!', '$', '%', '&', '*', '+', '-', '<', '=', '>', '?', '@', '[', ']', '^', '_', '{',
        '}', '~',
    ] {
        assert_eq!(
            c.syntax_type(),
            SyntaxType::Constituent { traits: ConsTrait::Alphabetic { ext: None } }
        );
    }
}

#[test]
fn whitespace_row_is_exact() {
    for code in 0u32..=0x7F {
        let c = char::from_u32(code).unwrap();
        let expected = matches!(code, 0x9 | 0xA | 0xC | 0xD | 0x20);
        assert_eq!(c.syntax_type() == SyntaxType::Whitespace, expected);
    }
}

#[test]
fn terminating_macro_row_is_exact() {
    for code in 0u32..=0x7F {
        let c = char::from_u32(code).unwrap();
        let expected = ['"', '\'', '(', ')', ',', ';', '`'].contains(&c);
        let terminating =
            c.syntax_type() == SyntaxType::MacroCharacter { kind: MacroCharKind::Terminating };
        assert_eq!(terminating, expected);
    }
}

#[test]
fn ascii_invalid_fall_through_is_exact() {
    for code in 0u32..=0x7F {
        let c = char::from_u32(code).unwrap();
        let expected = matches!(code,
            0x0..=0x7 | 0xB | 0xE..=0x1F | 0x7F);
        assert_eq!(c.syntax_type() == SyntaxType::Invalid, expected);
    }
}

#[test]
fn non_ascii_scalars_are_invalid() {
    for c in ['\u{80}', '\u{e9}', 'λ', '—', '中', '\u{10FFFF}'] {
        assert_eq!(c.syntax_type(), SyntaxType::Invalid);
    }
}
