//! Proved laws of the classification table.
//!
//! The mapping is given to the reader as a table of rows, matched in order
//! of specificity with a fall-through for every other scalar. This module
//! names the rows ([`TableRow`]), states which characters each row covers
//! ([`row_matches`]) and what it yields ([`row_result`]), and proves the
//! laws the table promises: the rows never overlap, the classifier applies
//! exactly the matching row (or the fall-through), every scalar outside the
//! ASCII range is invalid, and corresponding lower- and upper-case letters
//! classify alike.

use vstd::prelude::*;

use crate::character_types::ConsTrait;
use crate::character_types::AlphabeticExt;
use crate::character_types::AlphadigitExt;
use crate::character_types::DotExt;
use crate::character_types::MacroCharKind;
use crate::character_types::SyntaxType;
use crate::character_types::is_exponent_letter;
use crate::character_types::is_plain_alphabetic;
use crate::character_types::is_plain_alphadigit;
use crate::character_types::is_reader_whitespace;
use crate::character_types::is_terminating_macro_char;
use crate::character_types::syntax_of;

verus! {

/// The explicit rows of the mapping table, in table order. The table's
/// final row, the fall-through for every other scalar, is represented by
/// no `TableRow` matching.
#[derive(Clone, Copy, Debug, PartialEq, Eq)]
pub enum TableRow {
    /// Backspace, a constituent that must not appear in a token.
    Backspace,
    /// The alphabetic constituents without a number-syntax extension.
    PlainAlphabetic,
    /// The dot, an alphabetic constituent refined as a decimal point.
    Dot,
    /// The slash, an alphabetic constituent refined as a ratio marker.
    Slash,
    /// Digits and letters without an extension.
    PlainAlphadigit,
    /// The exponent-marker letters `d e f l s`, either case.
    ExponentLetter,
    /// The colon, the package marker.
    Colon,
    /// The five recognized whitespace characters.
    WhitespaceChars,
    /// The terminating macro characters.
    TerminatingMacro,
    /// The hash sign, the only non-terminating macro character.
    Hash,
    /// The backslash, the single-escape trigger.
    Backslash,
    /// The vertical bar, the multiple-escape trigger.
    VerticalBar,
}

/// Which characters a table row covers.
pub open spec fn row_matches(r: TableRow, c: char) -> bool {
    match r {
        TableRow::Backspace => c == '\u{8}',
        TableRow::PlainAlphabetic => is_plain_alphabetic(c),
        TableRow::Dot => c == '.',
        TableRow::Slash => c == '/',
        TableRow::PlainAlphadigit => is_plain_alphadigit(c),
        TableRow::ExponentLetter => is_exponent_letter(c),
        TableRow::Colon => c == ':',
        TableRow::WhitespaceChars => is_reader_whitespace(c),
        TableRow::TerminatingMacro => is_terminating_macro_char(c),
        TableRow::Hash => c == '#',
        TableRow::Backslash => c == '\\',
        TableRow::VerticalBar => c == '|',
    }
}

/// What a table row yields for every character it covers.
pub open spec fn row_result(r: TableRow) -> SyntaxType {
    match r {
        TableRow::Backspace => SyntaxType::Constituent { traits: ConsTrait::Invalid },
        TableRow::PlainAlphabetic => SyntaxType::Constituent {
            traits: ConsTrait::Alphabetic { ext: None },
        },
        TableRow::Dot => SyntaxType::Constituent {
            traits: ConsTrait::Alphabetic {
                ext: Some(AlphabeticExt::Dot { ext: Some(DotExt::DecimalPoint) }),
            },
        },
        TableRow::Slash => SyntaxType::Constituent {
            traits: ConsTrait::Alphabetic { ext: Some(AlphabeticExt::RatioMarker) },
        },
        TableRow::PlainAlphadigit => SyntaxType::Constituent {
            traits: ConsTrait::Alphadigit { ext: None },
        },
        TableRow::ExponentLetter => SyntaxType::Constituent {
            traits: ConsTrait::Alphadigit { ext: Some(AlphadigitExt::ExponentMarker) },
        },
        TableRow::Colon => SyntaxType::Constituent { traits: ConsTrait::PackageMarker },
        TableRow::WhitespaceChars => SyntaxType::Whitespace,
        TableRow::TerminatingMacro => SyntaxType::MacroCharacter {
            kind: MacroCharKind::Terminating,
        },
        TableRow::Hash => SyntaxType::MacroCharacter { kind: MacroCharKind::NonTerminating },
        TableRow::Backslash => SyntaxType::SingleEscape,
        TableRow::VerticalBar => SyntaxType::MultipleEscape,
    }
}

/// A character is covered by the table when some explicit row matches it;
/// otherwise the fall-through row applies.
pub open spec fn covered_by_table(c: char) -> bool {
    exists|r: TableRow| row_matches(r, c)
}

/// Classification is deterministic: any two results of classifying the
/// same character are equal.
pub proof fn lemma_classification_deterministic(c: char, t1: SyntaxType, t2: SyntaxType)
    requires
        t1 == syntax_of(c),
        t2 == syntax_of(c),
    ensures
        t1 == t2,
{
}

/// The rows partition their domain: no character is covered by two
/// distinct rows.
pub proof fn lemma_rows_disjoint(c: char, r1: TableRow, r2: TableRow)
    requires
        row_matches(r1, c),
        row_matches(r2, c),
    ensures
        r1 == r2,
{
}

/// The classifier applies the matching row: whenever a row covers a
/// character, classification returns that row's result.
pub proof fn lemma_row_applies(c: char, r: TableRow)
    requires
        row_matches(r, c),
    ensures
        syntax_of(c) == row_result(r),
{
}

/// The fall-through is exact: a character classifies as top-level
/// `Invalid` if and only if no explicit row covers it.
pub proof fn lemma_fall_through(c: char)
    ensures
        syntax_of(c) is Invalid <==> !covered_by_table(c),
{
    if syntax_of(c) is Invalid {
        assert forall|r: TableRow| !row_matches(r, c) by {
            if row_matches(r, c) {
                lemma_row_applies(c, r);
            }
        }
    } else {
        if c == '\u{8}' {
            assert(row_matches(TableRow::Backspace, c));
        } else if is_plain_alphabetic(c) {
            assert(row_matches(TableRow::PlainAlphabetic, c));
        } else if c == '.' {
            assert(row_matches(TableRow::Dot, c));
        } else if c == '/' {
            assert(row_matches(TableRow::Slash, c));
        } else if is_plain_alphadigit(c) {
            assert(row_matches(TableRow::PlainAlphadigit, c));
        } else if is_exponent_letter(c) {
            assert(row_matches(TableRow::ExponentLetter, c));
        } else if c == ':' {
            assert(row_matches(TableRow::Colon, c));
        } else if is_reader_whitespace(c) {
            assert(row_matches(TableRow::WhitespaceChars, c));
        } else if is_terminating_macro_char(c) {
            assert(row_matches(TableRow::TerminatingMacro, c));
        } else if c == '#' {
            assert(row_matches(TableRow::Hash, c));
        } else if c == '\\' {
            assert(row_matches(TableRow::Backslash, c));
        } else {
            assert(c == '|');
            assert(row_matches(TableRow::VerticalBar, c));
        }
    }
}

/// Every character the table covers is an ASCII character.
pub proof fn lemma_table_is_ascii(c: char, r: TableRow)
    requires
        row_matches(r, c),
    ensures
        (c as u32) < 0x80,
{
}

/// Non-ASCII policy: every scalar at or above `'\u{80}'` classifies as
/// top-level `Invalid`.
pub proof fn lemma_non_ascii_invalid(c: char)
    requires
        (c as u32) >= 0x80,
    ensures
        syntax_of(c) is Invalid,
{
}

/// Case symmetry: an ASCII lower-case letter and its upper-case
/// counterpart classify identically, extension included.
pub proof fn lemma_case_symmetry(lower: char, upper: char)
    requires
        'a' <= lower && lower <= 'z',
        'A' <= upper && upper <= 'Z',
        (lower as u32) == (upper as u32) + 32,
    ensures
        syntax_of(lower) == syntax_of(upper),
{
}

} // verus!
