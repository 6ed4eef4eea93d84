//! The classification data model and the classifier itself.
//!
//! A reader for a Lisp-family dialect consults a character syntax table at
//! every input position. This module defines that table's result type as a
//! closed algebraic hierarchy (`SyntaxType` and its refinements) and the
//! total mapping from a Unicode scalar to it, both as a spec function
//! ([`syntax_of`]) and as executable code proved equal to it.

use vstd::prelude::*;

verus! {

/// Macro characters are divided into two kinds, terminating and
/// non-terminating, depending on whether or not they terminate a token.
#[derive(Clone, Copy, Debug, PartialEq, Eq)]
pub enum MacroCharKind {
    Terminating,
    NonTerminating,
}

/// Refinement of the dot extension: the dot can be the decimal point of a
/// floating-point literal.
#[derive(Clone, Copy, Debug, PartialEq, Eq)]
pub enum DotExt {
    DecimalPoint,
}

/// Number-syntax roles an alphabetic constituent can additionally play.
/// `PlusSign` and `MinusSign` are reserved for callers that re-classify
/// `+` and `-`; the current mapping never produces them.
#[derive(Clone, Copy, Debug, PartialEq, Eq)]
pub enum AlphabeticExt {
    PlusSign,
    MinusSign,
    Dot { ext: Option<DotExt> },
    RatioMarker,
}

/// Number-syntax role an alphadigit constituent can additionally play:
/// introducing the exponent of a floating-point literal.
#[derive(Clone, Copy, Debug, PartialEq, Eq)]
pub enum AlphadigitExt {
    ExponentMarker,
}

/// Constituent traits: how a character participates in token formation
/// once it is known to be a constituent. `Digit` is reserved and never
/// produced by the current mapping, which prefers `Alphadigit`.
#[derive(Clone, Copy, Debug, PartialEq, Eq)]
#[allow(inconsistent_fields)]
pub enum ConsTrait {
    Alphabetic { ext: Option<AlphabeticExt> },
    Digit,
    Alphadigit { ext: Option<AlphadigitExt> },
    PackageMarker,
    Invalid,
}

/// One of the classifications used for dispatch during parsing by the
/// Lisp reader.
#[derive(Clone, Copy, Debug, PartialEq, Eq)]
pub enum SyntaxType {
    /// Constituent characters are used in tokens.
    Constituent { traits: ConsTrait },
    /// The character invokes a reader macro.
    MacroCharacter { kind: MacroCharKind },
    /// The next character is taken literally as an alphabetic constituent.
    SingleEscape,
    /// Toggles a region in which every character is taken literally.
    MultipleEscape,
    /// Terminates tokens and is otherwise discarded.
    Whitespace,
    /// The character is not permitted in input.
    Invalid,
}

/// The alphabetic constituents that carry no number-syntax extension:
/// `! $ % & * + - < = > ? @ [ ] ^ _ { } ~`.
pub open spec fn is_plain_alphabetic(c: char) -> bool {
    c == '!' || c == '$' || c == '%' || c == '&' || c == '*' || c == '+' || c == '-'
        || c == '<' || c == '=' || c == '>' || c == '?' || c == '@' || c == '[' || c == ']'
        || c == '^' || c == '_' || c == '{' || c == '}' || c == '~'
}

/// The alphadigit constituents that carry no extension: the decimal digits
/// and every ASCII letter, either case, except the exponent markers
/// `d e f l s`.
pub open spec fn is_plain_alphadigit(c: char) -> bool {
    ('0' <= c && c <= '9') || ('a' <= c && c <= 'c') || ('A' <= c && c <= 'C')
        || ('g' <= c && c <= 'k') || ('G' <= c && c <= 'K')
        || ('m' <= c && c <= 'r') || ('M' <= c && c <= 'R')
        || ('t' <= c && c <= 'z') || ('T' <= c && c <= 'Z')
}

/// The exponent-marker letters `d e f l s`, either case.
pub open spec fn is_exponent_letter(c: char) -> bool {
    ('d' <= c && c <= 'f') || ('D' <= c && c <= 'F')
        || c == 'l' || c == 'L' || c == 's' || c == 'S'
}

/// The five whitespace characters the classifier recognizes: tab, line
/// feed, form feed, carriage return and space. Deliberately not the
/// Unicode whitespace categories, so tokenization does not drift with
/// Unicode-table revisions.
pub open spec fn is_reader_whitespace(c: char) -> bool {
    c == '\u{9}' || c == '\n' || c == '\u{c}' || c == '\u{d}' || c == ' '
}

/// The terminating macro characters `" ' ( ) , ; `` ` ``.
pub open spec fn is_terminating_macro_char(c: char) -> bool {
    c == '"' || c == '\'' || c == '(' || c == ')' || c == ',' || c == ';' || c == '`'
}

/// The authoritative mapping from a Unicode scalar to its syntax type.
/// Every scalar outside the enumerated rows is `Invalid`; in particular
/// every scalar at or above `'\u{80}'` is.
pub open spec fn syntax_of(c: char) -> SyntaxType {
    if c == '\u{8}' {
        SyntaxType::Constituent { traits: ConsTrait::Invalid }
    } else if is_plain_alphabetic(c) {
        SyntaxType::Constituent { traits: ConsTrait::Alphabetic { ext: None } }
    } else if c == '.' {
        SyntaxType::Constituent {
            traits: ConsTrait::Alphabetic {
                ext: Some(AlphabeticExt::Dot { ext: Some(DotExt::DecimalPoint) }),
            },
        }
    } else if c == '/' {
        SyntaxType::Constituent {
            traits: ConsTrait::Alphabetic { ext: Some(AlphabeticExt::RatioMarker) },
        }
    } else if is_plain_alphadigit(c) {
        SyntaxType::Constituent { traits: ConsTrait::Alphadigit { ext: None } }
    } else if is_exponent_letter(c) {
        SyntaxType::Constituent {
            traits: ConsTrait::Alphadigit { ext: Some(AlphadigitExt::ExponentMarker) },
        }
    } else if c == ':' {
        SyntaxType::Constituent { traits: ConsTrait::PackageMarker }
    } else if is_reader_whitespace(c) {
        SyntaxType::Whitespace
    } else if is_terminating_macro_char(c) {
        SyntaxType::MacroCharacter { kind: MacroCharKind::Terminating }
    } else if c == '#' {
        SyntaxType::MacroCharacter { kind: MacroCharKind::NonTerminating }
    } else if c == '\\' {
        SyntaxType::SingleEscape
    } else if c == '|' {
        SyntaxType::MultipleEscape
    } else {
        SyntaxType::Invalid
    }
}

/// Classify one Unicode scalar. Total and pure: it succeeds on every
/// input, and the result is exactly the value [`syntax_of`] names for it.
pub fn classify(c: char) -> (t: SyntaxType)
    ensures
        t == syntax_of(c),
{
    c.syntax_type()
}

/// Anything that can be classified by the reader's character syntax table.
pub trait Character {
    /// The syntax type this value classifies to, as a mathematical value.
    spec fn spec_syntax_type(&self) -> SyntaxType;

    /// Classify the value. Total: it succeeds on every input and returns
    /// exactly the value `spec_syntax_type` names.
    fn syntax_type(&self) -> (t: SyntaxType)
        ensures
            t == self.spec_syntax_type(),
    ;
}

impl Character for char {
    open spec fn spec_syntax_type(&self) -> SyntaxType {
        syntax_of(*self)
    }

    fn syntax_type(&self) -> (t: SyntaxType) {
        let c = *self;
        if c == '\u{8}' {
            SyntaxType::Constituent { traits: ConsTrait::Invalid }
        } else if c == '!' || c == '$' || c == '%' || c == '&' || c == '*' || c == '+'
            || c == '-' || c == '<' || c == '=' || c == '>' || c == '?' || c == '@'
            || c == '[' || c == ']' || c == '^' || c == '_' || c == '{' || c == '}'
            || c == '~' {
            SyntaxType::Constituent { traits: ConsTrait::Alphabetic { ext: None } }
        } else if c == '.' {
            SyntaxType::Constituent {
                traits: ConsTrait::Alphabetic {
                    ext: Some(AlphabeticExt::Dot { ext: Some(DotExt::DecimalPoint) }),
                },
            }
        } else if c == '/' {
            SyntaxType::Constituent {
                traits: ConsTrait::Alphabetic { ext: Some(AlphabeticExt::RatioMarker) },
            }
        } else if ('0' <= c && c <= '9') || ('a' <= c && c <= 'c') || ('A' <= c && c <= 'C')
            || ('g' <= c && c <= 'k') || ('G' <= c && c <= 'K')
            || ('m' <= c && c <= 'r') || ('M' <= c && c <= 'R')
            || ('t' <= c && c <= 'z') || ('T' <= c && c <= 'Z') {
            SyntaxType::Constituent { traits: ConsTrait::Alphadigit { ext: None } }
        } else if ('d' <= c && c <= 'f') || ('D' <= c && c <= 'F')
            || c == 'l' || c == 'L' || c == 's' || c == 'S' {
            SyntaxType::Constituent {
                traits: ConsTrait::Alphadigit { ext: Some(AlphadigitExt::ExponentMarker) },
            }
        } else if c == ':' {
            SyntaxType::Constituent { traits: ConsTrait::PackageMarker }
        } else if c == '\u{9}' || c == '\n' || c == '\u{c}' || c == '\u{d}' || c == ' ' {
            SyntaxType::Whitespace
        } else if c == '"' || c == '\'' || c == '(' || c == ')' || c == ',' || c == ';'
            || c == '`' {
            SyntaxType::MacroCharacter { kind: MacroCharKind::Terminating }
        } else if c == '#' {
            SyntaxType::MacroCharacter { kind: MacroCharKind::NonTerminating }
        } else if c == '\\' {
            SyntaxType::SingleEscape
        } else if c == '|' {
            SyntaxType::MultipleEscape
        } else {
            SyntaxType::Invalid
        }
    }
}

} // verus!
