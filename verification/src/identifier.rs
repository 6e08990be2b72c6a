//! The syntactic gate for identifiers that users supply.
//!
//! An identifier is a numeric id or a name: between 1 and 100 characters,
//! each an ASCII letter, an ASCII digit, `-` or `_`. Nothing is asked of the
//! upstream service for an input that fails this test.

use vstd::prelude::*;
use vstd::utf8::{encode_utf8, is_ascii_chars, is_ascii_chars_encode_utf8};
use regex::Regex;

verus! {

/// The greatest length of an identifier, in bytes.
pub const MAX_IDENTIFIER_LENGTH: usize = 100;

/// The pattern that the characters of an identifier are held to.
pub const IDENTIFIER_PATTERN: &'static str = "^[a-zA-Z0-9\\-_]+$";

/// Whether `c` may stand in an identifier.
pub open spec fn is_identifier_char(c: char) -> bool {
    ('a' <= c && c <= 'z') || ('A' <= c && c <= 'Z') || ('0' <= c && c <= '9') || c == '-' || c
        == '_'
}

/// Whether `text` is not empty and made of identifier characters only.
pub open spec fn is_identifier_text(text: Seq<char>) -> bool {
    text.len() > 0 && forall|i: int| 0 <= i < text.len() ==> is_identifier_char(#[trigger] text[i])
}

/// Why an input is no identifier.
#[derive(Clone, Copy, PartialEq, Eq, Debug, Structural)]
pub enum IdentifierError {
    /// The input has no characters.
    Empty,
    /// The input is longer than `MAX_IDENTIFIER_LENGTH` bytes.
    TooLong,
    /// The input holds a character that no identifier may hold.
    InvalidCharacters,
}

impl IdentifierError {
    /// What is said to the client about this error.
    pub open spec fn message_text(self) -> Seq<char> {
        match self {
            IdentifierError::Empty => "Input cannot be empty"@,
            IdentifierError::TooLong => "Input too long"@,
            IdentifierError::InvalidCharacters => "Invalid characters in input"@,
        }
    }

    /// What is said to the client about this error.
    pub fn message(self) -> (text: &'static str)
        ensures
            text@ == self.message_text(),
    {
        match self {
            IdentifierError::Empty => "Input cannot be empty",
            IdentifierError::TooLong => "Input too long",
            IdentifierError::InvalidCharacters => "Invalid characters in input",
        }
    }
}

/// The verdict on `input`. The three tests are made in this order, and the
/// first that fails decides: emptiness, length in bytes, characters.
pub open spec fn validation_of(input: Seq<char>) -> Result<(), IdentifierError> {
    if input.len() == 0 {
        Err(IdentifierError::Empty)
    } else if encode_utf8(input).len() > MAX_IDENTIFIER_LENGTH {
        Err(IdentifierError::TooLong)
    } else if !is_identifier_text(input) {
        Err(IdentifierError::InvalidCharacters)
    } else {
        Ok(())
    }
}

/// Searches `input` for `pattern`: `regex::Regex::new` compiles the pattern
/// and `Regex::is_match` runs it. `None` stands for a pattern that does not
/// compile.
///
/// The contract speaks of one pattern only, `IDENTIFIER_PATTERN`, and reads
/// it by the syntax that the `regex` crate documents: `^` and `$` are the
/// two ends of the haystack, `[..]+` is one or more characters of the class,
/// the class holds the three ranges, `\-` (a literal hyphen) and `_`. So the
/// pattern compiles, and it is found in exactly the inputs that are not
/// empty and hold characters of the class only. This is assumed, not proved.
#[verifier::external_body]
fn pattern_matches(pattern: &str, input: &str) -> (found: Option<bool>)
    ensures
        pattern@ == IDENTIFIER_PATTERN@ ==> found == Some(is_identifier_text(input@)),
{
    match Regex::new(pattern) {
        Ok(compiled) => Some(compiled.is_match(input)),
        Err(_) => None,
    }
}

/// Tests whether `input` is an identifier, and says why if it is not.
pub fn validate_pokemon_identifier(input: &str) -> (verdict: Result<(), IdentifierError>)
    ensures
        verdict == validation_of(input@),
{
    if input.is_empty() {
        return Err(IdentifierError::Empty);
    }
    if input.as_bytes().len() > MAX_IDENTIFIER_LENGTH {
        return Err(IdentifierError::TooLong);
    }
    match pattern_matches(IDENTIFIER_PATTERN, input) {
        Some(true) => Ok(()),
        _ => Err(IdentifierError::InvalidCharacters),
    }
}

/// An input passes validation exactly if it has between 1 and
/// `MAX_IDENTIFIER_LENGTH` characters and each of them is an ASCII letter, an
/// ASCII digit, `-` or `_`. (For such an input, characters and bytes are the
/// same in number.)
pub proof fn lemma_valid_iff_identifier(input: Seq<char>)
    ensures
        validation_of(input) is Ok <==> (0 < input.len() <= MAX_IDENTIFIER_LENGTH && forall|i: int|
            0 <= i < input.len() ==> is_identifier_char(#[trigger] input[i])),
{
    if is_identifier_text(input) {
        assert(is_ascii_chars(input)) by {
            assert forall|i: int| 0 <= i < input.len() implies '\0' <= #[trigger] input[i]
                <= '\u{7f}' by {
                assert(is_identifier_char(input[i]));
            }
        }
        is_ascii_chars_encode_utf8(input);
    }
}

/// A text of identifier characters that is not too long passes validation.
pub proof fn lemma_identifier_text_is_valid(input: Seq<char>)
    requires
        is_identifier_text(input),
        input.len() <= MAX_IDENTIFIER_LENGTH,
    ensures
        validation_of(input) == Ok::<(), IdentifierError>(()),
{
    lemma_valid_iff_identifier(input);
}

} // verus!
