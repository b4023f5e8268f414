//! The decisions that an assembled parser takes on an input: which variant
//! to make once the patterns were matched, and when to fail.

use vstd::prelude::*;
use vstd::string::*;

verus! {

/// Why an input is not parsed. The caller gets it as a value and may try
/// another input.
#[derive(Debug, PartialEq, Eq)]
pub enum ParseError {
    /// No pattern matches the input.
    NoMatch,
    /// The pattern matched, and has no capture group of this name.
    MissingCapture(String),
}

/// The text of a [`ParseError`].
pub open spec fn parse_error_text(e: ParseError) -> Seq<char> {
    match e {
        ParseError::NoMatch => "input does not match expected format"@,
        ParseError::MissingCapture(name) => "no capture group named "@ + name@,
    }
}

impl ParseError {
    /// What to tell the caller.
    pub fn message(&self) -> (r: String)
        ensures
            r@ == parse_error_text(*self),
    {
        match self {
            ParseError::NoMatch => String::from_str("input does not match expected format"),
            ParseError::MissingCapture(name) => {
                let mut text = String::from_str("no capture group named ");
                text.append(name.as_str());
                text
            },
        }
    }
}

/// Whether `index` is the first pattern that matched.
pub open spec fn is_first_match(matched: Seq<bool>, index: int) -> bool {
    &&& 0 <= index < matched.len()
    &&& matched[index]
    &&& forall|j: int| 0 <= j < index ==> !matched[j]
}

/// Whether no pattern matched.
pub open spec fn none_matched(matched: Seq<bool>) -> bool {
    forall|j: int| 0 <= j < matched.len() ==> !matched[j]
}

/// Picks the variant to make: the first, in declaration order, whose pattern
/// matched, whatever else matched too. Where none matched, the input does not
/// have the expected format. `matched` says of each pattern, in declaration
/// order, whether it matches the input; a struct has one pattern.
pub fn select_variant(matched: &Vec<bool>) -> (r: Result<usize, ParseError>)
    ensures
        match r {
            Ok(index) => is_first_match(matched@, index as int),
            Err(e) => e == ParseError::NoMatch && none_matched(matched@),
        },
{
    let mut i: usize = 0;
    while i < matched.len()
        invariant
            i <= matched.len(),
            forall|j: int| 0 <= j < i ==> !matched@[j],
        decreases matched.len() - i,
    {
        if matched[i] {
            return Ok(i);
        }
        i = i + 1;
    }
    Err(ParseError::NoMatch)
}

/// The text of a capture group that a field reads: the parse fails where the
/// match has no group of that name.
pub fn extract(name: &str, capture: Option<String>) -> (r: Result<String, ParseError>)
    ensures
        match capture {
            Some(text) => r == Ok::<String, ParseError>(text),
            None => r matches Err(ParseError::MissingCapture(n)) && n@ == name@,
        },
{
    match capture {
        Some(text) => Ok(text),
        None => Err(ParseError::MissingCapture(String::from_str(name))),
    }
}

/// At most one index is the first match: the choice does not depend on
/// anything but the order of the patterns.
pub proof fn lemma_first_match_unique(matched: Seq<bool>, i: int, j: int)
    requires
        is_first_match(matched, i),
        is_first_match(matched, j),
    ensures
        i == j,
{
}

/// Where two patterns match, the earlier one is chosen.
pub proof fn lemma_earlier_variant_wins(matched: Seq<bool>, chosen: int, i: int, j: int)
    requires
        is_first_match(matched, chosen),
        0 <= i < j < matched.len(),
        matched[i],
        matched[j],
    ensures
        chosen <= i,
        chosen != j,
{
}

} // verus!
