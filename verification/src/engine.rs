//! The two calls into `convert_case`, and the names under which the rest of
//! the crate speaks of what they return.
//!
//! Nothing here is proved. Each contract states what the source of
//! `convert_case` shows of the function that the body calls.

use vstd::prelude::*;
use crate::boundary::Boundary;
use crate::pattern::Pattern;

verus! {

/// The string that `convert_case::Converter::convert` returns for `input`
/// when the converter splits on `boundaries`, mutates with `pattern` and
/// joins with `delim`.
///
/// The boundaries are a set: the converter only ever asks whether some
/// boundary of its list fires at a place, so neither their order nor a
/// repetition can change the result.
pub uninterp spec fn converted(
    input: Seq<char>,
    boundaries: Set<Boundary>,
    pattern: Option<Pattern>,
    delim: Seq<char>,
) -> Seq<char>;

/// The boundaries that `convert_case::Boundary::list_from` finds in `input`.
pub uninterp spec fn detected(input: Seq<char>) -> Seq<Boundary>;

/// The result of a conversion: the empty string for the empty string, since
/// there is no word to mutate or join, and `converted` otherwise.
pub open spec fn conversion(
    input: Seq<char>,
    boundaries: Set<Boundary>,
    pattern: Option<Pattern>,
    delim: Seq<char>,
) -> Seq<char> {
    if input.len() == 0 {
        Seq::empty()
    } else {
        converted(input, boundaries, pattern, delim)
    }
}

/// Whether `found` follows the order of `Boundary::all_spec()`, each boundary
/// at most once.
pub open spec fn in_listing_order(found: Seq<Boundary>) -> bool {
    forall|i: int, j: int|
        0 <= i < j < found.len() ==> (#[trigger] found[i]).rank_spec() < (
        #[trigger] found[j]).rank_spec()
}

/// Calls `convert_case::Converter::convert` on a converter whose three fields
/// are the arguments.
///
/// Trusted: the result is a function of the input's characters, of which
/// boundaries are listed, of the pattern and of the delimiter; and an empty
/// input gives an empty result. The body finds the counterpart of a boundary
/// at its rank in `convert_case::Boundary::all()`, which lists the boundaries
/// in the order of `Boundary::all_spec()`.
#[verifier::external_body]
pub(crate) fn run_converter(
    input: &str,
    boundaries: &Vec<Boundary>,
    pattern: Option<Pattern>,
    delim: &str,
) -> (r: String)
    ensures
        r@ == converted(input@, boundaries@.to_set(), pattern, delim@),
        input@.len() == 0 ==> r@.len() == 0,
{
    let known = convert_case::Boundary::all();
    let conv = convert_case::Converter {
        boundaries: boundaries.iter().map(|b| known[b.rank()]).collect(),
        pattern: pattern.map(|p| match p {
            Pattern::Lowercase => convert_case::Pattern::Lowercase,
            Pattern::Uppercase => convert_case::Pattern::Uppercase,
            Pattern::Capital => convert_case::Pattern::Capital,
            Pattern::Sentence => convert_case::Pattern::Sentence,
            Pattern::Camel => convert_case::Pattern::Camel,
            Pattern::Alternating => convert_case::Pattern::Alternating,
            Pattern::Toggle => convert_case::Pattern::Toggle,
        }),
        delim: delim.to_string(),
    };
    conv.convert(input)
}

/// Calls `convert_case::Boundary::list_from`.
///
/// Trusted: the result is a function of the input's characters, and it is
/// what a filter leaves of `convert_case::Boundary::all()`, so it keeps that
/// order and repeats nothing.
#[verifier::external_body]
pub(crate) fn detect(input: &str) -> (r: Vec<Boundary>)
    ensures
        r@ == detected(input@),
        in_listing_order(r@),
{
    let found = convert_case::Boundary::list_from(input);
    found.into_iter().map(|b| match b {
        convert_case::Boundary::Hyphen => Boundary::Hyphen,
        convert_case::Boundary::Underscore => Boundary::Underscore,
        convert_case::Boundary::Space => Boundary::Space,
        convert_case::Boundary::UpperLower => Boundary::UpperLower,
        convert_case::Boundary::LowerUpper => Boundary::LowerUpper,
        convert_case::Boundary::DigitUpper => Boundary::DigitUpper,
        convert_case::Boundary::UpperDigit => Boundary::UpperDigit,
        convert_case::Boundary::DigitLower => Boundary::DigitLower,
        convert_case::Boundary::LowerDigit => Boundary::LowerDigit,
        convert_case::Boundary::Acronym => Boundary::Acronym,
    }).collect()
}

} // verus!
