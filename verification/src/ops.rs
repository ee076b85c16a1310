//! The four operations that a host calls. Each takes plain values, checks
//! every code before any word is split, and fails only on a code that names
//! nothing.

use vstd::prelude::*;
use crate::boundary::Boundary;
use crate::case::Case;
use crate::converter::{law_remove_all_leaves_none, Converter, ConverterView};
use crate::engine::{detect, detected, in_listing_order};
use crate::error::{Argument, InvalidEnumCode};
use crate::pattern::Pattern;

verus! {

/// What `mutate` may override. A field that is `None` leaves the setting of
/// a fresh converter in place.
#[derive(Debug)]
pub struct MutateOptions {
    /// The delimiter that joins the words.
    pub delim: Option<String>,
    /// The code of the pattern that mutates the words.
    pub pattern: Option<i64>,
    /// The codes of the boundaries to split on, in place of the defaults.
    pub boundaries: Option<Vec<i64>>,
}

/// The options of `mutate` as mathematical values.
pub ghost struct MutateOptionsView {
    pub delim: Option<Seq<char>>,
    pub pattern: Option<i64>,
    pub boundaries: Option<Seq<i64>>,
}

impl View for MutateOptions {
    type V = MutateOptionsView;

    open spec fn view(&self) -> MutateOptionsView {
        MutateOptionsView {
            delim: match self.delim {
                Some(d) => Some(d@),
                None => None,
            },
            pattern: self.pattern,
            boundaries: match self.boundaries {
                Some(codes) => Some(codes@),
                None => None,
            },
        }
    }
}

/// What `to_case` returns: the error for the first code that names no case,
/// the target before the source, or else the conversion.
pub open spec fn to_case_spec(input: Seq<char>, target_case: i64, from_case: Option<i64>) -> Result<
    Seq<char>,
    InvalidEnumCode,
> {
    match Case::of_code(target_case) {
        None => Err(InvalidEnumCode { argument: Argument::TargetCase, code: target_case }),
        Some(target) => match from_case {
            None => Ok(ConverterView::fresh().to_case(target).convert(input)),
            Some(code) => match Case::of_code(code) {
                None => Err(InvalidEnumCode { argument: Argument::FromCase, code }),
                Some(from) => Ok(
                    ConverterView::fresh().from_case(from).to_case(target).convert(input),
                ),
            },
        },
    }
}

/// What `is_case` returns: whether converting `input` to the case, split at
/// the default boundaries, gives `input` back.
pub open spec fn is_case_spec(input: Seq<char>, target_case: i64) -> Result<bool, InvalidEnumCode> {
    match Case::of_code(target_case) {
        None => Err(InvalidEnumCode { argument: Argument::TargetCase, code: target_case }),
        Some(target) => Ok(ConverterView::fresh().to_case(target).convert(input) == input),
    }
}

/// The boundaries that a list of valid codes names, in the order of the
/// codes.
pub open spec fn boundaries_of_codes(codes: Seq<i64>) -> Seq<Boundary> {
    Seq::new(codes.len(), |i: int| Boundary::of_code(codes[i]).unwrap())
}

/// The codes of a list of boundaries, in the order of the boundaries.
pub open spec fn codes_of_boundaries(boundaries: Seq<Boundary>) -> Seq<i64> {
    Seq::new(boundaries.len(), |i: int| boundaries[i].code_spec())
}

/// Whether `index` is the first place of `codes` that names no boundary.
pub open spec fn first_invalid_boundary(codes: Seq<i64>, index: int) -> bool {
    &&& 0 <= index < codes.len()
    &&& Boundary::of_code(codes[index]).is_none()
    &&& forall|j: int| 0 <= j < index ==> Boundary::of_code(#[trigger] codes[j]).is_some()
}

/// Whether every code of the options names something.
pub open spec fn options_valid(options: MutateOptionsView) -> bool {
    &&& options.pattern matches Some(code) ==> Pattern::of_code(code).is_some()
    &&& options.boundaries matches Some(codes) ==> forall|i: int|
        0 <= i < codes.len() ==> Boundary::of_code(#[trigger] codes[i]).is_some()
}

/// Whether `error` reports the first code of the options that names
/// nothing: the pattern before the boundaries, and these in their order.
pub open spec fn options_rejected(options: MutateOptionsView, error: InvalidEnumCode) -> bool {
    match error.argument {
        Argument::Pattern => {
            &&& options.pattern == Some(error.code)
            &&& Pattern::of_code(error.code).is_none()
        },
        Argument::Boundary { index } => {
            &&& options.pattern matches Some(code) ==> Pattern::of_code(code).is_some()
            &&& options.boundaries matches Some(codes) && first_invalid_boundary(
                codes,
                index as int,
            ) && codes[index as int] == error.code
        },
        _ => false,
    }
}

/// The settings that valid options describe: those of a fresh converter,
/// with the delimiter and the pattern replaced where the options hold one,
/// and the boundaries replaced as a whole where the options list any.
pub open spec fn options_converter(options: MutateOptionsView) -> ConverterView {
    ConverterView {
        boundaries: match options.boundaries {
            Some(codes) => boundaries_of_codes(codes),
            None => Boundary::defaults_spec(),
        },
        pattern: match options.pattern {
            Some(code) => Pattern::of_code(code),
            None => None,
        },
        delim: match options.delim {
            Some(d) => d,
            None => Seq::empty(),
        },
    }
}

/// Converts `input` to the case that `target_case` names. With a
/// `from_case`, the input is split as a string of that case is; without one,
/// at the default boundaries.
pub fn to_case(input: &str, target_case: i64, from_case: Option<i64>) -> (r: Result<
    String,
    InvalidEnumCode,
>)
    ensures
        r matches Ok(s) ==> to_case_spec(input@, target_case, from_case) == Ok::<
            Seq<char>,
            InvalidEnumCode,
        >(s@),
        r matches Err(e) ==> to_case_spec(input@, target_case, from_case) == Err::<
            Seq<char>,
            InvalidEnumCode,
        >(e),
        input@.len() == 0 ==> (r matches Ok(s) ==> s@.len() == 0),
{
    let target = match Case::from_code(target_case) {
        Some(case) => case,
        None => {
            return Err(InvalidEnumCode { argument: Argument::TargetCase, code: target_case });
        },
    };
    let mut conv = Converter::new();
    if let Some(code) = from_case {
        match Case::from_code(code) {
            Some(case) => {
                conv = conv.from_case(case);
            },
            None => {
                return Err(InvalidEnumCode { argument: Argument::FromCase, code });
            },
        }
    }
    Ok(conv.to_case(target).convert(input))
}

/// Whether `input` is already written in the case that `target_case` names:
/// whether converting it to that case changes nothing.
pub fn is_case(input: &str, target_case: i64) -> (r: Result<bool, InvalidEnumCode>)
    ensures
        r == is_case_spec(input@, target_case),
        input@.len() == 0 && Case::of_code(target_case).is_some() ==> r == Ok::<
            bool,
            InvalidEnumCode,
        >(true),
{
    match Case::from_code(target_case) {
        Some(case) => {
            let converted = Converter::new().to_case(case).convert(input);
            proof {
                if input@.len() == 0 {
                    assert(converted@ =~= input@);
                }
            }
            Ok(same_text(input, converted.as_str()))
        },
        None => Err(InvalidEnumCode { argument: Argument::TargetCase, code: target_case }),
    }
}

/// Whether two strings hold the same characters: the test that `is_case`
/// makes of an input and what it was converted to.
pub fn same_text(left: &str, right: &str) -> (r: bool)
    ensures
        r == (left@ == right@),
{
    let left = left.to_owned();
    let right = right.to_owned();
    left == right
}

/// Converts `input` with the settings that `options` override.
///
/// Where the options list boundaries, the list replaces the default
/// boundaries as a whole: the defaults are removed, then each listed
/// boundary is added.
pub fn mutate(input: &str, options: &MutateOptions) -> (r: Result<String, InvalidEnumCode>)
    ensures
        r.is_ok() <==> options_valid(options@),
        r matches Ok(s) ==> s@ == options_converter(options@).convert(input@),
        r matches Err(e) ==> options_rejected(options@, e),
{
    let mut conv = Converter::new();
    if let Some(delim) = &options.delim {
        conv = conv.set_delim(delim.as_str());
    }
    if let Some(code) = options.pattern {
        match Pattern::from_code(code) {
            Some(pattern) => {
                conv = conv.set_pattern(pattern);
            },
            None => {
                return Err(InvalidEnumCode { argument: Argument::Pattern, code });
            },
        }
    }
    if let Some(codes) = &options.boundaries {
        proof {
            law_remove_all_leaves_none(conv@);
        }
        conv = conv.remove_boundaries(&Boundary::all());
        let mut i: usize = 0;
        while i < codes.len()
            invariant
                i <= codes.len(),
                options@.boundaries == Some(codes@),
                options.pattern matches Some(code) ==> Pattern::of_code(code).is_some(),
                forall|j: int| 0 <= j < i ==> Boundary::of_code(#[trigger] codes@[j]).is_some(),
                conv@.boundaries == boundaries_of_codes(codes@.subrange(0, i as int)),
                conv@.pattern == options_converter(options@).pattern,
                conv@.delim == options_converter(options@).delim,
            decreases codes.len() - i,
        {
            let code = codes[i];
            match Boundary::from_code(code) {
                Some(boundary) => {
                    proof {
                        assert(boundaries_of_codes(codes@.subrange(0, i + 1))
                            =~= boundaries_of_codes(codes@.subrange(0, i as int)).push(boundary));
                    }
                    conv = conv.add_boundary(boundary);
                },
                None => {
                    return Err(
                        InvalidEnumCode { argument: Argument::Boundary { index: i }, code },
                    );
                },
            }
            i += 1;
        }
        proof {
            assert(codes@.subrange(0, i as int) =~= codes@);
        }
    }
    Ok(conv.convert(input))
}

/// The codes of the boundaries that occur in `input`, in the order of
/// `Boundary::all()`, each at most once.
pub fn list_from(input: &str) -> (r: Vec<i64>)
    ensures
        r@ == codes_of_boundaries(detected(input@)),
        in_listing_order(detected(input@)),
{
    let found = detect(input);
    boundary_codes(&found)
}

/// The codes of `boundaries`, one for one and in their order.
pub fn boundary_codes(boundaries: &Vec<Boundary>) -> (r: Vec<i64>)
    ensures
        r@ == codes_of_boundaries(boundaries@),
{
    let mut codes: Vec<i64> = Vec::new();
    let mut i: usize = 0;
    while i < boundaries.len()
        invariant
            i <= boundaries.len(),
            codes@ == codes_of_boundaries(boundaries@.subrange(0, i as int)),
        decreases boundaries.len() - i,
    {
        proof {
            assert(codes_of_boundaries(boundaries@.subrange(0, i + 1)) =~= codes_of_boundaries(
                boundaries@.subrange(0, i as int),
            ).push(boundaries@[i as int].code_spec()));
        }
        codes.push(boundaries[i].code());
        i += 1;
    }
    proof {
        assert(boundaries@.subrange(0, i as int) =~= boundaries@);
    }
    codes
}

} // verus!
