//! What holds of the operations whatever the input: the laws that a host can
//! build on.

use vstd::prelude::*;
use crate::boundary::Boundary;
use crate::case::Case;
use crate::converter::ConverterView;
use crate::engine::in_listing_order;
use crate::error::InvalidEnumCode;
use crate::ops::{
    codes_of_boundaries, is_case_spec, options_rejected, options_valid, to_case_spec,
    MutateOptionsView,
};
use crate::pattern::Pattern;

verus! {

/// A string is in a case exactly when converting it to that case, split at
/// the default boundaries, gives the string back; and a code that names no
/// case is refused by the test and by the conversion alike.
pub proof fn law_is_case_means_unchanged(input: Seq<char>, target_case: i64)
    ensures
        is_case_spec(input, target_case) matches Ok(is) ==> (is <==> to_case_spec(
            input,
            target_case,
            None,
        ) == Ok::<Seq<char>, InvalidEnumCode>(input)),
        is_case_spec(input, target_case) matches Err(e) ==> to_case_spec(input, target_case, None)
            == Err::<Seq<char>, InvalidEnumCode>(e),
{
}

/// What a conversion returns is in the target case exactly when converting
/// it once more changes nothing.
pub proof fn law_converted_is_case_when_stable(input: Seq<char>, target_case: i64)
    requires
        Case::of_code(target_case).is_some(),
    ensures
        is_case_spec(to_case_spec(input, target_case, None).unwrap(), target_case) == Ok::<
            bool,
            InvalidEnumCode,
        >(
            to_case_spec(to_case_spec(input, target_case, None).unwrap(), target_case, None)
                == to_case_spec(input, target_case, None),
        ),
{
}

/// The empty string converts to the empty string, whatever the target case
/// and whatever case it is split as.
pub proof fn law_empty_converts_to_empty(
    input: Seq<char>,
    target_case: i64,
    from_case: Option<i64>,
)
    requires
        input.len() == 0,
        Case::of_code(target_case).is_some(),
        from_case matches Some(code) ==> Case::of_code(code).is_some(),
    ensures
        to_case_spec(input, target_case, from_case) == Ok::<Seq<char>, InvalidEnumCode>(input),
{
    assert(input =~= Seq::empty());
}

/// The empty string is in every case.
pub proof fn law_empty_is_every_case(input: Seq<char>, target_case: i64)
    requires
        input.len() == 0,
        Case::of_code(target_case).is_some(),
    ensures
        is_case_spec(input, target_case) == Ok::<bool, InvalidEnumCode>(true),
{
    assert(input =~= Seq::empty());
}

/// A conversion reads its boundaries as a set: two converters that agree on
/// pattern and delimiter and list the same boundaries, in whatever order and
/// however often, convert every input alike.
pub proof fn law_boundaries_are_a_set(a: ConverterView, b: ConverterView, input: Seq<char>)
    requires
        a.pattern == b.pattern,
        a.delim == b.delim,
        a.boundaries.to_set() == b.boundaries.to_set(),
    ensures
        a.convert(input) == b.convert(input),
{
}

/// Of two setters of the same setting the last one wins: a pattern replaces
/// a pattern, a delimiter a delimiter, the boundaries of a case those of
/// another, and the pattern and delimiter of a case whatever was set before.
pub proof fn law_last_setter_wins(
    v: ConverterView,
    p: Pattern,
    q: Pattern,
    d: Seq<char>,
    e: Seq<char>,
    c: Case,
    k: Case,
)
    ensures
        v.set_pattern(p).set_pattern(q) == v.set_pattern(q),
        v.set_delim(d).set_delim(e) == v.set_delim(e),
        v.from_case(c).from_case(k) == v.from_case(k),
        v.to_case(c).to_case(k) == v.to_case(k),
        v.set_pattern(p).set_delim(d).to_case(k) == v.to_case(k),
        v.to_case(c).set_pattern(p).pattern == Some(p),
        v.to_case(c).set_delim(d).delim == d,
{
}

/// Options are refused exactly when one of their codes names nothing, and
/// then only one error can report it: the first such code.
pub proof fn law_one_error_per_options(
    options: MutateOptionsView,
    first: InvalidEnumCode,
    second: InvalidEnumCode,
)
    ensures
        options_rejected(options, first) ==> !options_valid(options),
        options_rejected(options, first) && options_rejected(options, second) ==> first == second,
{
    if options_rejected(options, first) && options_rejected(options, second) {
        assert(first.argument == second.argument);
        assert(first.code == second.code);
    }
}

/// A listing in order names each boundary at most once: its codes are all
/// different, and there are at most ten of them.
pub proof fn law_listing_repeats_nothing(found: Seq<Boundary>)
    requires
        in_listing_order(found),
    ensures
        codes_of_boundaries(found).no_duplicates(),
        found.len() <= Boundary::all_spec().len(),
{
    let codes = codes_of_boundaries(found);
    assert forall|i: int, j: int| 0 <= i < codes.len() && 0 <= j < codes.len() && i != j implies codes[i]
        != codes[j] by {
        if i < j {
            assert(found[i].rank_spec() < found[j].rank_spec());
        } else {
            assert(found[j].rank_spec() < found[i].rank_spec());
        }
    }
    lemma_ranks_climb(found, found.len() as int);
}

/// In a listing in order the rank of each entry is at least its place.
proof fn lemma_ranks_climb(found: Seq<Boundary>, upto: int)
    requires
        in_listing_order(found),
        0 <= upto <= found.len(),
    ensures
        forall|i: int| 0 <= i < upto ==> (#[trigger] found[i]).rank_spec() >= i,
        upto <= 10,
    decreases upto,
{
    if upto > 0 {
        lemma_ranks_climb(found, upto - 1);
        if upto > 1 {
            assert(found[upto - 2].rank_spec() < found[upto - 1].rank_spec());
        }
        assert(found[upto - 1].rank_spec() <= 9);
    }
}

} // verus!
