//! The converter: the three settings of one conversion, the setters that
//! change them, and the conversion itself.

use vstd::prelude::*;
use crate::boundary::Boundary;
use crate::case::Case;
use crate::engine::{conversion, run_converter};
use crate::pattern::Pattern;

verus! {

/// The settings of one conversion.
///
/// A converter is made fresh for each conversion, set up by a chain of
/// setters that each take and return it, and read once by `convert`.
#[derive(Debug, PartialEq, Eq)]
pub struct Converter {
    /// Where the input is split into words. Read as a set: order and
    /// repetition do not matter to `convert`.
    pub boundaries: Vec<Boundary>,
    /// How the words are mutated. With `None` every word keeps its casing.
    pub pattern: Option<Pattern>,
    /// What joins the words.
    pub delim: String,
}

/// The settings of a converter as mathematical values.
pub ghost struct ConverterView {
    pub boundaries: Seq<Boundary>,
    pub pattern: Option<Pattern>,
    pub delim: Seq<char>,
}

impl View for Converter {
    type V = ConverterView;

    open spec fn view(&self) -> ConverterView {
        ConverterView { boundaries: self.boundaries@, pattern: self.pattern, delim: self.delim@ }
    }
}

impl ConverterView {
    /// The settings of a fresh converter: the default boundaries, no
    /// pattern, and the empty delimiter.
    pub open spec fn fresh() -> ConverterView {
        ConverterView {
            boundaries: Boundary::defaults_spec(),
            pattern: None,
            delim: Seq::empty(),
        }
    }

    /// Splitting as a string in `case` is split.
    pub open spec fn from_case(self, case: Case) -> ConverterView {
        ConverterView { boundaries: case.boundaries_spec(), ..self }
    }

    /// Mutating and joining as `case` does.
    pub open spec fn to_case(self, case: Case) -> ConverterView {
        ConverterView { pattern: Some(case.pattern_spec()), delim: case.delim_spec(), ..self }
    }

    /// Joining with `delim`.
    pub open spec fn set_delim(self, delim: Seq<char>) -> ConverterView {
        ConverterView { delim, ..self }
    }

    /// Mutating with `pattern`.
    pub open spec fn set_pattern(self, pattern: Pattern) -> ConverterView {
        ConverterView { pattern: Some(pattern), ..self }
    }

    /// Splitting on `boundary` too.
    pub open spec fn add_boundary(self, boundary: Boundary) -> ConverterView {
        ConverterView { boundaries: self.boundaries.push(boundary), ..self }
    }

    /// Splitting on none of `removed` any more.
    pub open spec fn remove_boundaries(self, removed: Seq<Boundary>) -> ConverterView {
        ConverterView {
            boundaries: self.boundaries.filter(|b: Boundary| !removed.contains(b)),
            ..self
        }
    }

    /// The string that a converter with these settings makes of `input`.
    pub open spec fn convert(self, input: Seq<char>) -> Seq<char> {
        conversion(input, self.boundaries.to_set(), self.pattern, self.delim)
    }
}

/// Removing every boundary leaves none, whatever was there.
pub proof fn law_remove_all_leaves_none(v: ConverterView)
    ensures
        v.remove_boundaries(Boundary::all_spec()).boundaries == Seq::<Boundary>::empty(),
    decreases v.boundaries.len(),
{
    reveal_with_fuel(Seq::filter, 1);
    if v.boundaries.len() > 0 {
        let rest = ConverterView { boundaries: v.boundaries.drop_last(), ..v };
        law_remove_all_leaves_none(rest);
        let b = v.boundaries.last();
        assert(Boundary::all_spec()[b.rank_spec() as int] == b);
    }
}

/// Whether `list` holds `wanted`.
fn holds(list: &Vec<Boundary>, wanted: Boundary) -> (r: bool)
    ensures
        r == list@.contains(wanted),
{
    let mut i: usize = 0;
    while i < list.len()
        invariant
            i <= list.len(),
            forall|j: int| 0 <= j < i ==> list@[j] != wanted,
        decreases list.len() - i,
    {
        if list[i] == wanted {
            return true;
        }
        i += 1;
    }
    false
}

impl Converter {
    /// A converter with the default boundaries, no pattern and the empty
    /// delimiter.
    pub fn new() -> (r: Converter)
        ensures
            r@ == ConverterView::fresh(),
    {
        Converter { boundaries: Boundary::defaults(), pattern: None, delim: String::new() }
    }

    /// Replaces the boundaries by those of `case`.
    pub fn from_case(self, case: Case) -> (r: Converter)
        ensures
            r@ == self@.from_case(case),
    {
        Converter { boundaries: case.boundaries(), pattern: self.pattern, delim: self.delim }
    }

    /// Replaces the pattern and the delimiter by those of `case`.
    pub fn to_case(self, case: Case) -> (r: Converter)
        ensures
            r@ == self@.to_case(case),
    {
        Converter {
            boundaries: self.boundaries,
            pattern: Some(case.pattern()),
            delim: case.delim().to_owned(),
        }
    }

    /// Replaces the delimiter.
    pub fn set_delim(self, delim: &str) -> (r: Converter)
        ensures
            r@ == self@.set_delim(delim@),
    {
        Converter { boundaries: self.boundaries, pattern: self.pattern, delim: delim.to_owned() }
    }

    /// Replaces the pattern.
    pub fn set_pattern(self, pattern: Pattern) -> (r: Converter)
        ensures
            r@ == self@.set_pattern(pattern),
    {
        Converter { boundaries: self.boundaries, pattern: Some(pattern), delim: self.delim }
    }

    /// Adds one boundary to those already there.
    pub fn add_boundary(self, boundary: Boundary) -> (r: Converter)
        ensures
            r@ == self@.add_boundary(boundary),
    {
        let mut boundaries = self.boundaries;
        boundaries.push(boundary);
        Converter { boundaries, pattern: self.pattern, delim: self.delim }
    }

    /// Takes away every boundary that `removed` lists, and keeps the others
    /// in their order.
    pub fn remove_boundaries(self, removed: &Vec<Boundary>) -> (r: Converter)
        ensures
            r@ == self@.remove_boundaries(removed@),
    {
        let ghost keep = |b: Boundary| !removed@.contains(b);
        let mut kept: Vec<Boundary> = Vec::new();
        let mut i: usize = 0;
        proof {
            assert(self.boundaries@.subrange(0, 0) =~= Seq::<Boundary>::empty());
            reveal_with_fuel(Seq::filter, 1);
        }
        while i < self.boundaries.len()
            invariant
                i <= self.boundaries.len(),
                keep == |b: Boundary| !removed@.contains(b),
                kept@ == self.boundaries@.subrange(0, i as int).filter(keep),
            decreases self.boundaries.len() - i,
        {
            let b = self.boundaries[i];
            let drop = holds(removed, b);
            proof {
                let before = self.boundaries@.subrange(0, i as int);
                let after = self.boundaries@.subrange(0, i + 1);
                assert(after.drop_last() =~= before);
                assert(after.last() == b);
                reveal_with_fuel(Seq::filter, 1);
            }
            if !drop {
                kept.push(b);
            }
            i += 1;
        }
        proof {
            assert(self.boundaries@.subrange(0, i as int) =~= self.boundaries@);
        }
        Converter { boundaries: kept, pattern: self.pattern, delim: self.delim }
    }

    /// Converts `input`: splits it at the boundaries, mutates the words with
    /// the pattern, and joins them with the delimiter. The empty string
    /// gives the empty string.
    pub fn convert(&self, input: &str) -> (r: String)
        ensures
            r@ == self@.convert(input@),
    {
        let r = run_converter(input, &self.boundaries, self.pattern, self.delim.as_str());
        proof {
            if input@.len() == 0 {
                assert(r@ =~= Seq::empty());
            }
        }
        r
    }
}

} // verus!
