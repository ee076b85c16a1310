//! Patterns: how the casing of a list of words is chosen, and the integer
//! codes that name the patterns.

use vstd::prelude::*;

verus! {

/// A rule that assigns a casing to each word of a list.
#[derive(Clone, Copy, Debug, PartialEq, Eq, Structural)]
pub enum Pattern {
    /// Every word in lowercase.
    Lowercase,
    /// Every word in uppercase.
    Uppercase,
    /// Every word with an uppercase first letter and the rest in lowercase.
    Capital,
    /// The first word as in `Capital`, the others in lowercase.
    Sentence,
    /// The first word in lowercase, the others as in `Capital`.
    Camel,
    /// Letters alternate between lowercase and uppercase, across words.
    Alternating,
    /// Every word with a lowercase first letter and the rest in uppercase.
    Toggle,
}

impl Pattern {
    /// The integer code of this pattern. The mapping is fixed: a host may
    /// store codes.
    pub open spec fn code_spec(self) -> i64 {
        match self {
            Pattern::Lowercase => 0,
            Pattern::Uppercase => 1,
            Pattern::Capital => 2,
            Pattern::Sentence => 3,
            Pattern::Camel => 4,
            Pattern::Alternating => 5,
            Pattern::Toggle => 6,
        }
    }

    /// The pattern that `code` names, if it names one.
    pub open spec fn of_code(code: i64) -> Option<Pattern> {
        if code == 0 {
            Some(Pattern::Lowercase)
        } else if code == 1 {
            Some(Pattern::Uppercase)
        } else if code == 2 {
            Some(Pattern::Capital)
        } else if code == 3 {
            Some(Pattern::Sentence)
        } else if code == 4 {
            Some(Pattern::Camel)
        } else if code == 5 {
            Some(Pattern::Alternating)
        } else if code == 6 {
            Some(Pattern::Toggle)
        } else {
            None
        }
    }

    /// The integer code of this pattern.
    #[verifier::when_used_as_spec(code_spec)]
    pub fn code(self) -> (r: i64)
        ensures
            r == self.code_spec(),
            0 <= r <= 6,
            Self::of_code(r) == Some(self),
    {
        match self {
            Pattern::Lowercase => 0,
            Pattern::Uppercase => 1,
            Pattern::Capital => 2,
            Pattern::Sentence => 3,
            Pattern::Camel => 4,
            Pattern::Alternating => 5,
            Pattern::Toggle => 6,
        }
    }

    /// The pattern that `code` names. `None` for every integer that names
    /// none: a code is never bent into range.
    pub fn from_code(code: i64) -> (r: Option<Pattern>)
        ensures
            r == Self::of_code(code),
            r.is_some() <==> 0 <= code <= 6,
            r matches Some(p) ==> p.code_spec() == code,
    {
        match code {
            0 => Some(Pattern::Lowercase),
            1 => Some(Pattern::Uppercase),
            2 => Some(Pattern::Capital),
            3 => Some(Pattern::Sentence),
            4 => Some(Pattern::Camel),
            5 => Some(Pattern::Alternating),
            6 => Some(Pattern::Toggle),
            _ => None,
        }
    }
}

} // verus!
