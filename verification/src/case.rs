//! Cases: the named presets, each a set of boundaries to split on, a pattern
//! to mutate with and a delimiter to join with.

use vstd::prelude::*;
use crate::boundary::Boundary;
use crate::pattern::Pattern;

verus! {

/// A named way of writing several words as one string.
#[derive(Clone, Copy, Debug, PartialEq, Eq, Structural)]
pub enum Case {
    /// `MY VARIABLE NAME`
    Upper,
    /// `my variable name`
    Lower,
    /// `My Variable Name`
    Title,
    /// `mY vARIABLE nAME`
    Toggle,
    /// `myVariableName`
    Camel,
    /// `MyVariableName`
    Pascal,
    /// Another name for `Pascal`.
    UpperCamel,
    /// `my_variable_name`
    Snake,
    /// `MY_VARIABLE_NAME`
    UpperSnake,
    /// Another name for `UpperSnake`.
    ScreamingSnake,
    /// `my-variable-name`
    Kebab,
    /// `MY-VARIABLE-NAME`
    Cobol,
    /// Another name for `Cobol`.
    UpperKebab,
    /// `My-Variable-Name`
    Train,
    /// `myvariablename`
    Flat,
    /// `MYVARIABLENAME`
    UpperFlat,
    /// `mY vArIaBlE nAmE`
    Alternating,
}

impl Case {
    /// The integer code of this case. The mapping is fixed: a host may store
    /// codes.
    pub open spec fn code_spec(self) -> i64 {
        match self {
            Case::Upper => 0,
            Case::Lower => 1,
            Case::Title => 2,
            Case::Toggle => 3,
            Case::Camel => 4,
            Case::Pascal => 5,
            Case::UpperCamel => 6,
            Case::Snake => 7,
            Case::UpperSnake => 8,
            Case::ScreamingSnake => 9,
            Case::Kebab => 10,
            Case::Cobol => 11,
            Case::UpperKebab => 12,
            Case::Train => 13,
            Case::Flat => 14,
            Case::UpperFlat => 15,
            Case::Alternating => 16,
        }
    }

    /// The case that `code` names, if it names one.
    pub open spec fn of_code(code: i64) -> Option<Case> {
        if code == 0 {
            Some(Case::Upper)
        } else if code == 1 {
            Some(Case::Lower)
        } else if code == 2 {
            Some(Case::Title)
        } else if code == 3 {
            Some(Case::Toggle)
        } else if code == 4 {
            Some(Case::Camel)
        } else if code == 5 {
            Some(Case::Pascal)
        } else if code == 6 {
            Some(Case::UpperCamel)
        } else if code == 7 {
            Some(Case::Snake)
        } else if code == 8 {
            Some(Case::UpperSnake)
        } else if code == 9 {
            Some(Case::ScreamingSnake)
        } else if code == 10 {
            Some(Case::Kebab)
        } else if code == 11 {
            Some(Case::Cobol)
        } else if code == 12 {
            Some(Case::UpperKebab)
        } else if code == 13 {
            Some(Case::Train)
        } else if code == 14 {
            Some(Case::Flat)
        } else if code == 15 {
            Some(Case::UpperFlat)
        } else if code == 16 {
            Some(Case::Alternating)
        } else {
            None
        }
    }

    /// The delimiter that joins the words of this case.
    pub open spec fn delim_spec(self) -> Seq<char> {
        match self {
            Case::Upper | Case::Lower | Case::Title | Case::Toggle | Case::Alternating => seq![' '],
            Case::Snake | Case::UpperSnake | Case::ScreamingSnake => seq!['_'],
            Case::Kebab | Case::Cobol | Case::UpperKebab | Case::Train => seq!['-'],
            Case::UpperFlat | Case::Flat | Case::Camel | Case::UpperCamel | Case::Pascal => seq![],
        }
    }

    /// The pattern that mutates the words of this case.
    pub open spec fn pattern_spec(self) -> Pattern {
        match self {
            Case::Upper
            | Case::UpperSnake
            | Case::ScreamingSnake
            | Case::UpperFlat
            | Case::Cobol
            | Case::UpperKebab => Pattern::Uppercase,
            Case::Lower | Case::Snake | Case::Kebab | Case::Flat => Pattern::Lowercase,
            Case::Title | Case::Pascal | Case::UpperCamel | Case::Train => Pattern::Capital,
            Case::Camel => Pattern::Camel,
            Case::Toggle => Pattern::Toggle,
            Case::Alternating => Pattern::Alternating,
        }
    }

    /// The boundaries at which a string written in this case is split.
    pub open spec fn boundaries_spec(self) -> Seq<Boundary> {
        match self {
            Case::Upper | Case::Lower | Case::Title | Case::Toggle | Case::Alternating => seq![
                Boundary::Space,
            ],
            Case::Snake | Case::UpperSnake | Case::ScreamingSnake => seq![Boundary::Underscore],
            Case::Kebab | Case::Cobol | Case::UpperKebab | Case::Train => seq![Boundary::Hyphen],
            Case::UpperFlat | Case::Flat => seq![],
            Case::Camel | Case::UpperCamel | Case::Pascal => seq![
                Boundary::LowerUpper,
                Boundary::Acronym,
                Boundary::LowerDigit,
                Boundary::UpperDigit,
                Boundary::DigitLower,
                Boundary::DigitUpper,
            ],
        }
    }

    /// The integer code of this case.
    #[verifier::when_used_as_spec(code_spec)]
    pub fn code(self) -> (r: i64)
        ensures
            r == self.code_spec(),
            0 <= r <= 16,
            Self::of_code(r) == Some(self),
    {
        match self {
            Case::Upper => 0,
            Case::Lower => 1,
            Case::Title => 2,
            Case::Toggle => 3,
            Case::Camel => 4,
            Case::Pascal => 5,
            Case::UpperCamel => 6,
            Case::Snake => 7,
            Case::UpperSnake => 8,
            Case::ScreamingSnake => 9,
            Case::Kebab => 10,
            Case::Cobol => 11,
            Case::UpperKebab => 12,
            Case::Train => 13,
            Case::Flat => 14,
            Case::UpperFlat => 15,
            Case::Alternating => 16,
        }
    }

    /// The case that `code` names. `None` for every integer that names none:
    /// a code is never bent into range.
    pub fn from_code(code: i64) -> (r: Option<Case>)
        ensures
            r == Self::of_code(code),
            r.is_some() <==> 0 <= code <= 16,
            r matches Some(c) ==> c.code_spec() == code,
    {
        match code {
            0 => Some(Case::Upper),
            1 => Some(Case::Lower),
            2 => Some(Case::Title),
            3 => Some(Case::Toggle),
            4 => Some(Case::Camel),
            5 => Some(Case::Pascal),
            6 => Some(Case::UpperCamel),
            7 => Some(Case::Snake),
            8 => Some(Case::UpperSnake),
            9 => Some(Case::ScreamingSnake),
            10 => Some(Case::Kebab),
            11 => Some(Case::Cobol),
            12 => Some(Case::UpperKebab),
            13 => Some(Case::Train),
            14 => Some(Case::Flat),
            15 => Some(Case::UpperFlat),
            16 => Some(Case::Alternating),
            _ => None,
        }
    }

    /// The delimiter that joins the words of this case.
    pub fn delim(self) -> (r: &'static str)
        ensures
            r@ == self.delim_spec(),
    {
        proof {
            reveal_strlit(" ");
            reveal_strlit("_");
            reveal_strlit("-");
            reveal_strlit("");
        }
        let r = match self {
            Case::Upper | Case::Lower | Case::Title | Case::Toggle | Case::Alternating => " ",
            Case::Snake | Case::UpperSnake | Case::ScreamingSnake => "_",
            Case::Kebab | Case::Cobol | Case::UpperKebab | Case::Train => "-",
            Case::UpperFlat | Case::Flat | Case::Camel | Case::UpperCamel | Case::Pascal => "",
        };
        assert(r@ =~= self.delim_spec());
        r
    }

    /// The pattern that mutates the words of this case.
    #[verifier::when_used_as_spec(pattern_spec)]
    pub fn pattern(self) -> (r: Pattern)
        ensures
            r == self.pattern_spec(),
    {
        match self {
            Case::Upper
            | Case::UpperSnake
            | Case::ScreamingSnake
            | Case::UpperFlat
            | Case::Cobol
            | Case::UpperKebab => Pattern::Uppercase,
            Case::Lower | Case::Snake | Case::Kebab | Case::Flat => Pattern::Lowercase,
            Case::Title | Case::Pascal | Case::UpperCamel | Case::Train => Pattern::Capital,
            Case::Camel => Pattern::Camel,
            Case::Toggle => Pattern::Toggle,
            Case::Alternating => Pattern::Alternating,
        }
    }

    /// The boundaries at which a string written in this case is split.
    pub fn boundaries(self) -> (r: Vec<Boundary>)
        ensures
            r@ == self.boundaries_spec(),
    {
        let r = match self {
            Case::Upper | Case::Lower | Case::Title | Case::Toggle | Case::Alternating => vec![
                Boundary::Space,
            ],
            Case::Snake | Case::UpperSnake | Case::ScreamingSnake => vec![Boundary::Underscore],
            Case::Kebab | Case::Cobol | Case::UpperKebab | Case::Train => vec![Boundary::Hyphen],
            Case::UpperFlat | Case::Flat => Vec::new(),
            Case::Camel | Case::UpperCamel | Case::Pascal => vec![
                Boundary::LowerUpper,
                Boundary::Acronym,
                Boundary::LowerDigit,
                Boundary::UpperDigit,
                Boundary::DigitLower,
                Boundary::DigitUpper,
            ],
        };
        assert(r@ =~= self.boundaries_spec());
        r
    }
}

} // verus!
