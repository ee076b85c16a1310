//! Word boundaries: the rules that say where one word ends and the next
//! begins, and the integer codes that name them.

use vstd::prelude::*;

verus! {

/// A rule that finds the place between two words.
///
/// `Hyphen`, `Underscore` and `Space` split on one character and drop it. The
/// others split between two characters and keep both.
#[derive(Clone, Copy, Debug, PartialEq, Eq, Structural)]
pub enum Boundary {
    /// Splits on `-`.
    Hyphen,
    /// Splits on `_`.
    Underscore,
    /// Splits on a space.
    Space,
    /// Splits where an uppercase letter is followed by a lowercase letter.
    UpperLower,
    /// Splits where a lowercase letter is followed by an uppercase letter.
    LowerUpper,
    /// Splits where a digit is followed by an uppercase letter.
    DigitUpper,
    /// Splits where an uppercase letter is followed by a digit.
    UpperDigit,
    /// Splits where a digit is followed by a lowercase letter.
    DigitLower,
    /// Splits where a lowercase letter is followed by a digit.
    LowerDigit,
    /// Splits before the last of two uppercase letters that a lowercase
    /// letter follows, as in `HTTPRequest`.
    Acronym,
}

impl Boundary {
    /// The integer code of this boundary. The mapping is fixed: a host may
    /// store codes.
    pub open spec fn code_spec(self) -> i64 {
        match self {
            Boundary::Hyphen => 0,
            Boundary::Underscore => 1,
            Boundary::Space => 2,
            Boundary::UpperLower => 3,
            Boundary::LowerUpper => 4,
            Boundary::DigitUpper => 5,
            Boundary::UpperDigit => 6,
            Boundary::DigitLower => 7,
            Boundary::LowerDigit => 8,
            Boundary::Acronym => 9,
        }
    }

    /// The boundary that `code` names, if it names one.
    pub open spec fn of_code(code: i64) -> Option<Boundary> {
        if code == 0 {
            Some(Boundary::Hyphen)
        } else if code == 1 {
            Some(Boundary::Underscore)
        } else if code == 2 {
            Some(Boundary::Space)
        } else if code == 3 {
            Some(Boundary::UpperLower)
        } else if code == 4 {
            Some(Boundary::LowerUpper)
        } else if code == 5 {
            Some(Boundary::DigitUpper)
        } else if code == 6 {
            Some(Boundary::UpperDigit)
        } else if code == 7 {
            Some(Boundary::DigitLower)
        } else if code == 8 {
            Some(Boundary::LowerDigit)
        } else if code == 9 {
            Some(Boundary::Acronym)
        } else {
            None
        }
    }

    /// Every boundary, in the order in which a listing reports them.
    pub open spec fn all_spec() -> Seq<Boundary> {
        seq![
            Boundary::Hyphen,
            Boundary::Underscore,
            Boundary::Space,
            Boundary::LowerUpper,
            Boundary::UpperLower,
            Boundary::DigitUpper,
            Boundary::UpperDigit,
            Boundary::DigitLower,
            Boundary::LowerDigit,
            Boundary::Acronym,
        ]
    }

    /// The boundaries of a fresh converter: all but `UpperLower`.
    pub open spec fn defaults_spec() -> Seq<Boundary> {
        seq![
            Boundary::Underscore,
            Boundary::Hyphen,
            Boundary::Space,
            Boundary::LowerUpper,
            Boundary::UpperDigit,
            Boundary::DigitUpper,
            Boundary::DigitLower,
            Boundary::LowerDigit,
            Boundary::Acronym,
        ]
    }

    /// The place of this boundary in `all_spec()`.
    pub open spec fn rank_spec(self) -> nat {
        match self {
            Boundary::Hyphen => 0,
            Boundary::Underscore => 1,
            Boundary::Space => 2,
            Boundary::LowerUpper => 3,
            Boundary::UpperLower => 4,
            Boundary::DigitUpper => 5,
            Boundary::UpperDigit => 6,
            Boundary::DigitLower => 7,
            Boundary::LowerDigit => 8,
            Boundary::Acronym => 9,
        }
    }

    /// The integer code of this boundary.
    #[verifier::when_used_as_spec(code_spec)]
    pub fn code(self) -> (r: i64)
        ensures
            r == self.code_spec(),
            0 <= r <= 9,
            Self::of_code(r) == Some(self),
    {
        match self {
            Boundary::Hyphen => 0,
            Boundary::Underscore => 1,
            Boundary::Space => 2,
            Boundary::UpperLower => 3,
            Boundary::LowerUpper => 4,
            Boundary::DigitUpper => 5,
            Boundary::UpperDigit => 6,
            Boundary::DigitLower => 7,
            Boundary::LowerDigit => 8,
            Boundary::Acronym => 9,
        }
    }

    /// The boundary that `code` names. `None` for every integer that names
    /// none: a code is never bent into range.
    pub fn from_code(code: i64) -> (r: Option<Boundary>)
        ensures
            r == Self::of_code(code),
            r.is_some() <==> 0 <= code <= 9,
            r matches Some(b) ==> b.code_spec() == code,
    {
        match code {
            0 => Some(Boundary::Hyphen),
            1 => Some(Boundary::Underscore),
            2 => Some(Boundary::Space),
            3 => Some(Boundary::UpperLower),
            4 => Some(Boundary::LowerUpper),
            5 => Some(Boundary::DigitUpper),
            6 => Some(Boundary::UpperDigit),
            7 => Some(Boundary::DigitLower),
            8 => Some(Boundary::LowerDigit),
            9 => Some(Boundary::Acronym),
            _ => None,
        }
    }

    /// Every boundary, `UpperLower` included.
    pub fn all() -> (r: Vec<Boundary>)
        ensures
            r@ == Self::all_spec(),
            forall|b: Boundary| r@.contains(b),
    {
        let r = vec![
            Boundary::Hyphen,
            Boundary::Underscore,
            Boundary::Space,
            Boundary::LowerUpper,
            Boundary::UpperLower,
            Boundary::DigitUpper,
            Boundary::UpperDigit,
            Boundary::DigitLower,
            Boundary::LowerDigit,
            Boundary::Acronym,
        ];
        proof {
            assert(r@ =~= Self::all_spec());
            assert forall|b: Boundary| r@.contains(b) by {
                assert(r@[b.rank_spec() as int] == b);
            }
        }
        r
    }

    /// The boundaries that a conversion uses when none were chosen.
    pub fn defaults() -> (r: Vec<Boundary>)
        ensures
            r@ == Self::defaults_spec(),
    {
        let r = vec![
            Boundary::Underscore,
            Boundary::Hyphen,
            Boundary::Space,
            Boundary::LowerUpper,
            Boundary::UpperDigit,
            Boundary::DigitUpper,
            Boundary::DigitLower,
            Boundary::LowerDigit,
            Boundary::Acronym,
        ];
        proof {
            assert(r@ =~= Self::defaults_spec());
        }
        r
    }

    /// The place of this boundary in `all()`.
    pub fn rank(self) -> (r: usize)
        ensures
            r == self.rank_spec(),
            r < Self::all_spec().len(),
            Self::all_spec()[r as int] == self,
    {
        match self {
            Boundary::Hyphen => 0,
            Boundary::Underscore => 1,
            Boundary::Space => 2,
            Boundary::LowerUpper => 3,
            Boundary::UpperLower => 4,
            Boundary::DigitUpper => 5,
            Boundary::UpperDigit => 6,
            Boundary::DigitLower => 7,
            Boundary::LowerDigit => 8,
            Boundary::Acronym => 9,
        }
    }
}

} // verus!
