use vstd::prelude::*;
use vstd::std_specs::convert::{FromSpec, TryFromSpec};

verus! {

/// A three digit number (0..=999)
#[derive(Clone, Copy, Debug, PartialEq, Eq, Structural, PartialOrd, Ord, Hash)]
pub struct ThreeDigitNumber(u16);

/// The reason a value cannot become a [`ThreeDigitNumber`]
#[derive(Clone, Copy, Debug, PartialEq, Eq, Structural)]
pub enum TryFromError {
    /// The value is above 999
    TooLarge,
}

/// The sum of two numbers, wrapped around to three digits
pub open spec fn wrapping_sum(a: int, b: int) -> int {
    (a + b) % 1000
}

/// The difference of two numbers, wrapped around to three digits
pub open spec fn wrapping_difference(a: int, b: int) -> int {
    (a - b + 1000) % 1000
}

impl View for ThreeDigitNumber {
    type V = int;

    closed spec fn view(&self) -> int {
        self.0 as int
    }
}

impl ThreeDigitNumber {
    /// Every number that executable code can hold is at most 999
    #[verifier::type_invariant]
    pub open spec fn in_range(self) -> bool {
        0 <= self@ < 1000
    }

    /// The number with the given value. Two numbers with one value are one number
    pub closed spec fn of(value: int) -> Self {
        ThreeDigitNumber(value as u16)
    }

    /// A number is fixed by its value
    pub broadcast proof fn lemma_of_view(self)
        ensures
            #[trigger] Self::of(self@) == self,
    {
    }

    /// The value of the number made from a value in range is that value
    pub broadcast proof fn lemma_view_of(value: int)
        requires
            0 <= value < 1000,
        ensures
            #[trigger] Self::of(value)@ == value,
    {
    }

    /// The number zero
    pub fn zero() -> (number: Self)
        ensures
            number@ == 0,
    {
        Self(0)
    }

    /// Checks if the number also a valid two digit number
    pub fn is_2_digit(self) -> (small: bool)
        ensures
            small == (self@ < 100),
    {
        self.0 < 100
    }

    /// Makes a number from a value that is known to be below 1000
    pub fn from_unchecked(value: u16) -> (number: Self)
        requires
            value < 1000,
        ensures
            number@ == value,
    {
        Self(value)
    }
}

impl core::ops::Add for ThreeDigitNumber {
    type Output = Self;

    fn add(self, rhs: Self) -> (sum: Self)
        ensures
            sum@ == wrapping_sum(self@, rhs@),
    {
        proof {
            use_type_invariant(&self);
            use_type_invariant(&rhs);
        }
        Self((self.0 + rhs.0) % 1000)
    }
}

impl vstd::std_specs::ops::AddSpecImpl for ThreeDigitNumber {
    open spec fn obeys_add_spec() -> bool {
        true
    }

    open spec fn add_req(self, rhs: Self) -> bool {
        true
    }

    open spec fn add_spec(self, rhs: Self) -> Self {
        Self::of(wrapping_sum(self@, rhs@))
    }
}

impl core::ops::Sub for ThreeDigitNumber {
    type Output = (Self, bool);

    /// Subtracts with wraparound, and tells whether the true difference is negative
    fn sub(self, rhs: Self) -> (difference: (Self, bool))
        ensures
            difference.0@ == wrapping_difference(self@, rhs@),
            difference.1 == (self@ < rhs@),
    {
        proof {
            use_type_invariant(&self);
            use_type_invariant(&rhs);
        }
        (Self((self.0 + 1000 - rhs.0) % 1000), self.0 < rhs.0)
    }
}

impl vstd::std_specs::ops::SubSpecImpl for ThreeDigitNumber {
    open spec fn obeys_sub_spec() -> bool {
        true
    }

    open spec fn sub_req(self, rhs: Self) -> bool {
        true
    }

    open spec fn sub_spec(self, rhs: Self) -> (Self, bool) {
        (Self::of(wrapping_difference(self@, rhs@)), self@ < rhs@)
    }
}

impl Default for ThreeDigitNumber {
    fn default() -> (number: Self)
        ensures
            number@ == 0,
    {
        Self(0)
    }
}

impl From<u8> for ThreeDigitNumber {
    fn from(value: u8) -> (number: Self)
        ensures
            number@ == value,
    {
        Self(value as u16)
    }
}

impl vstd::std_specs::convert::FromSpecImpl<u8> for ThreeDigitNumber {
    open spec fn obeys_from_spec() -> bool {
        true
    }

    open spec fn from_spec(value: u8) -> Self {
        Self::of(value as int)
    }
}

impl TryFrom<u16> for ThreeDigitNumber {
    type Error = TryFromError;

    fn try_from(value: u16) -> (number: Result<Self, TryFromError>)
        ensures
            value < 1000 ==> number is Ok && number->Ok_0@ == value,
            value >= 1000 ==> number == Err::<Self, TryFromError>(TryFromError::TooLarge),
    {
        if value < 1000 {
            Ok(Self(value))
        } else {
            Err(TryFromError::TooLarge)
        }
    }
}

impl vstd::std_specs::convert::TryFromSpecImpl<u16> for ThreeDigitNumber {
    open spec fn obeys_try_from_spec() -> bool {
        true
    }

    open spec fn try_from_spec(value: u16) -> Result<Self, TryFromError> {
        if value < 1000 {
            Ok(Self::of(value as int))
        } else {
            Err(TryFromError::TooLarge)
        }
    }
}

impl From<ThreeDigitNumber> for u16 {
    fn from(number: ThreeDigitNumber) -> (value: u16)
        ensures
            value == number@,
            value < 1000,
    {
        proof {
            use_type_invariant(&number);
        }
        number.0
    }
}

impl vstd::std_specs::convert::FromSpecImpl<ThreeDigitNumber> for u16 {
    open spec fn obeys_from_spec() -> bool {
        true
    }

    open spec fn from_spec(number: ThreeDigitNumber) -> u16 {
        number@ as u16
    }
}

/// A value below 1000 becomes a number that gives the same value back, and a
/// value from 1000 on is refused.
pub proof fn lemma_try_from_round_trip(value: u16)
    ensures
        value < 1000 ==> ThreeDigitNumber::try_from_spec(value) is Ok && u16::from_spec(
            ThreeDigitNumber::try_from_spec(value)->Ok_0,
        ) == value,
        value >= 1000 ==> ThreeDigitNumber::try_from_spec(value) == Err::<
            ThreeDigitNumber,
            TryFromError,
        >(TryFromError::TooLarge),
{
    broadcast use ThreeDigitNumber::lemma_view_of;

}

} // verus!
