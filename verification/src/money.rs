//! Money as an exact fixed-point number.

use vstd::prelude::*;

verus! {

/// An amount of money, counted in hundredths of the currency unit.
///
/// The view of an amount is its number of hundredths as a mathematical
/// integer.
#[derive(Clone, Copy, Debug, PartialEq, Eq, Structural)]
pub struct Amount {
    pub hundredths: i64,
}

impl View for Amount {
    type V = int;

    open spec fn view(&self) -> int {
        self.hundredths as int
    }
}

/// Whether `n` hundredths can be held by an [`Amount`].
pub open spec fn representable(n: int) -> bool {
    i64::MIN <= n <= i64::MAX
}

impl Amount {
    /// The amount of nothing.
    pub fn zero() -> (a: Amount)
        ensures
            a@ == 0,
    {
        Amount { hundredths: 0 }
    }

    /// The amount given, or nothing where none is given.
    pub fn or_zero(amount: Option<Amount>) -> (a: Amount)
        ensures
            a == match amount {
                Some(given) => given,
                None => Amount { hundredths: 0 },
            },
    {
        match amount {
            Some(given) => given,
            None => Amount { hundredths: 0 },
        }
    }

    /// The amount of `hundredths` hundredths.
    pub fn from_hundredths(hundredths: i64) -> (a: Amount)
        ensures
            a@ == hundredths,
    {
        Amount { hundredths }
    }

    /// The amount of `units` whole currency units, where that many
    /// hundredths can be represented.
    pub fn from_units(units: i64) -> (r: Option<Amount>)
        ensures
            match r {
                Some(a) => a@ == units * 100,
                None => !representable(units * 100),
            },
    {
        match units.checked_mul(100) {
            Some(h) => Some(Amount { hundredths: h }),
            None => None,
        }
    }

    /// The number of hundredths.
    pub fn hundredths(&self) -> (h: i64)
        ensures
            h == self@,
    {
        self.hundredths
    }

    /// Whether the amount is greater than zero.
    pub fn is_positive(&self) -> (b: bool)
        ensures
            b == (self@ > 0),
    {
        self.hundredths > 0
    }

    /// Whether the amount covers `other`.
    pub fn at_least(&self, other: Amount) -> (b: bool)
        ensures
            b == (self@ >= other@),
    {
        self.hundredths >= other.hundredths
    }

    /// The sum of two amounts, where it can be represented.
    pub fn checked_add(self, other: Amount) -> (r: Option<Amount>)
        ensures
            match r {
                Some(a) => a@ == self@ + other@,
                None => !representable(self@ + other@),
            },
    {
        match self.hundredths.checked_add(other.hundredths) {
            Some(h) => Some(Amount { hundredths: h }),
            None => None,
        }
    }

    /// The price of `quantity` units at this unit price, where it can be
    /// represented.
    pub fn times(self, quantity: i32) -> (r: Option<Amount>)
        ensures
            match r {
                Some(a) => a@ == self@ * quantity,
                None => !representable(self@ * quantity),
            },
    {
        let q: i64 = quantity as i64;
        match self.hundredths.checked_mul(q) {
            Some(h) => Some(Amount { hundredths: h }),
            None => None,
        }
    }
}

} // verus!
