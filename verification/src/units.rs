//! Units of measure, and the exact representation of energy.

use vstd::prelude::*;

verus! {

/// A density of a macronutrient: milligrams of it in 100 grams of food.
pub type MilligramsPer100Gram = usize;

/// A mass in milligrams.
pub type Milligrams = usize;

/// A mass in grams.
pub type Grams = usize;

/// A body weight in kilograms.
pub type Kilograms = usize;

/// A body height in centimeters.
pub type Centimeters = usize;

/// An age in years.
pub type YearsOld = usize;

/// How many energy units make one kilocalorie.
pub const UNITS_PER_KCAL: i128 = 100_000;

/// Kilocalories in one gram of carbohydrate.
pub const CARBOHYDRATES_CALORIES_PER_GRAM: i128 = 4;

/// Kilocalories in one gram of fat.
pub const FATS_CALORIES_PER_GRAM: i128 = 9;

/// Kilocalories in one gram of protein.
pub const PROTEINS_CALORIES_PER_GRAM: i128 = 4;

/// An amount of energy, exact to a hundred thousandth of a kilocalorie.
///
/// The view of a value is its count of units; `UNITS_PER_KCAL` units make one
/// kilocalorie. The amount may be negative.
#[derive(Clone, Copy, Debug, PartialEq, Eq, Structural)]
pub struct Kcal {
    pub units: i128,
}

impl View for Kcal {
    type V = int;

    open spec fn view(&self) -> int {
        self.units as int
    }
}

/// The integer quotient of `a` by `b` rounded toward zero, for `b > 0`.
pub open spec fn div_toward_zero(a: int, b: int) -> int {
    if a >= 0 {
        a / b
    } else {
        -((-a) / b)
    }
}

impl Kcal {
    /// The whole kilocalories in this amount, as a mathematical integer:
    /// the fraction is dropped, toward zero.
    pub open spec fn spec_whole(self) -> int {
        div_toward_zero(self@, UNITS_PER_KCAL as int)
    }

    /// The amount of energy that is `units` hundred thousandths of a kilocalorie.
    pub fn from_units(units: i128) -> (k: Kcal)
        ensures
            k@ == units,
    {
        Kcal { units }
    }

    /// This amount in hundred thousandths of a kilocalorie.
    pub fn units(&self) -> (u: i128)
        ensures
            u == self@,
    {
        self.units
    }

    /// The whole kilocalories in this amount; the fraction is dropped, toward zero.
    pub fn whole(&self) -> (w: i128)
        ensures
            w == self.spec_whole(),
    {
        if self.units >= 0 {
            self.units / UNITS_PER_KCAL
        } else {
            let below: i128 = -(self.units + 1);
            let magnitude: u128 = (below as u128) + 1;
            let quotient: u128 = magnitude / 100_000;
            -(quotient as i128)
        }
    }
}

} // verus!
